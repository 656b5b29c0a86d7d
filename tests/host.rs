use myedit::host::{is_module_artifact, reload_plan, HostAction, ModuleTable};
use std::cell::RefCell;
use std::rc::Rc;

struct Instance {
    name: String,
    log: Rc<RefCell<Vec<String>>>,
}

impl Instance {
    fn init(name: &str, state_seen: &str, log: &Rc<RefCell<Vec<String>>>) -> Instance {
        log.borrow_mut().push(format!("init {} with {}", name, state_seen));
        Instance { name: name.to_string(), log: log.clone() }
    }
}

impl Drop for Instance {
    fn drop(&mut self) {
        self.log.borrow_mut().push(format!("cleanup {}", self.name));
    }
}

fn run_plan(
    table: &mut ModuleTable<Instance>,
    plan: Vec<HostAction>,
    state_seen: &str,
    log: &Rc<RefCell<Vec<String>>>,
) {
    for step in plan {
        match step {
            HostAction::Unload(name) => {
                let old = table.remove(&name);
                assert!(old.is_some());
                drop(old);
            }
            HostAction::Load(name) => {
                let fresh = Instance::init(&name, state_seen, log);
                table.insert(name, fresh);
            }
        }
    }
}

#[test]
fn reload_cleans_up_the_old_instance_before_the_new_one_starts() {
    let log = Rc::new(RefCell::new(Vec::new()));
    let mut table: ModuleTable<Instance> = ModuleTable::new();
    let name = String::from("libcursor.so");
    let plan = reload_plan(&table, &name);
    assert_eq!(plan, vec![HostAction::Load(name.clone())]);
    run_plan(&mut table, plan, "state 1", &log);
    let plan = reload_plan(&table, &name);
    assert_eq!(plan, vec![HostAction::Unload(name.clone()), HostAction::Load(name.clone())]);
    run_plan(&mut table, plan, "state 2", &log);
    assert_eq!(
        *log.borrow(),
        vec![
            String::from("init libcursor.so with state 1"),
            String::from("cleanup libcursor.so"),
            String::from("init libcursor.so with state 2"),
        ]
    );
    assert_eq!(table.len(), 1);
}

#[test]
fn table_keeps_one_module_per_name() {
    let log = Rc::new(RefCell::new(Vec::new()));
    let mut table: ModuleTable<Instance> = ModuleTable::new();
    table.insert(String::from("a.so"), Instance::init("a.so", "s", &log));
    table.insert(String::from("b.so"), Instance::init("b.so", "s", &log));
    assert_eq!(table.position(&String::from("b.so")), Some(1));
    assert!(table.remove(&String::from("c.so")).is_none());
    assert_eq!(table.len(), 2);
    let a = table.remove(&String::from("a.so"));
    assert_eq!(a.map(|m| m.name.clone()), Some(String::from("a.so")));
    assert_eq!(table.position(&String::from("a.so")), None);
    assert_eq!(table.position(&String::from("b.so")), Some(0));
}

#[test]
fn only_shared_libraries_are_modules() {
    assert!(is_module_artifact("libcursor.so"));
    assert!(is_module_artifact("libcursor.dylib"));
    assert!(!is_module_artifact("libcursor.d"));
    assert!(!is_module_artifact("libcursor.rlib"));
    assert!(!is_module_artifact(".so"));
    assert!(!is_module_artifact("so"));
    assert!(!is_module_artifact("libso"));
    assert!(is_module_artifact("..so"));
}
