use vstd::prelude::*;

verus! {

/// A step of the extension host.
#[derive(Debug, Clone, PartialEq)]
pub enum HostAction {
    /// Call the module's `cleanup` and close it.
    Unload(String),
    /// Copy the module's artifact aside, open it, resolve its four entry points and
    /// call its `init` with the current shared state.
    Load(String),
}

/// The loaded extension modules, each under the file name of its artifact.
pub struct ModuleTable<M> {
    pub names: Vec<String>,
    pub modules: Vec<M>,
}

impl<M> ModuleTable<M> {
    /// The names as text, in table order.
    pub open spec fn name_seq(&self) -> Seq<Seq<char>> {
        self.names@.map_values(|s: String| s@)
    }

    /// One module per name, and no name twice.
    pub open spec fn wf(&self) -> bool {
        &&& self.names@.len() == self.modules@.len()
        &&& self.name_seq().no_duplicates()
    }

    pub open spec fn has(&self, name: Seq<char>) -> bool {
        self.name_seq().contains(name)
    }

    /// An empty table.
    pub fn new() -> (t: Self)
        ensures
            t.wf(),
            t.names@.len() == 0,
    {
        ModuleTable { names: Vec::new(), modules: Vec::new() }
    }

    /// How many modules are loaded.
    pub fn len(&self) -> (r: usize)
        requires
            self.wf(),
        ensures
            r == self.modules@.len(),
    {
        self.modules.len()
    }

    /// Where the module of this name stands in the table, if it is loaded.
    pub fn position(&self, name: &String) -> (r: Option<usize>)
        ensures
            r is None <==> !self.has(name@),
            r matches Some(i) ==> i < self.names@.len() && self.names@[i as int]@ == name@,
    {
        let mut i: usize = 0;
        while i < self.names.len()
            invariant
                i <= self.names@.len(),
                forall|j: int| 0 <= j < i ==> self.names@[j]@ != name@,
            decreases self.names@.len() - i,
        {
            if self.names[i] == *name {
                assert(self.name_seq()[i as int] == name@);
                return Some(i);
            }
            i = i + 1;
        }
        proof {
            if self.has(name@) {
                let j = choose|j: int| 0 <= j < self.name_seq().len() && self.name_seq()[j] == name@;
                assert(self.names@[j]@ == name@);
            }
        }
        None
    }

    /// Takes the module of this name out of the table, if it is loaded.
    pub fn remove(&mut self, name: &String) -> (r: Option<M>)
        requires
            old(self).wf(),
        ensures
            final(self).wf(),
            !final(self).has(name@),
            r is Some <==> old(self).has(name@),
            r is None ==> final(self).names@ == old(self).names@ && final(self).modules@ == old(self).modules@,
            forall|n: Seq<char>| n != name@ ==> (final(self).has(n) <==> old(self).has(n)),
            final(self).modules@.len() == old(self).modules@.len() - (if r is Some { 1int } else { 0int }),
    {
        match self.position(name) {
            None => None,
            Some(i) => {
                let ghost before = self.name_seq();
                self.names.remove(i);
                let m = self.modules.remove(i);
                proof {
                    assert(self.name_seq() =~= before.remove(i as int));
                    assert forall|p: int, q: int| 0 <= p < q < self.name_seq().len() implies self.name_seq()[p] != self.name_seq()[q] by {
                        let pp = if p < i { p } else { p + 1 };
                        let qq = if q < i { q } else { q + 1 };
                        assert(self.name_seq()[p] == before[pp]);
                        assert(self.name_seq()[q] == before[qq]);
                    }
                    assert forall|n: Seq<char>| n != name@ implies (self.has(n) <==> old(self).has(n)) by {
                        if old(self).has(n) {
                            let j = choose|j: int| 0 <= j < before.len() && before[j] == n;
                            assert(j != i);
                            let jj = if j < i { j } else { j - 1 };
                            assert(self.name_seq()[jj] == n);
                        }
                        if self.has(n) {
                            let j = choose|j: int| 0 <= j < self.name_seq().len() && self.name_seq()[j] == n;
                            let jj = if j < i { j } else { j + 1 };
                            assert(before[jj] == n);
                        }
                    }
                    if self.has(name@) {
                        let j = choose|j: int| 0 <= j < self.name_seq().len() && self.name_seq()[j] == name@;
                        let jj = if j < i { j } else { j + 1 };
                        assert(before[jj] == name@);
                        assert(before[i as int] == name@);
                    }
                }
                Some(m)
            },
        }
    }

    /// Adds a module under a name that is not loaded.
    pub fn insert(&mut self, name: String, module: M)
        requires
            old(self).wf(),
            !old(self).has(name@),
        ensures
            final(self).wf(),
            final(self).has(name@),
            forall|n: Seq<char>| n != name@ ==> (final(self).has(n) <==> old(self).has(n)),
            final(self).modules@.len() == old(self).modules@.len() + 1,
    {
        let ghost before = self.name_seq();
        let ghost n0 = name@;
        self.names.push(name);
        self.modules.push(module);
        proof {
            assert(self.name_seq() =~= before.push(n0));
            assert(self.name_seq()[before.len() as int] == n0);
            assert forall|n: Seq<char>| n != n0 implies (self.has(n) <==> old(self).has(n)) by {
                if old(self).has(n) {
                    let j = choose|j: int| 0 <= j < before.len() && before[j] == n;
                    assert(self.name_seq()[j] == n);
                }
                if self.has(n) {
                    let j = choose|j: int| 0 <= j < self.name_seq().len() && self.name_seq()[j] == n;
                    assert(j < before.len());
                    assert(before[j] == n);
                }
            }
        }
    }
}

/// Returns the steps that reload the module of this name: the old instance is cleaned
/// up before the new one is initialised, and a module not yet loaded is just loaded.
pub fn reload_plan<M>(table: &ModuleTable<M>, name: &String) -> (r: Vec<HostAction>)
    ensures
        table.has(name@) ==> r@ == seq![HostAction::Unload(*name), HostAction::Load(*name)],
        !table.has(name@) ==> r@ == seq![HostAction::Load(*name)],
{
    match table.position(name) {
        Some(_) => vec![HostAction::Unload(name.clone()), HostAction::Load(name.clone())],
        None => vec![HostAction::Load(name.clone())],
    }
}

/// Whether `name` has extension `ext`: a non-empty stem, a dot, then `ext`.
pub open spec fn has_extension(name: Seq<char>, ext: Seq<char>) -> bool {
    &&& name.len() > ext.len() + 1
    &&& name[name.len() - ext.len() - 1] == '.'
    &&& name.skip(name.len() - ext.len()) == ext
}

fn ends_with_extension(name: &str, ext: &str) -> (r: bool)
    ensures
        r == has_extension(name@, ext@),
{
    let n = name.unicode_len();
    let e = ext.unicode_len();
    if e >= usize::MAX - 1 || n <= e + 1 {
        return false;
    }
    if name.get_char(n - e - 1) != '.' {
        return false;
    }
    let mut i: usize = 0;
    while i < e
        invariant
            n == name@.len(),
            e == ext@.len(),
            n > e + 1,
            i <= e,
            forall|j: int| 0 <= j < i ==> name@[n - e + j] == ext@[j],
        decreases e - i,
    {
        if name.get_char(n - e + i) != ext.get_char(i) {
            assert(name@.skip(n - e)[i as int] != ext@[i as int]);
            return false;
        }
        i = i + 1;
    }
    assert(name@.skip(n - e) =~= ext@);
    true
}

/// Whether a file in the module directory is a module artifact: a shared library,
/// with extension `so` or `dylib`.
pub fn is_module_artifact(file_name: &str) -> (r: bool)
    ensures
        r == (has_extension(file_name@, "so"@) || has_extension(file_name@, "dylib"@)),
{
    ends_with_extension(file_name, "so") || ends_with_extension(file_name, "dylib")
}

} // verus!
