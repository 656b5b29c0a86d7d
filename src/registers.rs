use vstd::prelude::*;
use crate::types::Cmd;

verus! {

/// The text last yanked, to paste later.
pub struct Registers {
    pub register: String,
}

impl Registers {
    /// An empty register.
    pub fn new() -> (r: Registers)
        ensures
            r.register@.len() == 0,
    {
        Registers { register: String::new() }
    }

    /// `YankValue` stores its text; `PasteAtPoint` asks for the stored text to be
    /// inserted at its point. Other commands change nothing and ask for nothing.
    pub fn update(&mut self, cmd: &Cmd) -> (r: Option<Cmd>)
        ensures
            match *cmd {
                Cmd::YankValue(v) => final(self).register == v && r is None,
                Cmd::PasteAtPoint(p) => {
                    &&& final(self).register == old(self).register
                    &&& r == Some(Cmd::InsertStringAtPoint(old(self).register, p))
                },
                _ => final(self).register == old(self).register && r is None,
            },
    {
        match cmd {
            Cmd::YankValue(v) => {
                self.register = v.clone();
                None
            },
            Cmd::PasteAtPoint(p) => Some(Cmd::InsertStringAtPoint(self.register.clone(), *p)),
            _ => None,
        }
    }
}

} // verus!
