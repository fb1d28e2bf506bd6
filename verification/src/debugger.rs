//! A read-only handle on a machine instance, for introspection tooling
//! built around the core.

use vstd::prelude::*;

use crate::nes::NES;

verus! {

pub struct Debugger<'a> {
    pub nes: &'a NES,
}

impl<'a> Debugger<'a> {
    pub fn new(nes: &'a NES) -> (r: Debugger<'a>)
        ensures
            r.nes == nes,
    {
        Debugger { nes }
    }
}

} // verus!
