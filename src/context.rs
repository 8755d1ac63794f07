use vstd::prelude::*;

use crate::checklist::{default_checks, EciChecklist};

verus! {

/// A module's bytes together with a checklist.
pub struct EcicContext {
    pub code: Vec<u8>,
    pub checks: EciChecklist,
}

impl EcicContext {
    /// A context with no code and no checks.
    pub fn new() -> (r: EcicContext)
        ensures
            r.code@.len() == 0,
            r.checks.wf(),
            r.checks@.len() == 0,
    {
        EcicContext::empty()
    }

    /// A context with no code and no checks.
    pub fn empty() -> (r: EcicContext)
        ensures
            r.code@.len() == 0,
            r.checks.wf(),
            r.checks@.len() == 0,
    {
        EcicContext { code: Vec::new(), checks: EciChecklist::new() }
    }

    /// A context for the given code with the five standard checks.
    pub fn default(input: &Vec<u8>) -> (r: EcicContext)
        ensures
            r.code@ == input@,
            r.checks.wf(),
            r.checks@ == default_checks(),
    {
        let mut code: Vec<u8> = Vec::new();
        let mut i: usize = 0;
        while i < input.len()
            invariant
                i <= input@.len(),
                code@ == input@.subrange(0, i as int),
            decreases input@.len() - i,
        {
            code.push(input[i]);
            i = i + 1;
            assert(code@ =~= input@.subrange(0, i as int));
        }
        assert(code@ =~= input@);
        EcicContext { code, checks: EciChecklist::default() }
    }

    /// The length of the code in bytes.
    pub fn code_len(&self) -> (r: usize)
        ensures
            r == self.code@.len(),
    {
        self.code.len()
    }
}

} // verus!
