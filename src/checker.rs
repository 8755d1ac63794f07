use vstd::prelude::*;

use crate::checklist::{default_checks, evaluate, keys_distinct, Check, EciChecklist};
use crate::decode::{decoded, DecodeError};
use crate::wasm::{ModuleView, WasmModule};

verus! {

/// The checklist after every check has been run on the module: each entry keeps its id
/// and algorithm and takes the status that its algorithm assigns to the module.
pub open spec fn ran(s: Seq<(Seq<char>, Check)>, m: ModuleView) -> Seq<(Seq<char>, Check)> {
    s.map_values(
        |e: (Seq<char>, Check)|
            (e.0, Check { status: evaluate(e.1.do_check, m), do_check: e.1.do_check }),
    )
}

/// The checklist after `n` successive runs on the same module.
pub open spec fn ran_times(s: Seq<(Seq<char>, Check)>, m: ModuleView, n: nat) -> Seq<
    (Seq<char>, Check),
>
    decreases n,
{
    if n == 0 {
        s
    } else {
        ran(ran_times(s, m, (n - 1) as nat), m)
    }
}

/// One line of a report.
pub open spec fn report_line(e: (Seq<char>, Check)) -> Seq<char> {
    "ID: "@ + e.0 + " - STATUS: "@ + e.1.status.spec_name()
}

/// Holds a module's bytes and the checks to run on them.
pub struct EcicChecker {
    pub code: Vec<u8>,
    pub checks: EciChecklist,
}

impl EcicChecker {
    /// A checker with no code and no checks.
    pub fn new() -> (r: EcicChecker)
        ensures
            r.code@.len() == 0,
            r.checks.wf(),
            r.checks@.len() == 0,
    {
        EcicChecker::empty()
    }

    /// A checker with no code and no checks.
    pub fn empty() -> (r: EcicChecker)
        ensures
            r.code@.len() == 0,
            r.checks.wf(),
            r.checks@.len() == 0,
    {
        EcicChecker { code: Vec::new(), checks: EciChecklist::new() }
    }

    /// A checker for the given code with the five standard checks.
    pub fn default(input: &Vec<u8>) -> (r: EcicChecker)
        ensures
            r.code@ == input@,
            r.checks.wf(),
            r.checks@ == default_checks(),
    {
        let mut code: Vec<u8> = Vec::new();
        let mut i: usize = 0;
        while i < input.len()
            invariant
                i <= input@.len(),
                code@ == input@.subrange(0, i as int),
            decreases input@.len() - i,
        {
            code.push(input[i]);
            i = i + 1;
            assert(code@ =~= input@.subrange(0, i as int));
        }
        assert(code@ =~= input@);
        EcicChecker { code, checks: EciChecklist::default() }
    }

    /// The length of the code in bytes.
    pub fn code_len(&self) -> (r: usize)
        ensures
            r == self.code@.len(),
    {
        self.code.len()
    }

    /// Runs every check of the checklist on the module and records each status.
    pub fn run_checks(&mut self, module: &WasmModule)
        requires
            old(self).checks.wf(),
        ensures
            final(self).checks.wf(),
            final(self).code == old(self).code,
            final(self).checks@ == ran(old(self).checks@, module@),
    {
        let ghost s0 = self.checks@;
        let ids = self.checks.dump_checks();
        let mut i: usize = 0;
        while i < ids.len()
            invariant
                self.checks.wf(),
                self.code == old(self).code,
                s0 == old(self).checks@,
                keys_distinct(s0),
                ids@.len() == s0.len(),
                forall|j: int| 0 <= j < ids@.len() ==> ids@[j].0@ == s0[j].0,
                i <= ids@.len(),
                self.checks@.len() == s0.len(),
                forall|j: int| 0 <= j < s0.len() ==> self.checks@[j].0 == s0[j].0,
                forall|j: int| 0 <= j < i ==> self.checks@[j].1 == ran(s0, module@)[j].1,
                forall|j: int| i <= j < s0.len() ==> self.checks@[j].1 == s0[j].1,
            decreases ids@.len() - i,
        {
            let id = ids[i].0.as_str();
            assert(ids@[i as int].0@ == s0[i as int].0);
            match self.checks.get_checker(id) {
                Ok(kind) => {
                    let status = kind.run(module);
                    let _ = self.checks.set_check_status(id, status);
                },
                Err(_) => {},
            }
            i = i + 1;
        }
        assert(self.checks@ =~= ran(s0, module@));
    }

    /// Decodes the code and runs every check of the checklist on the module. Where the
    /// code does not decode, no check runs and `Err` is returned.
    pub fn fire(&mut self) -> (r: Result<(), DecodeError>)
        requires
            old(self).checks.wf(),
        ensures
            final(self).checks.wf(),
            final(self).code == old(self).code,
            r is Ok <==> decoded(old(self).code@) is Some,
            r is Err ==> final(self).checks@ == old(self).checks@,
            r is Ok ==> final(self).checks@ == ran(old(self).checks@, decoded(old(self).code@)->Some_0),
    {
        match WasmModule::decode(self.code.as_slice()) {
            Ok(module) => {
                self.run_checks(&module);
                Ok(())
            },
            Err(e) => Err(e),
        }
    }

    /// One line per check, `ID: <id> - STATUS: <status>`, in the checklist's order.
    pub fn report_lines(&self) -> (r: Vec<String>)
        ensures
            r@.len() == self.checks@.len(),
            forall|i: int| 0 <= i < r@.len() ==> r@[i]@ == report_line(self.checks@[i]),
    {
        let entries = self.checks.dump_checks();
        let mut r: Vec<String> = Vec::new();
        let mut i: usize = 0;
        while i < entries.len()
            invariant
                i <= entries@.len(),
                entries@.len() == self.checks@.len(),
                forall|j: int|
                    0 <= j < entries@.len() ==> entries@[j].0@ == self.checks@[j].0
                        && entries@[j].1 == self.checks@[j].1.status,
                r@.len() == i,
                forall|j: int| 0 <= j < i ==> r@[j]@ == report_line(self.checks@[j]),
            decreases entries@.len() - i,
        {
            let mut line = String::from_str("ID: ");
            line.append(entries[i].0.as_str());
            line.append(" - STATUS: ");
            line.append(entries[i].1.name());
            r.push(line);
            i = i + 1;
        }
        r
    }
}

/// Determinism: running all checks again on the same module, any number of times,
/// yields the statuses of the first run.
pub proof fn lemma_rerun_deterministic(s: Seq<(Seq<char>, Check)>, m: ModuleView, n: nat)
    requires
        n >= 1,
    ensures
        ran_times(s, m, n) == ran(s, m),
    decreases n,
{
    if n > 1 {
        lemma_rerun_deterministic(s, m, (n - 1) as nat);
        assert(ran(ran(s, m), m) =~= ran(s, m));
    } else {
        assert(ran_times(s, m, 0) == s);
    }
}

/// Independence: the status a run gives a check depends on its algorithm and the module
/// alone, not on the other entries of the checklist nor on the check's place in it.
pub proof fn lemma_checks_independent(
    s1: Seq<(Seq<char>, Check)>,
    s2: Seq<(Seq<char>, Check)>,
    m: ModuleView,
    i1: int,
    i2: int,
)
    requires
        0 <= i1 < s1.len(),
        0 <= i2 < s2.len(),
        s1[i1].1.do_check == s2[i2].1.do_check,
    ensures
        ran(s1, m)[i1].1.status == ran(s2, m)[i2].1.status,
        ran(s1, m)[i1].1.status == evaluate(s1[i1].1.do_check, m),
{
}

} // verus!
