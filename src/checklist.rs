use vstd::prelude::*;

use crate::eci_std::{
    chk_eei_namespace, chk_func_signatures, chk_main_exported, chk_mem_exported, chk_no_startfn,
    funcsigs_status, main_export_status, mem_export_status, namespace_status, startfn_status,
};
use crate::wasm::{ModuleView, WasmModule};

verus! {

/// The state of a check. Every check starts `Unknown`; a run sets one of the other three.
#[derive(Clone, Copy, Debug, PartialEq, Eq, Structural)]
pub enum CheckStatus {
    Unknown,
    Nonexistent,
    Malformed,
    Good,
}

impl CheckStatus {
    pub open spec fn spec_name(self) -> Seq<char> {
        match self {
            CheckStatus::Unknown => "Unknown"@,
            CheckStatus::Nonexistent => "Nonexistent"@,
            CheckStatus::Malformed => "Malformed"@,
            CheckStatus::Good => "Good"@,
        }
    }

    /// The name of the status, as a report writes it.
    pub fn name(&self) -> (r: &'static str)
        ensures
            r@ == self.spec_name(),
    {
        match self {
            CheckStatus::Unknown => "Unknown",
            CheckStatus::Nonexistent => "Nonexistent",
            CheckStatus::Malformed => "Malformed",
            CheckStatus::Good => "Good",
        }
    }
}

/// The algorithm a check runs on a module.
#[derive(Clone, Copy, Debug, PartialEq, Eq, Structural)]
pub enum CheckKind {
    MainExported,
    MemExported,
    EeiNamespace,
    NoStartfn,
    FuncSignatures,
}

/// The status that a check of the given kind assigns to a module.
pub open spec fn evaluate(kind: CheckKind, m: ModuleView) -> CheckStatus {
    match kind {
        CheckKind::MainExported => main_export_status(m),
        CheckKind::MemExported => mem_export_status(m),
        CheckKind::EeiNamespace => namespace_status(m),
        CheckKind::NoStartfn => startfn_status(m),
        CheckKind::FuncSignatures => funcsigs_status(m),
    }
}

impl CheckKind {
    /// Runs the check on a module.
    pub fn run(&self, module: &WasmModule) -> (r: CheckStatus)
        ensures
            r == evaluate(*self, module@),
    {
        match self {
            CheckKind::MainExported => chk_main_exported(module),
            CheckKind::MemExported => chk_mem_exported(module),
            CheckKind::EeiNamespace => chk_eei_namespace(module),
            CheckKind::NoStartfn => chk_no_startfn(module),
            CheckKind::FuncSignatures => chk_func_signatures(module),
        }
    }
}

/// A registered check: its current status and the algorithm that decides it.
#[derive(Clone, Copy, Debug, PartialEq, Eq, Structural)]
pub struct Check {
    pub status: CheckStatus,
    pub do_check: CheckKind,
}

/// The error for a check id that the checklist does not hold.
#[derive(Clone, Copy, Debug, PartialEq, Eq, Structural)]
pub struct UnknownCheckId;

/// Whether some entry has the given id.
pub open spec fn has_key(s: Seq<(Seq<char>, Check)>, key: Seq<char>) -> bool {
    exists|i: int| 0 <= i < s.len() && s[i].0 == key
}

/// No two entries share an id.
pub open spec fn keys_distinct(s: Seq<(Seq<char>, Check)>) -> bool {
    forall|i: int, j: int| 0 <= i < s.len() && 0 <= j < s.len() && i != j ==> s[i].0 != s[j].0
}

/// The five standard checks, all `Unknown`.
pub open spec fn default_checks() -> Seq<(Seq<char>, Check)> {
    seq![
        ("export-main"@, Check { status: CheckStatus::Unknown, do_check: CheckKind::MainExported }),
        ("export-memory"@, Check { status: CheckStatus::Unknown, do_check: CheckKind::MemExported }),
        ("eei-namespace"@, Check { status: CheckStatus::Unknown, do_check: CheckKind::EeiNamespace }),
        ("no-startfn"@, Check { status: CheckStatus::Unknown, do_check: CheckKind::NoStartfn }),
        ("eei-funcsigs"@, Check { status: CheckStatus::Unknown, do_check: CheckKind::FuncSignatures }),
    ]
}

/// A set of checks, each under a unique id.
pub struct EciChecklist {
    checklist: Vec<(String, Check)>,
}

impl View for EciChecklist {
    type V = Seq<(Seq<char>, Check)>;

    closed spec fn view(&self) -> Seq<(Seq<char>, Check)> {
        self.checklist@.map_values(|p: (String, Check)| (p.0@, p.1))
    }
}

impl EciChecklist {
    pub open spec fn wf(&self) -> bool {
        keys_distinct(self@)
    }

    /// An empty checklist.
    pub fn new() -> (r: EciChecklist)
        ensures
            r.wf(),
            r@ == Seq::<(Seq<char>, Check)>::empty(),
    {
        let r = EciChecklist { checklist: Vec::new() };
        assert(r@ =~= Seq::<(Seq<char>, Check)>::empty());
        r
    }

    /// A checklist with the five standard checks.
    pub fn default() -> (r: EciChecklist)
        ensures
            r.wf(),
            r@ == default_checks(),
    {
        let mut v: Vec<(String, Check)> = Vec::new();
        v.push(
            (
                String::from_str("export-main"),
                Check { status: CheckStatus::Unknown, do_check: CheckKind::MainExported },
            ),
        );
        v.push(
            (
                String::from_str("export-memory"),
                Check { status: CheckStatus::Unknown, do_check: CheckKind::MemExported },
            ),
        );
        v.push(
            (
                String::from_str("eei-namespace"),
                Check { status: CheckStatus::Unknown, do_check: CheckKind::EeiNamespace },
            ),
        );
        v.push(
            (
                String::from_str("no-startfn"),
                Check { status: CheckStatus::Unknown, do_check: CheckKind::NoStartfn },
            ),
        );
        v.push(
            (
                String::from_str("eei-funcsigs"),
                Check { status: CheckStatus::Unknown, do_check: CheckKind::FuncSignatures },
            ),
        );
        let r = EciChecklist { checklist: v };
        proof {
            let d = default_checks();
            assert forall|k: int| 0 <= k < 5 implies #[trigger] r@[k] == d[k] by {}
            assert(r@ =~= d);
            reveal_strlit("export-main");
            reveal_strlit("export-memory");
            reveal_strlit("eei-namespace");
            reveal_strlit("no-startfn");
            reveal_strlit("eei-funcsigs");
            assert forall|i: int, j: int|
                0 <= i < d.len() && 0 <= j < d.len() && i != j implies d[i].0 != d[j].0 by {
                if d[i].0.len() == d[j].0.len() {
                    assert(d[i].0[1] != d[j].0[1]);
                }
            }
        }
        r
    }

    /// The number of checks.
    pub fn len(&self) -> (r: usize)
        ensures
            r == self@.len(),
    {
        self.checklist.len()
    }

    /// Whether the checklist holds no check.
    pub fn is_empty(&self) -> (r: bool)
        ensures
            r == (self@.len() == 0),
    {
        self.checklist.len() == 0
    }

    /// The position of the entry with the given id.
    fn find(&self, key: &str) -> (r: Option<usize>)
        ensures
            r matches Some(i) ==> i < self@.len() && self@[i as int].0 == key@,
            r is None <==> !has_key(self@, key@),
    {
        let k = String::from_str(key);
        let mut i: usize = 0;
        while i < self.checklist.len()
            invariant
                i <= self@.len(),
                self@.len() == self.checklist@.len(),
                k@ == key@,
                forall|j: int| 0 <= j < i ==> self@[j].0 != key@,
            decreases self.checklist@.len() - i,
        {
            if self.checklist[i].0 == k {
                assert(self@[i as int].0 == key@);
                return Some(i);
            }
            i = i + 1;
        }
        None
    }

    /// Whether a check with the given id is registered.
    pub fn has_check(&self, key: &str) -> (r: bool)
        ensures
            r == has_key(self@, key@),
    {
        self.find(key).is_some()
    }

    /// Registers a check under the given id with status `Unknown`, replacing any check
    /// registered under that id before.
    pub fn add_check(&mut self, key: &str, checkfn: CheckKind)
        requires
            old(self).wf(),
        ensures
            final(self).wf(),
            has_key(old(self)@, key@) ==> final(self)@ == old(self)@.map_values(
                |e: (Seq<char>, Check)|
                    if e.0 == key@ {
                        (e.0, Check { status: CheckStatus::Unknown, do_check: checkfn })
                    } else {
                        e
                    },
            ),
            !has_key(old(self)@, key@) ==> final(self)@ == old(self)@.push(
                (key@, Check { status: CheckStatus::Unknown, do_check: checkfn }),
            ),
    {
        let c = Check { status: CheckStatus::Unknown, do_check: checkfn };
        match self.find(key) {
            Some(i) => {
                let ghost s = self@;
                let id = self.checklist[i].0.clone();
                self.checklist.set(i, (id, c));
                proof {
                    assert(self@ =~= s.map_values(
                        |e: (Seq<char>, Check)|
                            if e.0 == key@ {
                                (e.0, c)
                            } else {
                                e
                            },
                    ));
                }
            },
            None => {
                let ghost s = self@;
                self.checklist.push((String::from_str(key), c));
                assert(self@ =~= s.push((key@, c)));
            },
        }
    }

    /// Sets the status of the check with the given id; `Err` where no check has it.
    pub fn set_check_status(&mut self, key: &str, val: CheckStatus) -> (r: Result<(), UnknownCheckId>)
        requires
            old(self).wf(),
        ensures
            final(self).wf(),
            r is Err <==> !has_key(old(self)@, key@),
            final(self)@ == old(self)@.map_values(
                |e: (Seq<char>, Check)|
                    if e.0 == key@ {
                        (e.0, Check { status: val, do_check: e.1.do_check })
                    } else {
                        e
                    },
            ),
    {
        let ghost s = self@;
        match self.find(key) {
            Some(i) => {
                let id = self.checklist[i].0.clone();
                let c = Check { status: val, do_check: self.checklist[i].1.do_check };
                self.checklist.set(i, (id, c));
                assert(self@ =~= s.map_values(
                    |e: (Seq<char>, Check)|
                        if e.0 == key@ {
                            (e.0, Check { status: val, do_check: e.1.do_check })
                        } else {
                            e
                        },
                ));
                Ok(())
            },
            None => {
                assert(self@ =~= s.map_values(
                    |e: (Seq<char>, Check)|
                        if e.0 == key@ {
                            (e.0, Check { status: val, do_check: e.1.do_check })
                        } else {
                            e
                        },
                ));
                Err(UnknownCheckId)
            },
        }
    }

    /// The status of the check with the given id; `Err` where no check has it.
    pub fn get_check_status(&self, key: &str) -> (r: Result<CheckStatus, UnknownCheckId>)
        requires
            self.wf(),
        ensures
            r is Err <==> !has_key(self@, key@),
            forall|i: int| 0 <= i < self@.len() && self@[i].0 == key@ ==> r == Ok::<
                CheckStatus,
                UnknownCheckId,
            >(self@[i].1.status),
    {
        match self.find(key) {
            Some(i) => Ok(self.checklist[i].1.status),
            None => Err(UnknownCheckId),
        }
    }

    /// Whether the check with the given id is registered and `Good`.
    pub fn check_is_good(&self, key: &str) -> (r: bool)
        requires
            self.wf(),
        ensures
            r == exists|i: int|
                0 <= i < self@.len() && self@[i].0 == key@ && self@[i].1.status
                    == CheckStatus::Good,
    {
        match self.get_check_status(key) {
            Ok(CheckStatus::Good) => true,
            _ => false,
        }
    }

    /// The algorithm of the check with the given id; `Err` where no check has it.
    pub fn get_checker(&self, key: &str) -> (r: Result<CheckKind, UnknownCheckId>)
        requires
            self.wf(),
        ensures
            r is Err <==> !has_key(self@, key@),
            forall|i: int| 0 <= i < self@.len() && self@[i].0 == key@ ==> r == Ok::<
                CheckKind,
                UnknownCheckId,
            >(self@[i].1.do_check),
    {
        match self.find(key) {
            Some(i) => Ok(self.checklist[i].1.do_check),
            None => Err(UnknownCheckId),
        }
    }

    /// Every check id with its status, in the checklist's order.
    pub fn dump_checks(&self) -> (r: Vec<(String, CheckStatus)>)
        ensures
            r@.len() == self@.len(),
            forall|i: int|
                0 <= i < r@.len() ==> r@[i].0@ == self@[i].0 && r@[i].1 == self@[i].1.status,
    {
        let mut r: Vec<(String, CheckStatus)> = Vec::new();
        let mut i: usize = 0;
        while i < self.checklist.len()
            invariant
                i <= self@.len(),
                self@.len() == self.checklist@.len(),
                r@.len() == i,
                forall|j: int| 0 <= j < i ==> r@[j].0@ == self@[j].0 && r@[j].1 == self@[j].1.status,
            decreases self.checklist@.len() - i,
        {
            r.push((self.checklist[i].0.clone(), self.checklist[i].1.status));
            i = i + 1;
        }
        r
    }
}

} // verus!
