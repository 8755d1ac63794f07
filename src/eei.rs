use vstd::prelude::*;

use crate::wasm::{opt_sig, FuncType, Signature, ValType};
use crate::wasm::ValType::{I32, I64};

verus! {

/// The host functions of the Ethereum environment interface, each with the signature a
/// module must import it with.
pub open spec fn eei_table() -> Seq<(Seq<char>, Signature)> {
    seq![
        ("useGas"@, (seq![I64], None)),
        ("getGasLeft"@, (seq![], Some(I64))),
        ("getAddress"@, (seq![I32], None)),
        ("getExternalBalance"@, (seq![I32, I32], None)),
        ("getBlockHash"@, (seq![I64, I32], Some(I32))),
        ("call"@, (seq![I64, I32, I32, I32, I32], Some(I32))),
        ("callCode"@, (seq![I64, I32, I32, I32, I32], Some(I32))),
        ("callDelegate"@, (seq![I64, I32, I32, I32], Some(I32))),
        ("callStatic"@, (seq![I64, I32, I32, I32], Some(I32))),
        ("create"@, (seq![I64, I32, I32, I32, I32], Some(I32))),
        ("callDataCopy"@, (seq![I32, I32, I32], None)),
        ("getCallDataSize"@, (seq![], Some(I32))),
        ("getCodeSize"@, (seq![], Some(I32))),
        ("externalCodeCopy"@, (seq![I32, I32, I32, I32], None)),
        ("getExternalCodeSize"@, (seq![I32], Some(I32))),
        ("getCaller"@, (seq![I32], None)),
        ("getCallValue"@, (seq![I32], None)),
        ("getBlockDifficulty"@, (seq![I32], None)),
        ("getBlockCoinbase"@, (seq![I32], None)),
        ("getBlockNumber"@, (seq![], Some(I64))),
        ("getBlockGasLimit"@, (seq![], Some(I64))),
        ("getBlockTimestamp"@, (seq![], Some(I64))),
        ("getTxGasPrice"@, (seq![I32], None)),
        ("getTxOrigin"@, (seq![I32], None)),
        ("storageStore"@, (seq![I32, I32], None)),
        ("storageLoad"@, (seq![I32, I32], None)),
        ("log"@, (seq![I32, I32, I32, I32, I32, I32, I32], None)),
        ("getReturnDataSize"@, (seq![], Some(I32))),
        ("returnDataCopy"@, (seq![I32, I32, I32], None)),
        ("finish"@, (seq![I32, I32], None)),
        ("revert"@, (seq![I32, I32], None)),
        ("selfDestruct"@, (seq![I32], None)),
    ]
}

/// The position of the first entry with the given name.
pub open spec fn table_position(s: Seq<(Seq<char>, Signature)>, name: Seq<char>) -> Option<int> {
    if exists|i: int| 0 <= i < s.len() && s[i].0 == name {
        Some(
            choose|i: int|
                0 <= i < s.len() && s[i].0 == name && forall|j: int| 0 <= j < i ==> s[j].0 != name,
        )
    } else {
        None
    }
}

/// The signature that the table registers for a name, if it registers one.
pub open spec fn table_lookup(s: Seq<(Seq<char>, Signature)>, name: Seq<char>) -> Option<Signature> {
    match table_position(s, name) {
        Some(i) => Some(s[i].1),
        None => None,
    }
}

/// The signature that the environment interface requires of an import with this name.
pub open spec fn eei_signature(name: Seq<char>) -> Option<Signature> {
    table_lookup(eei_table(), name)
}

/// Maps the name of an imported host function to its required signature.
pub struct ImportInterfaceMap {
    import_list: Vec<(String, FuncType)>,
}

impl View for ImportInterfaceMap {
    type V = Seq<(Seq<char>, Signature)>;

    closed spec fn view(&self) -> Seq<(Seq<char>, Signature)> {
        self.import_list@.map_values(|p: (String, FuncType)| (p.0@, p.1@))
    }
}

fn entry(name: &str, params: Vec<ValType>, ret: Option<ValType>) -> (r: (String, FuncType))
    ensures
        r.0@ == name@,
        r.1@ == (params@, ret),
{
    (String::from_str(name), FuncType::new(params, ret))
}

impl ImportInterfaceMap {
    /// An interface with no functions.
    pub fn new() -> (r: ImportInterfaceMap)
        ensures
            r@ == Seq::<(Seq<char>, Signature)>::empty(),
    {
        let r = ImportInterfaceMap { import_list: Vec::new() };
        assert(r@ =~= Seq::<(Seq<char>, Signature)>::empty());
        r
    }

    /// The number of registered functions.
    pub fn len(&self) -> (r: usize)
        ensures
            r == self@.len(),
    {
        self.import_list.len()
    }

    /// The signature registered for a name, if any.
    pub fn get_func(&self, name: &str) -> (r: Option<FuncType>)
        ensures
            opt_sig(r) == table_lookup(self@, name@),
    {
        let key = String::from_str(name);
        let mut i: usize = 0;
        while i < self.import_list.len()
            invariant
                i <= self@.len(),
                self@.len() == self.import_list@.len(),
                key@ == name@,
                forall|j: int| 0 <= j < i ==> self@[j].0 != name@,
            decreases self.import_list@.len() - i,
        {
            if self.import_list[i].0 == key {
                let r = self.import_list[i].1.duplicate();
                proof {
                    let s = self@;
                    assert(s[i as int].0 == name@);
                    let c = table_position(s, name@)->Some_0;
                    if c > i {
                        assert(s[i as int].0 != name@);
                    }
                    assert(c == i);
                }
                return Some(r);
            }
            i = i + 1;
        }
        None
    }
}

impl Default for ImportInterfaceMap {
    /// The interface of the environment, with every registered host function.
    #[verifier::rlimit(50)]
    fn default() -> (r: ImportInterfaceMap)
        ensures
            r@ == eei_table(),
    {
        let mut t: Vec<(String, FuncType)> = Vec::new();
        t.push(entry("useGas", vec![I64], None));
        t.push(entry("getGasLeft", vec![], Some(I64)));
        t.push(entry("getAddress", vec![I32], None));
        t.push(entry("getExternalBalance", vec![I32, I32], None));
        t.push(entry("getBlockHash", vec![I64, I32], Some(I32)));
        t.push(entry("call", vec![I64, I32, I32, I32, I32], Some(I32)));
        t.push(entry("callCode", vec![I64, I32, I32, I32, I32], Some(I32)));
        t.push(entry("callDelegate", vec![I64, I32, I32, I32], Some(I32)));
        t.push(entry("callStatic", vec![I64, I32, I32, I32], Some(I32)));
        t.push(entry("create", vec![I64, I32, I32, I32, I32], Some(I32)));
        t.push(entry("callDataCopy", vec![I32, I32, I32], None));
        t.push(entry("getCallDataSize", vec![], Some(I32)));
        t.push(entry("getCodeSize", vec![], Some(I32)));
        t.push(entry("externalCodeCopy", vec![I32, I32, I32, I32], None));
        t.push(entry("getExternalCodeSize", vec![I32], Some(I32)));
        t.push(entry("getCaller", vec![I32], None));
        t.push(entry("getCallValue", vec![I32], None));
        t.push(entry("getBlockDifficulty", vec![I32], None));
        t.push(entry("getBlockCoinbase", vec![I32], None));
        t.push(entry("getBlockNumber", vec![], Some(I64)));
        t.push(entry("getBlockGasLimit", vec![], Some(I64)));
        t.push(entry("getBlockTimestamp", vec![], Some(I64)));
        t.push(entry("getTxGasPrice", vec![I32], None));
        t.push(entry("getTxOrigin", vec![I32], None));
        t.push(entry("storageStore", vec![I32, I32], None));
        t.push(entry("storageLoad", vec![I32, I32], None));
        t.push(entry("log", vec![I32, I32, I32, I32, I32, I32, I32], None));
        t.push(entry("getReturnDataSize", vec![], Some(I32)));
        t.push(entry("returnDataCopy", vec![I32, I32, I32], None));
        t.push(entry("finish", vec![I32, I32], None));
        t.push(entry("revert", vec![I32, I32], None));
        t.push(entry("selfDestruct", vec![I32], None));
        let r = ImportInterfaceMap { import_list: t };
        proof {
            let e = eei_table();
            assert forall|k: int| 0 <= k < 32 implies #[trigger] r@[k] == e[k] by {}
            assert(r@ =~= e);
        }
        r
    }
}

} // verus!
