use vstd::prelude::*;

use crate::checklist::CheckStatus;
use crate::eei::{eei_signature, eei_table, ImportInterfaceMap};
use crate::wasm::{
    empty_signature, export_seq, func_sig, import_seq, import_sig, ExternalRef,
    FuncType, Import, InternalRef, ModuleView, Signature, WasmModule,
};
use crate::resolve::{
    func_type_by_index, get_imports, has_import_section, imported_func_type_by_index,
    resolve_export, resolve_export_by_name,
};

verus! {

/// The status of an export that must be a function with the given signature.
pub open spec fn func_export_status(m: ModuleView, name: Seq<char>, sig: Signature) -> CheckStatus {
    match resolve_export(m, name) {
        None => CheckStatus::Nonexistent,
        Some(InternalRef::Function(i)) => if func_sig(m, i as int) == Some(sig) {
            CheckStatus::Good
        } else {
            CheckStatus::Malformed
        },
        Some(_) => CheckStatus::Malformed,
    }
}

/// `export-main`: "main" is exported as a function that takes and returns nothing.
pub open spec fn main_export_status(m: ModuleView) -> CheckStatus {
    func_export_status(m, "main"@, empty_signature())
}

/// `export-memory`: "memory" is exported as a memory.
pub open spec fn mem_export_status(m: ModuleView) -> CheckStatus {
    match resolve_export(m, "memory"@) {
        None => CheckStatus::Nonexistent,
        Some(InternalRef::Memory(_)) => CheckStatus::Good,
        Some(_) => CheckStatus::Malformed,
    }
}

/// Whether every import entry comes from the `ethereum` namespace.
pub open spec fn only_eei_namespace(m: ModuleView) -> bool {
    forall|i: int| 0 <= i < import_seq(m).len() ==> import_seq(m)[i].module == "ethereum"@
}

/// `eei-namespace`: every import comes from the `ethereum` namespace.
pub open spec fn namespace_status(m: ModuleView) -> CheckStatus {
    if only_eei_namespace(m) {
        CheckStatus::Good
    } else {
        CheckStatus::Malformed
    }
}

/// `no-startfn`: the module declares no start function.
pub open spec fn startfn_status(m: ModuleView) -> CheckStatus {
    if m.start is Some {
        CheckStatus::Malformed
    } else {
        CheckStatus::Good
    }
}

/// Whether the import entry at the given position is a host function of the interface,
/// imported with exactly the signature the interface registers for it.
pub open spec fn import_matches_eei(m: ModuleView, pos: int) -> bool {
    match (eei_signature(import_seq(m)[pos].field), import_sig(m, pos)) {
        (Some(want), Some(have)) => want == have,
        _ => false,
    }
}

/// `eei-funcsigs`: every import is a registered host function with its signature.
pub open spec fn funcsigs_status(m: ModuleView) -> CheckStatus {
    if forall|i: int| 0 <= i < import_seq(m).len() ==> import_matches_eei(m, i) {
        CheckStatus::Good
    } else {
        CheckStatus::Malformed
    }
}

/// Checks that the module's "main" function has been exported with no arguments or
/// return values.
pub fn chk_main_exported(module: &WasmModule) -> (r: CheckStatus)
    ensures
        r == main_export_status(module@),
{
    has_func_export(module, "main", FuncType::default())
}

/// Checks that the module's memory has been exported as "memory".
pub fn chk_mem_exported(module: &WasmModule) -> (r: CheckStatus)
    ensures
        r == mem_export_status(module@),
{
    match resolve_export_by_name(module, "memory") {
        Some((_, InternalRef::Memory(_))) => CheckStatus::Good,
        Some(_) => CheckStatus::Malformed,
        None => CheckStatus::Nonexistent,
    }
}

/// Checks that the host functions are imported from the `ethereum` namespace; a module
/// without an import section passes.
pub fn chk_eei_namespace(module: &WasmModule) -> (r: CheckStatus)
    ensures
        r == namespace_status(module@),
{
    if has_import_section(module) {
        imports_only_eei_namespace(module)
    } else {
        CheckStatus::Good
    }
}

/// Checks that the module does not declare a start function.
pub fn chk_no_startfn(module: &WasmModule) -> (r: CheckStatus)
    ensures
        r == startfn_status(module@),
{
    match module.start {
        Some(_) => CheckStatus::Malformed,
        None => CheckStatus::Good,
    }
}

/// Checks that the host functions are imported with their registered signatures; a
/// module without an import section passes.
pub fn chk_func_signatures(module: &WasmModule) -> (r: CheckStatus)
    ensures
        r == funcsigs_status(module@),
{
    if has_import_section(module) {
        eei_check_func_sigs(module)
    } else {
        CheckStatus::Good
    }
}

/// The status of the export `name`, which must be a function with signature `sig`:
/// `Nonexistent` where nothing is exported under the name, `Good` where the first such
/// export is a function of that signature, `Malformed` otherwise.
pub fn has_func_export(module: &WasmModule, name: &str, sig: FuncType) -> (r: CheckStatus)
    ensures
        r == func_export_status(module@, name@, sig@),
{
    match resolve_export_by_name(module, name) {
        Some((index, InternalRef::Function(_))) => {
            match func_type_by_index(module, index as usize) {
                Some(t) => {
                    if t.same_as(&sig) {
                        CheckStatus::Good
                    } else {
                        CheckStatus::Malformed
                    }
                },
                None => CheckStatus::Malformed,
            }
        },
        Some(_) => CheckStatus::Malformed,
        None => CheckStatus::Nonexistent,
    }
}

/// `Good` where every import entry comes from the `ethereum` namespace, else `Malformed`;
/// stops at the first entry from another namespace.
pub fn imports_only_eei_namespace(module: &WasmModule) -> (r: CheckStatus)
    requires
        module.imports is Some,
    ensures
        r == namespace_status(module@),
{
    let eth = String::from_str("ethereum");
    match get_imports(module) {
        Some(imports) => {
            let mut i: usize = 0;
            while i < imports.len()
                invariant
                    i <= imports@.len(),
                    eth@ == "ethereum"@,
                    imports@.len() == import_seq(module@).len(),
                    forall|j: int|
                        0 <= j < imports@.len() ==> imports@[j].0@ == import_seq(module@)[j].module,
                    forall|j: int| 0 <= j < i ==> import_seq(module@)[j].module == "ethereum"@,
                decreases imports@.len() - i,
            {
                if imports[i].0 != eth {
                    assert(import_seq(module@)[i as int].module != "ethereum"@);
                    return CheckStatus::Malformed;
                }
                i = i + 1;
            }
            CheckStatus::Good
        },
        None => CheckStatus::Malformed,
    }
}

/// Checks each import entry against the interface: `Malformed` at the first one whose
/// name the interface does not register or whose signature differs from the registered
/// one (a non-function import has none), `Good` where there is no such entry.
pub fn eei_check_func_sigs(module: &WasmModule) -> (r: CheckStatus)
    requires
        module.imports is Some,
    ensures
        r == funcsigs_status(module@),
{
    let eei = ImportInterfaceMap::default();
    match &module.imports {
        Some(imports) => {
            let mut i: usize = 0;
            while i < imports.len()
                invariant
                    i <= imports@.len(),
                    eei@ == eei_table(),
                    import_seq(module@) == imports@.map_values(|e: Import| e@),
                    forall|j: int| 0 <= j < i ==> import_matches_eei(module@, j),
                decreases imports@.len() - i,
            {
                assert(imports@[i as int]@ == import_seq(module@)[i as int]);
                let ok = match imports[i].external {
                    ExternalRef::Function(_) => {
                        let want = eei.get_func(imports[i].field.as_str());
                        let have = imported_func_type_by_index(module, i);
                        match (&want, &have) {
                            (Some(w), Some(h)) => w.same_as(h),
                            _ => false,
                        }
                    },
                    _ => false,
                };
                assert(ok == import_matches_eei(module@, i as int));
                if !ok {
                    return CheckStatus::Malformed;
                }
                i = i + 1;
            }
            CheckStatus::Good
        },
        None => CheckStatus::Malformed,
    }
}

/// A module without an import section passes both import checks, whatever else it holds.
pub proof fn lemma_no_imports_pass(m: ModuleView)
    requires
        m.imports is None,
    ensures
        namespace_status(m) == CheckStatus::Good,
        funcsigs_status(m) == CheckStatus::Good,
{
}

/// An export check yields `Nonexistent` exactly when no export entry has the name it
/// looks for; an absent name never yields `Malformed`.
pub proof fn lemma_absent_export_nonexistent(m: ModuleView, name: Seq<char>, sig: Signature)
    ensures
        (forall|i: int| 0 <= i < export_seq(m).len() ==> export_seq(m)[i].field != name)
            <==> func_export_status(m, name, sig) == CheckStatus::Nonexistent,
        (forall|i: int| 0 <= i < export_seq(m).len() ==> export_seq(m)[i].field != "main"@)
            <==> main_export_status(m) == CheckStatus::Nonexistent,
        (forall|i: int| 0 <= i < export_seq(m).len() ==> export_seq(m)[i].field != "memory"@)
            <==> mem_export_status(m) == CheckStatus::Nonexistent,
{
}

} // verus!
