use vstd::prelude::*;

use crate::wasm::{
    export_seq, func_import_types, func_sig, import_seq, import_sig, imported_funcs,
    is_func_import_at, local_seq, opt_sig, type_at, Export, ExportView, ExternalRef, FuncType,
    Import, ImportView, InternalRef, ModuleView, WasmModule,
};

verus! {

/// The position of the first export entry with the given field name.
pub open spec fn export_position(s: Seq<ExportView>, name: Seq<char>) -> Option<int> {
    if exists|i: int| 0 <= i < s.len() && s[i].field == name {
        Some(
            choose|i: int|
                0 <= i < s.len() && s[i].field == name && forall|j: int|
                    0 <= j < i ==> s[j].field != name,
        )
    } else {
        None
    }
}

/// The binding of the first export with the given name, if any.
pub open spec fn resolve_export(m: ModuleView, name: Seq<char>) -> Option<InternalRef> {
    match export_position(export_seq(m), name) {
        Some(i) => Some(export_seq(m)[i].internal),
        None => None,
    }
}

/// Whether an import entry imports a function.
pub open spec fn is_func_import(e: ImportView) -> bool {
    e.external is Function
}

/// The signature with the given type index, if the module has a type section that holds it.
fn type_by_ref(module: &WasmModule, t: u32) -> (r: Option<FuncType>)
    ensures
        opt_sig(r) == type_at(module@, t as int),
{
    match &module.types {
        Some(types) => {
            if (t as usize) < types.len() {
                Some(types[t as usize].duplicate())
            } else {
                None
            }
        },
        None => None,
    }
}

/// The type indices of the module's function imports, in import order.
fn imported_type_refs(module: &WasmModule) -> (r: Vec<u32>)
    ensures
        r@ == imported_funcs(module@),
{
    let mut r: Vec<u32> = Vec::new();
    match &module.imports {
        Some(imports) => {
            let ghost vs = import_seq(module@);
            let mut i: usize = 0;
            while i < imports.len()
                invariant
                    i <= imports@.len(),
                    vs == imports@.map_values(|e: Import| e@),
                    r@ == func_import_types(vs.subrange(0, i as int)),
                decreases imports@.len() - i,
            {
                assert(vs.subrange(0, i as int + 1).drop_last() =~= vs.subrange(0, i as int));
                match imports[i].external {
                    ExternalRef::Function(t) => r.push(t),
                    _ => {},
                }
                i = i + 1;
            }
            assert(vs.subrange(0, vs.len() as int) =~= vs);
        },
        None => {},
    }
    r
}

/// Resolves the signature of the function with the given index in the combined index
/// space, where the imported functions come first and the local ones after them.
pub fn func_type_by_index(module: &WasmModule, index: usize) -> (r: Option<FuncType>)
    ensures
        opt_sig(r) == func_sig(module@, index as int),
{
    let imported = imported_type_refs(module);
    let n = imported.len();
    if index < n {
        type_by_ref(module, imported[index])
    } else {
        match &module.functions {
            Some(functions) => {
                if index - n < functions.len() {
                    type_by_ref(module, functions[index - n])
                } else {
                    None
                }
            },
            None => None,
        }
    }
}

/// Resolves the signature of the function that the import entry at the given position
/// imports; `None` where the type section does not hold its type.
pub fn imported_func_type_by_index(module: &WasmModule, index: usize) -> (r: Option<FuncType>)
    requires
        is_func_import_at(module@, index as int),
    ensures
        opt_sig(r) == import_sig(module@, index as int),
{
    match &module.imports {
        Some(imports) => {
            assert(imports@[index as int]@ == import_seq(module@)[index as int]);
            match imports[index].external {
                ExternalRef::Function(t) => type_by_ref(module, t),
                _ => None,
            }
        },
        None => None,
    }
}

/// Resolves an export name to the index and binding of the first export entry with
/// that name.
pub fn resolve_export_by_name(module: &WasmModule, name: &str) -> (r: Option<(u32, InternalRef)>)
    ensures
        r == match resolve_export(module@, name@) {
            Some(k) => Some((k.spec_index(), k)),
            None => None,
        },
{
    match &module.exports {
        Some(exports) => {
            let key = String::from_str(name);
            let mut i: usize = 0;
            while i < exports.len()
                invariant
                    i <= exports@.len(),
                    key@ == name@,
                    export_seq(module@) == exports@.map_values(|e: Export| e@),
                    forall|j: int| 0 <= j < i ==> exports@[j].field@ != name@,
                decreases exports@.len() - i,
            {
                if exports[i].field == key {
                    let k = exports[i].internal;
                    proof {
                        let s = export_seq(module@);
                        let p = export_position(s, name@);
                        assert(0 <= i < s.len() && s[i as int].field == name@);
                        let c = p->Some_0;
                        assert(0 <= c < s.len() && s[c].field == name@);
                        if c < i {
                            assert(s[c].field != name@);
                        } else if c > i {
                            assert(s[i as int].field != name@);
                        }
                        assert(c == i);
                    }
                    return Some((k.index(), k));
                }
                i = i + 1;
            }
            None
        },
        None => None,
    }
}

/// The (namespace, field) pairs of every import entry, in order, whatever it imports;
/// `None` where the module has no import section.
pub fn get_imports(module: &WasmModule) -> (r: Option<Vec<(String, String)>>)
    ensures
        r is None <==> module.imports is None,
        r matches Some(v) ==> {
            &&& v@.len() == import_seq(module@).len()
            &&& forall|i: int|
                0 <= i < v@.len() ==> v@[i].0@ == import_seq(module@)[i].module && v@[i].1@
                    == import_seq(module@)[i].field
        },
{
    match &module.imports {
        Some(imports) => {
            let mut v: Vec<(String, String)> = Vec::new();
            let mut i: usize = 0;
            while i < imports.len()
                invariant
                    i <= imports@.len(),
                    v@.len() == i,
                    forall|j: int|
                        0 <= j < i ==> v@[j].0@ == imports@[j].module@ && v@[j].1@
                            == imports@[j].field@,
                decreases imports@.len() - i,
            {
                v.push((imports[i].module.clone(), imports[i].field.clone()));
                i = i + 1;
            }
            Some(v)
        },
        None => None,
    }
}

/// Whether the module has an export section.
pub fn has_export_section(module: &WasmModule) -> (r: bool)
    ensures
        r == module.exports is Some,
{
    module.exports.is_some()
}

/// Whether the module has an import section.
pub fn has_import_section(module: &WasmModule) -> (r: bool)
    ensures
        r == module.imports is Some,
{
    module.imports.is_some()
}

/// The number of function imports is the number of import entries of function kind.
pub proof fn lemma_func_import_count(s: Seq<ImportView>)
    ensures
        func_import_types(s).len() == s.filter(|e: ImportView| is_func_import(e)).len(),
    decreases s.len(),
{
    let p = |e: ImportView| is_func_import(e);
    if s.len() > 0 {
        lemma_func_import_count(s.drop_last());
        reveal_with_fuel(Seq::filter, 1);
        assert(s.filter(p) == if p(s.last()) {
            s.drop_last().filter(p).push(s.last())
        } else {
            s.drop_last().filter(p)
        });
    }
}

/// Index-space correctness: with `I` function imports and `L` local functions, indices
/// below `I` resolve through the function imports in order, indices from `I` up to
/// `I + L` through the function section, and any other index resolves to nothing.
pub proof fn lemma_index_space(m: ModuleView, index: int)
    ensures
        imported_funcs(m).len() == import_seq(m).filter(|e: ImportView| is_func_import(e)).len(),
        0 <= index < imported_funcs(m).len() ==> func_sig(m, index) == type_at(
            m,
            imported_funcs(m)[index] as int,
        ),
        imported_funcs(m).len() <= index < imported_funcs(m).len() + local_seq(m).len()
            ==> func_sig(m, index) == type_at(
            m,
            local_seq(m)[index - imported_funcs(m).len()] as int,
        ),
        (index < 0 || index >= imported_funcs(m).len() + local_seq(m).len()) ==> func_sig(
            m,
            index,
        ) is None,
{
    lemma_func_import_count(import_seq(m));
}

} // verus!
