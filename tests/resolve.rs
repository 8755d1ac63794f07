use libeci::eci_std::{
    chk_eei_namespace, chk_func_signatures, chk_main_exported, chk_mem_exported, chk_no_startfn,
    eei_check_func_sigs, has_func_export, imports_only_eei_namespace,
};
use libeci::resolve::{
    func_type_by_index, get_imports, has_export_section, has_import_section,
    imported_func_type_by_index, resolve_export_by_name,
};
use libeci::{
    CheckStatus, Export, ExternalRef, FuncType, Import, InternalRef, ValType,
    WasmModule,
};

fn sig(params: Vec<ValType>, ret: Option<ValType>) -> FuncType {
    FuncType::new(params, ret)
}

fn import(module: &str, field: &str, external: ExternalRef) -> Import {
    Import { module: module.to_string(), field: field.to_string(), external }
}

fn export(field: &str, internal: InternalRef) -> Export {
    Export { field: field.to_string(), internal }
}

fn bare() -> WasmModule {
    WasmModule { types: None, functions: None, imports: None, exports: None, start: None }
}

/// Four distinct types; imports of functions with types 0 and 1 around a memory import;
/// local functions with types 2 and 3.
fn split_space() -> WasmModule {
    WasmModule {
        types: Some(vec![
            sig(vec![ValType::I32], None),
            sig(vec![ValType::I64], None),
            sig(vec![], Some(ValType::I32)),
            sig(vec![], None),
        ]),
        functions: Some(vec![2, 3]),
        imports: Some(vec![
            import("ethereum", "getAddress", ExternalRef::Function(0)),
            import("ethereum", "mem", ExternalRef::Memory),
            import("ethereum", "useGas", ExternalRef::Function(1)),
        ]),
        exports: Some(vec![export("main", InternalRef::Function(3))]),
        start: None,
    }
}

#[test]
fn index_space_imports_then_locals() {
    let m = split_space();
    assert_eq!(func_type_by_index(&m, 0), Some(sig(vec![ValType::I32], None)));
    assert_eq!(func_type_by_index(&m, 1), Some(sig(vec![ValType::I64], None)));
    assert_eq!(func_type_by_index(&m, 2), Some(sig(vec![], Some(ValType::I32))));
    assert_eq!(func_type_by_index(&m, 3), Some(sig(vec![], None)));
    assert_eq!(func_type_by_index(&m, 4), None);
}

#[test]
fn index_space_without_imports_or_types() {
    let mut m = split_space();
    m.imports = None;
    assert_eq!(func_type_by_index(&m, 0), Some(sig(vec![], Some(ValType::I32))));
    assert_eq!(func_type_by_index(&m, 1), Some(sig(vec![], None)));
    assert_eq!(func_type_by_index(&m, 2), None);
    m.types = None;
    assert_eq!(func_type_by_index(&m, 0), None);
    let mut dangling = split_space();
    dangling.functions = Some(vec![9]);
    assert_eq!(func_type_by_index(&dangling, 2), None);
}

#[test]
fn imported_signature_by_import_position() {
    let m = split_space();
    assert_eq!(imported_func_type_by_index(&m, 0), Some(sig(vec![ValType::I32], None)));
    assert_eq!(imported_func_type_by_index(&m, 2), Some(sig(vec![ValType::I64], None)));
    let mut dangling = split_space();
    dangling.imports = Some(vec![import("ethereum", "useGas", ExternalRef::Function(9))]);
    assert_eq!(imported_func_type_by_index(&dangling, 0), None);
}

#[test]
fn export_resolution_first_match_wins() {
    let mut m = bare();
    assert_eq!(resolve_export_by_name(&m, "main"), None);
    assert!(!has_export_section(&m));
    m.exports = Some(vec![
        export("memory", InternalRef::Memory(0)),
        export("main", InternalRef::Global(2)),
        export("main", InternalRef::Function(5)),
    ]);
    assert!(has_export_section(&m));
    assert_eq!(resolve_export_by_name(&m, "main"), Some((2, InternalRef::Global(2))));
    assert_eq!(resolve_export_by_name(&m, "memory"), Some((0, InternalRef::Memory(0))));
    assert_eq!(resolve_export_by_name(&m, "absent"), None);
}

#[test]
fn import_listing_in_order() {
    let m = split_space();
    assert!(has_import_section(&m));
    assert_eq!(
        get_imports(&m),
        Some(vec![
            ("ethereum".to_string(), "getAddress".to_string()),
            ("ethereum".to_string(), "mem".to_string()),
            ("ethereum".to_string(), "useGas".to_string()),
        ])
    );
    assert!(!has_import_section(&bare()));
    assert_eq!(get_imports(&bare()), None);
}

#[test]
fn func_export_statuses() {
    let m = split_space();
    assert_eq!(has_func_export(&m, "main", FuncType::default()), CheckStatus::Good);
    assert_eq!(
        has_func_export(&m, "main", sig(vec![ValType::I32], None)),
        CheckStatus::Malformed
    );
    assert_eq!(has_func_export(&m, "other", FuncType::default()), CheckStatus::Nonexistent);
    assert_eq!(chk_main_exported(&m), CheckStatus::Good);
    let mut unresolved = split_space();
    unresolved.exports = Some(vec![export("main", InternalRef::Function(7))]);
    assert_eq!(chk_main_exported(&unresolved), CheckStatus::Malformed);
}

#[test]
fn absent_export_names_are_nonexistent() {
    let m = split_space();
    assert_eq!(chk_mem_exported(&m), CheckStatus::Nonexistent);
    assert_eq!(chk_main_exported(&bare()), CheckStatus::Nonexistent);
    assert_eq!(chk_mem_exported(&bare()), CheckStatus::Nonexistent);
    let mut mem = bare();
    mem.exports = Some(vec![export("memory", InternalRef::Table(0))]);
    assert_eq!(chk_mem_exported(&mem), CheckStatus::Malformed);
    mem.exports = Some(vec![export("memory", InternalRef::Memory(0))]);
    assert_eq!(chk_mem_exported(&mem), CheckStatus::Good);
}

#[test]
fn start_section_any_index_is_malformed() {
    let mut m = bare();
    assert_eq!(chk_no_startfn(&m), CheckStatus::Good);
    m.start = Some(0);
    assert_eq!(chk_no_startfn(&m), CheckStatus::Malformed);
    m.start = Some(u32::MAX);
    assert_eq!(chk_no_startfn(&m), CheckStatus::Malformed);
}

#[test]
fn no_import_section_passes_import_checks() {
    let mut m = split_space();
    m.imports = None;
    assert_eq!(chk_eei_namespace(&m), CheckStatus::Good);
    assert_eq!(chk_func_signatures(&m), CheckStatus::Good);
}

#[test]
fn import_section_checks_with_section_present() {
    let mut m = split_space();
    assert_eq!(imports_only_eei_namespace(&m), CheckStatus::Good);
    assert_eq!(eei_check_func_sigs(&m), CheckStatus::Malformed);
    m.imports = Some(vec![import("ethereum", "useGas", ExternalRef::Function(1))]);
    assert_eq!(eei_check_func_sigs(&m), CheckStatus::Good);
    m.imports = Some(vec![import("env", "useGas", ExternalRef::Function(1))]);
    assert_eq!(imports_only_eei_namespace(&m), CheckStatus::Malformed);
    m.imports = Some(vec![]);
    assert_eq!(imports_only_eei_namespace(&m), CheckStatus::Good);
    assert_eq!(eei_check_func_sigs(&m), CheckStatus::Good);
}

#[test]
fn namespace_check_stops_at_foreign_namespace() {
    let mut m = split_space();
    assert_eq!(chk_eei_namespace(&m), CheckStatus::Good);
    m.imports = Some(vec![
        import("ethereum", "useGas", ExternalRef::Function(1)),
        import("env", "useGas", ExternalRef::Function(1)),
    ]);
    assert_eq!(chk_eei_namespace(&m), CheckStatus::Malformed);
    m.imports = Some(vec![]);
    assert_eq!(chk_eei_namespace(&m), CheckStatus::Good);
}

#[test]
fn funcsigs_check_against_interface() {
    let mut m = split_space();
    m.imports = Some(vec![
        import("ethereum", "getAddress", ExternalRef::Function(0)),
        import("ethereum", "useGas", ExternalRef::Function(1)),
    ]);
    assert_eq!(chk_func_signatures(&m), CheckStatus::Good);
    // registered name, wrong signature
    m.imports = Some(vec![import("ethereum", "useGas", ExternalRef::Function(0))]);
    assert_eq!(chk_func_signatures(&m), CheckStatus::Malformed);
    // name outside the interface
    m.imports = Some(vec![import("ethereum", "getBalance", ExternalRef::Function(0))]);
    assert_eq!(chk_func_signatures(&m), CheckStatus::Malformed);
    // a non-function import has no signature
    m.imports = Some(vec![import("ethereum", "useGas", ExternalRef::Memory)]);
    assert_eq!(chk_func_signatures(&m), CheckStatus::Malformed);
    // the signature check does not look at the namespace
    m.imports = Some(vec![import("env", "useGas", ExternalRef::Function(1))]);
    assert_eq!(chk_func_signatures(&m), CheckStatus::Good);
    assert_eq!(chk_eei_namespace(&m), CheckStatus::Malformed);
}
