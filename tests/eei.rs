use libeci::{FuncType, ImportInterfaceMap, ValType};

#[test]
fn empty_interface() {
    let iface = ImportInterfaceMap::new();
    assert_eq!(iface.len(), 0);
}

#[test]
fn default_interface_has_methods() {
    let iface = ImportInterfaceMap::default();
    assert_eq!(
        iface.get_func("useGas").unwrap(),
        FuncType::new(vec![ValType::I64], None)
    );
    assert_eq!(
        iface.get_func("create").unwrap(),
        FuncType::new(
            vec![ValType::I64, ValType::I32, ValType::I32, ValType::I32, ValType::I32],
            Some(ValType::I32)
        )
    );
}

#[test]
fn default_interface_size_and_unknown_names() {
    let iface = ImportInterfaceMap::default();
    assert_eq!(iface.len(), 32);
    assert_eq!(iface.get_func("getBalance"), None);
    assert_eq!(iface.get_func(""), None);
    assert_eq!(
        iface.get_func("getGasLeft"),
        Some(FuncType::new(vec![], Some(ValType::I64)))
    );
    assert_eq!(
        iface.get_func("getExternalBalance"),
        Some(FuncType::new(vec![ValType::I32, ValType::I32], None))
    );
    assert_eq!(ImportInterfaceMap::new().get_func("useGas"), None);
}

#[test]
fn signature_equality_is_structural() {
    let a = FuncType::new(vec![ValType::I32, ValType::I64], Some(ValType::I32));
    assert_eq!(a, FuncType::new(vec![ValType::I32, ValType::I64], Some(ValType::I32)));
    assert_ne!(a, FuncType::new(vec![ValType::I64, ValType::I32], Some(ValType::I32)));
    assert_ne!(a, FuncType::new(vec![ValType::I32, ValType::I64], Some(ValType::I64)));
    assert_ne!(a, FuncType::new(vec![ValType::I32, ValType::I64], None));
    assert_ne!(a, FuncType::new(vec![ValType::I32], Some(ValType::I32)));
    assert_eq!(FuncType::default(), FuncType::new(vec![], None));
    assert!(a.duplicate().same_as(&a));
}
