use libeci::{CheckKind, CheckStatus, EciChecklist, UnknownCheckId};

#[test]
fn empty_checklist() {
    let checks = EciChecklist::new();
    assert!(checks.is_empty());
}

#[test]
fn default_checks() {
    let checks = EciChecklist::default();
    assert!(checks.has_check("export-main"));
    assert!(checks.has_check("export-memory"));
    assert!(checks.has_check("eei-namespace"));
}

#[test]
fn insert_arbitrary_check() {
    let mut checks = EciChecklist::new();
    checks.add_check("random-arbitrary-check", CheckKind::MainExported);
    assert!(checks.has_check("random-arbitrary-check"));
}

#[test]
fn verify_check() {
    let mut checks = EciChecklist::new();
    checks.add_check("foobar", CheckKind::MainExported);
    assert_eq!(checks.set_check_status("foobar", CheckStatus::Good), Ok(()));
    assert!(checks.check_is_good("foobar"));
}

#[test]
fn test_check_eq() {
    let mut checks = EciChecklist::new();
    checks.add_check("foobar", CheckKind::MainExported);
    assert_eq!(checks.set_check_status("foobar", CheckStatus::Nonexistent), Ok(()));
    assert_eq!(checks.get_check_status("foobar"), Ok(CheckStatus::Nonexistent));
    assert_eq!(checks.set_check_status("foobar", CheckStatus::Malformed), Ok(()));
    assert_eq!(checks.get_check_status("foobar"), Ok(CheckStatus::Malformed));
    assert_eq!(checks.set_check_status("foobar", CheckStatus::Good), Ok(()));
    assert_eq!(checks.get_check_status("foobar"), Ok(CheckStatus::Good));
}

#[test]
fn default_checklist_has_five_unknown_checks() {
    let checks = EciChecklist::default();
    assert_eq!(checks.len(), 5);
    for id in ["export-main", "export-memory", "eei-namespace", "no-startfn", "eei-funcsigs"] {
        assert_eq!(checks.get_check_status(id), Ok(CheckStatus::Unknown));
    }
    assert_eq!(checks.get_checker("no-startfn"), Ok(CheckKind::NoStartfn));
    assert_eq!(checks.get_checker("eei-funcsigs"), Ok(CheckKind::FuncSignatures));
}

#[test]
fn unknown_id_is_an_error() {
    let mut checks = EciChecklist::default();
    assert_eq!(checks.get_check_status("missing"), Err(UnknownCheckId));
    assert_eq!(checks.set_check_status("missing", CheckStatus::Good), Err(UnknownCheckId));
    assert_eq!(checks.get_checker("missing"), Err(UnknownCheckId));
    assert!(!checks.check_is_good("missing"));
    assert!(!checks.has_check("missing"));
    assert_eq!(checks.len(), 5);
}

#[test]
fn re_registering_replaces_and_resets_status() {
    let mut checks = EciChecklist::new();
    checks.add_check("foobar", CheckKind::MainExported);
    assert_eq!(checks.set_check_status("foobar", CheckStatus::Good), Ok(()));
    checks.add_check("foobar", CheckKind::NoStartfn);
    assert_eq!(checks.len(), 1);
    assert_eq!(checks.get_check_status("foobar"), Ok(CheckStatus::Unknown));
    assert_eq!(checks.get_checker("foobar"), Ok(CheckKind::NoStartfn));
    assert!(!checks.check_is_good("foobar"));
}

#[test]
fn dump_lists_every_check_with_its_status() {
    let mut checks = EciChecklist::new();
    checks.add_check("a", CheckKind::MainExported);
    checks.add_check("b", CheckKind::MemExported);
    assert_eq!(checks.set_check_status("b", CheckStatus::Malformed), Ok(()));
    let dump = checks.dump_checks();
    assert_eq!(
        dump,
        vec![
            ("a".to_string(), CheckStatus::Unknown),
            ("b".to_string(), CheckStatus::Malformed),
        ]
    );
}

#[test]
fn status_names() {
    assert_eq!(CheckStatus::Unknown.name(), "Unknown");
    assert_eq!(CheckStatus::Nonexistent.name(), "Nonexistent");
    assert_eq!(CheckStatus::Malformed.name(), "Malformed");
    assert_eq!(CheckStatus::Good.name(), "Good");
}
