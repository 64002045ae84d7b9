use aviutl2_typst::diagnostics::{
    diagnostic_file_name, hint_notes, labelled_hints, report_order, Hint, ReportRef, ReportList,
};
use aviutl2_typst::file_loader::VirtualRootKind;

#[test]
fn text_object_source_is_named_text() {
    assert_eq!(
        diagnostic_file_name(VirtualRootKind::Project, true, None, "", "<text>", "/<text>"),
        "<text>"
    );
}

#[test]
fn project_file_is_named_by_its_path() {
    assert_eq!(
        diagnostic_file_name(VirtualRootKind::Project, false, Some("/p/lib.typ".to_string()), "", "lib.typ", "/lib.typ"),
        "/p/lib.typ"
    );
    assert_eq!(
        diagnostic_file_name(VirtualRootKind::Project, false, None, "", "lib.typ", "/lib.typ"),
        "lib.typ"
    );
}

#[test]
fn package_file_is_named_by_package() {
    assert_eq!(
        diagnostic_file_name(VirtualRootKind::Package, false, None, "@preview/cetz:0.3.0", "src/lib.typ", "/src/lib.typ"),
        "@preview/cetz:0.3.0/src/lib.typ"
    );
}

#[test]
fn only_detached_hints_become_notes() {
    let hints = vec![
        Hint { message: "a".to_string(), detached: true },
        Hint { message: "b".to_string(), detached: false },
        Hint { message: "c".to_string(), detached: true },
    ];
    assert_eq!(hint_notes(&hints), vec!["hint: a".to_string(), "hint: c".to_string()]);
    assert!(hint_notes(&Vec::new()).is_empty());
}

#[test]
fn warnings_are_written_before_errors() {
    let w = |index| ReportRef { list: ReportList::Warnings, index };
    let e = |index| ReportRef { list: ReportList::Errors, index };
    assert_eq!(report_order(2, 1), vec![w(0), w(1), e(0)]);
    assert_eq!(report_order(0, 2), vec![e(0), e(1)]);
    assert!(report_order(0, 0).is_empty());
}

#[test]
fn only_located_hints_get_labels() {
    assert_eq!(labelled_hints(&vec![true, false, true, true]), vec![0, 2, 3]);
    assert_eq!(labelled_hints(&vec![false, false]), Vec::<usize>::new());
    assert!(labelled_hints(&Vec::new()).is_empty());
}
