use cubescript2::label::get_default_label;
use cubescript2::utils::get_abs_path;

#[test]
fn label_with_name_and_postfixes() {
    let name = Some("Cube");
    let postfixs = vec![" Pipeline", " Layout"];
    let label = get_default_label(&name, &postfixs);
    assert_eq!(label, Some("Cube Pipeline Layout".to_string()));
}

#[test]
fn label_without_name_uses_stand_in() {
    let postfixs = vec![" Buffer"];
    let label = get_default_label(&None, &postfixs);
    assert_eq!(label, Some("Unnamed Buffer".to_string()));
}

#[test]
fn label_without_postfixes_is_bare_name() {
    let name = Some("Camera");
    let label = get_default_label(&name, &Vec::new());
    assert_eq!(label, Some("Camera".to_string()));
}

#[test]
fn abs_path_resolves_current_directory() {
    let p = get_abs_path(".");
    assert!(p.is_some());
    assert!(!p.unwrap().is_empty());
}

#[test]
fn abs_path_rejects_missing_entry() {
    let p = get_abs_path("this/entry/should/not/exist/anywhere");
    assert!(p.is_none());
}
