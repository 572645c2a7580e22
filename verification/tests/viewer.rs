use rfc::viewer::{choose_viewer, is_pager, viewer_kind, ViewerKind};

#[test]
fn test_is_pager() {
    assert!(is_pager("less"));
    assert!(is_pager("more"));
    assert!(is_pager("most"));
    assert!(is_pager("/usr/bin/less"));
    assert!(is_pager("lesspipe"));
    assert!(is_pager("mypager"));
    assert!(!is_pager("vim"));
    assert!(!is_pager("pagers"));
    assert!(!is_pager(""));
    assert!(!is_pager("/usr/bin/most"));
    assert_eq!(viewer_kind("less"), ViewerKind::Pager);
    assert_eq!(viewer_kind("emacs"), ViewerKind::Editor);
}

#[test]
fn test_choose_viewer() {
    let editor = || Some("vim".to_string());
    let pager = || Some("less".to_string());
    assert_eq!(choose_viewer(Some("bat"), editor(), pager()), Some("bat".to_string()));
    assert_eq!(choose_viewer(None, editor(), pager()), Some("vim".to_string()));
    assert_eq!(choose_viewer(None, None, pager()), Some("less".to_string()));
    assert_eq!(choose_viewer(None, None, None), None);
}
