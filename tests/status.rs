use remote_bootstrap::status::{bracketed_list, Status};

fn labels(xs: &[&str]) -> Vec<String> {
    xs.iter().map(|s| s.to_string()).collect()
}

#[test]
fn empty_lists_are_installed() {
    let st = Status::new(vec![], vec![]);
    assert!(matches!(&st, Status::Installed { success } if success.is_empty()));
    assert!(st.is_installed());
    assert_eq!(st.render(), "Installed");
}

#[test]
fn successes_only_are_installed() {
    let st = Status::new(labels(&["x"]), vec![]);
    assert!(matches!(&st, Status::Installed { success } if *success == labels(&["x"])));
    assert_eq!(st.render(), "Installed { success: [\"x\"] }");
}

#[test]
fn any_failure_is_not_installed() {
    let st = Status::new(labels(&["x"]), labels(&["y"]));
    assert!(matches!(
        &st,
        Status::NotInstalled { success, fail }
            if *success == labels(&["x"]) && *fail == labels(&["y"])
    ));
    assert!(!st.is_installed());
    assert_eq!(st.render(), "NotInstalled { success: [\"x\"], fail: [\"y\"] }");
}

#[test]
fn failures_only_hide_empty_successes() {
    let st = Status::new(vec![], labels(&["a", "b"]));
    assert_eq!(st.render(), "NotInstalled { fail: [\"a\", \"b\"] }");
}

#[test]
fn render_matches_debug_form() {
    let st = Status::new(labels(&["p", "q"]), labels(&["r"]));
    assert_eq!(
        st.render(),
        format!("NotInstalled {{ success: {:?}, fail: {:?} }}", labels(&["p", "q"]), labels(&["r"]))
    );
}

#[test]
fn render_escapes_labels() {
    let st = Status::new(labels(&["a\"b"]), vec![]);
    assert_eq!(st.render(), "Installed { success: [\"a\\\"b\"] }");
}

#[test]
fn empty_not_installed_renders_name() {
    let st = Status::NotInstalled { success: vec![], fail: vec![] };
    assert_eq!(st.render(), "NotInstalled");
}

#[test]
fn bracketed_list_joins_items() {
    assert_eq!(bracketed_list(&labels(&["1", "2", "3"])), "[1, 2, 3]");
    assert_eq!(bracketed_list(&vec![]), "[]");
}
