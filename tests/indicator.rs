use indent_size_selector::decimal::push_decimal;
use indent_size_selector::indentation::{
    read_indent_size, IndentKind, IndentSize, Indentation, LanguageIndentSettings,
};
use indent_size_selector::settings_override::{editorconfig_override, override_for_file, ProjectPath};

#[test]
fn decimal_notation() {
    for (n, want) in [(0usize, "0"), (7, "7"), (10, "10"), (1234, "1234"), (90210, "90210")] {
        let mut s = String::from("x");
        push_decimal(&mut s, n);
        assert_eq!(s, format!("x{want}"));
    }
}

#[test]
fn editorconfig_text_for_two() {
    assert_eq!(
        editorconfig_override(2),
        "[/**]\nindent_size = 2\nindent_style = space\ntab_width=2"
    );
}

#[test]
fn override_keeps_the_file() {
    let f = ProjectPath { worktree_id: 42, path: "lib/x.rs".to_string() };
    let o = override_for_file(&f, 12);
    assert_eq!(o.worktree_id, 42);
    assert_eq!(o.path, "lib/x.rs");
    assert_eq!(o.config, "[/**]\nindent_size = 12\nindent_style = space\ntab_width=12");
}

#[test]
fn indent_from_language_settings() {
    let tabs = read_indent_size(Some(LanguageIndentSettings { tab_size: 8, hard_tabs: true }));
    assert_eq!(tabs, Some(IndentSize { len: 8, kind: IndentKind::Tab }));
    let spaces = read_indent_size(Some(LanguageIndentSettings { tab_size: 2, hard_tabs: false }));
    assert_eq!(spaces, Some(IndentSize { len: 2, kind: IndentKind::Space }));
    assert_eq!(read_indent_size(None), None);
}

#[test]
fn indicator_text() {
    let mut i = Indentation::new();
    assert_eq!(i.label(), None);
    i.update_indentation(Some(LanguageIndentSettings { tab_size: 4, hard_tabs: true }));
    assert_eq!(i.label().as_deref(), Some("Tab: 4"));
    i.set_active_pane_item(Some(Some(LanguageIndentSettings { tab_size: 2, hard_tabs: false })));
    assert_eq!(i.label().as_deref(), Some("Space: 2"));
    assert_eq!(i.indent_size(), Some(IndentSize { len: 2, kind: IndentKind::Space }));
    i.set_active_pane_item(Some(None));
    assert_eq!(i.label(), None);
    i.update_indentation(Some(LanguageIndentSettings { tab_size: 4, hard_tabs: false }));
    i.set_active_pane_item(None);
    assert_eq!(i.indent_size(), None);
}
