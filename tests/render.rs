use sohablog::render::{get_static, RenderResult};

#[test]
fn static_from_theme_first() {
    assert_eq!(get_static(Some("theme.css"), Some("builtin.css")), Some("theme.css"));
}

#[test]
fn static_falls_back_to_builtin() {
    assert_eq!(get_static(None, Some("builtin.css")), Some("builtin.css"));
}

#[test]
fn static_missing_everywhere() {
    assert_eq!(get_static::<&str>(None, None), None);
}

#[test]
fn render_result_holds_bytes() {
    let r = RenderResult(b"<p>hi</p>".to_vec());
    assert_eq!(r.0.len(), 9);
}
