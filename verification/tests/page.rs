use rustball::page::{render_css, view_file_path, CssReply};

#[test]
fn view_paths() {
    assert_eq!(view_file_path("league"), "views/league.html");
    assert_eq!(view_file_path("averages"), "views/averages.html");
}

#[test]
fn css_paths() {
    match render_css(Some("main.css")) {
        CssReply::File { path } => assert_eq!(path, "static/main.css"),
        _ => panic!("expected a file"),
    }
    match render_css(None) {
        CssReply::Text { body } => assert_eq!(body, "No file specified"),
        _ => panic!("expected text"),
    }
}
