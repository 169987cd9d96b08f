//! Which files the HTML pages and the style sheets are served from.

use vstd::prelude::*;

verus! {

/// The file holding the HTML page with the given name.
pub open spec fn view_file(name: Seq<char>) -> Seq<char> {
    "views/"@ + name + ".html"@
}

/// The file holding the HTML page with the given name, under `views/`.
pub fn view_file_path(name: &str) -> (r: String)
    ensures
        r@ == view_file(name@),
{
    let mut r = String::from_str("views/");
    r.append(name);
    r.append(".html");
    r
}

/// The file holding a style sheet, under `static/`.
pub open spec fn css_file(file: Seq<char>) -> Seq<char> {
    "static/"@ + file
}

/// What a request for a style sheet is answered with.
pub enum CssReply {
    /// The content of this file, as CSS.
    File { path: String },
    /// This text, as plain text.
    Text { body: String },
}

/// The answer to a request for a style sheet, given the `:file` segment of
/// its address.
pub fn render_css(file: Option<&str>) -> (r: CssReply)
    ensures
        match file {
            Some(f) => r matches CssReply::File { path } && path@ == css_file(f@),
            None => r matches CssReply::Text { body } && body@ == "No file specified"@,
        },
{
    match file {
        Some(f) => {
            let mut path = String::from_str("static/");
            path.append(f);
            CssReply::File { path }
        },
        None => CssReply::Text { body: String::from_str("No file specified") },
    }
}

} // verus!
