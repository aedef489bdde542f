//! The HTML shell every page is wrapped in.

use vstd::prelude::*;

use crate::text::{html_escape, html_escaped};

verus! {

/// The page around a title and a body: the title escaped into the head, the
/// already-rendered body placed as it is.
pub open spec fn layout_rep(title: Seq<char>, content: Seq<char>) -> Seq<char> {
    "<html lang=\"en\"><head><meta http-equiv=\"content-type\" content=\"text/html; charset=utf-8\"><title>"@
        + html_escaped(title) + "</title></head><body>"@ + content + "</body></html>"@
}

/// Wraps rendered content in the page shell under the given title.
pub fn layout(title: &str, content: &str) -> (r: String)
    ensures
        r@ == layout_rep(title@, content@),
{
    let mut s =
        "<html lang=\"en\"><head><meta http-equiv=\"content-type\" content=\"text/html; charset=utf-8\"><title>".to_owned();
    let escaped_title = html_escape(title);
    s.append(escaped_title.as_str());
    s.append("</title></head><body>");
    s.append(content);
    s.append("</body></html>");
    s
}

} // verus!
