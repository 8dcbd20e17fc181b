//! The pure half of the status endpoint: wrapping a rendered status report
//! in the fixed HTML document served for it. The listener, routing and
//! transport live outside the library.

use vstd::prelude::*;
use vstd::string::StringExecFns;

verus! {

/// The document text before the report.
pub open spec fn html_prefix() -> Seq<char> {
    "\n        <html>\n            <head></head>\n            <body>\n                <pre>\n"@
}

/// The document text after the report.
pub open spec fn html_suffix() -> Seq<char> {
    "\n                </pre>\n            </body>\n        </html>\n        "@
}

/// The whole document for a given report.
pub open spec fn html_page_spec(status: Seq<char>) -> Seq<char> {
    html_prefix() + status + html_suffix()
}

/// Wrap a rendered status report in the HTML document the status endpoint
/// serves: the report inside a fixed-width preformatted block.
pub fn render_html(status: &str) -> (r: String)
    ensures
        r@ == html_page_spec(status@),
{
    let mut out =
        "\n        <html>\n            <head></head>\n            <body>\n                <pre>\n".to_owned();
    out.append(status);
    out.append("\n                </pre>\n            </body>\n        </html>\n        ");
    out
}

} // verus!
