//! Page captures. A capture is, for now, a marker file that names the page.
use vstd::prelude::*;

verus! {

/// The text of the marker file written for a capture of `url` at `path`.
pub open spec fn placeholder_spec(url: Seq<char>, path: Seq<char>) -> Seq<char> {
    "Screenshot placeholder for "@ + url
        + "\nIn production, use puppeteer/playwright for actual screenshots.\nPath: "@ + path
}

/// The text of the marker file written for a capture of `url` at `output_path`.
pub fn placeholder_text(url: &str, output_path: &str) -> (text: String)
    ensures
        text@ == placeholder_spec(url@, output_path@),
{
    let mut text = "Screenshot placeholder for ".to_owned();
    text.append(url);
    text.append("\nIn production, use puppeteer/playwright for actual screenshots.\nPath: ");
    text.append(output_path);
    text
}

} // verus!
