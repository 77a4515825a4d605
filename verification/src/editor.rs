//! The editor's side of `AppendNotify`: merging a text from the clipboard into
//! what the editor holds.

use crate::text::{is_blank, is_blank_text};
use vstd::prelude::*;

verus! {

/// The name of the event that carries a clipboard text to the editor.
pub const CLIPBOARD_EVENT: &'static str = "clipboard-add-to-editor";

/// The editor's content after `addition` was merged in: the addition alone
/// where the editor held nothing but white space, else the old content, a
/// blank line, and the addition.
pub open spec fn merged_text(current: Seq<char>, addition: Seq<char>) -> Seq<char> {
    if is_blank(current) {
        addition
    } else {
        current + "\n\n"@ + addition
    }
}

/// Merges a text from the clipboard into the editor's content. The result is
/// what the editor then shows and writes to the document.
pub fn merge_clipboard_text(current: &str, addition: String) -> (merged: String)
    ensures
        merged@ == merged_text(current@, addition@),
{
    if is_blank_text(current) {
        addition
    } else {
        let mut merged = String::from_str(current);
        merged.append("\n\n");
        merged.append(addition.as_str());
        merged
    }
}

} // verus!
