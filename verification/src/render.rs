//! The render pipeline: Markdown source to markup, and markup to its fingerprint.

use crate::text::{hex_encoding, result_view, to_hex};
use vstd::prelude::*;
use vstd::utf8::encode_utf8;

verus! {

/// What the `markdown` crate makes of a source text under its GitHub-flavoured
/// options: the HTML, or the message of the failure it reports.
pub uninterp spec fn gfm_html(source: Seq<char>) -> Result<Seq<char>, Seq<char>>;

/// The SHA-1 digest of a byte string, as the `sha1` crate computes it.
pub uninterp spec fn sha1_digest(data: Seq<u8>) -> Seq<u8>;

/// The markup that stands for a rendering outcome: the HTML itself, or an inline
/// fragment that shows the failure, so that a markup always exists.
pub open spec fn markup_of(outcome: Result<Seq<char>, Seq<char>>) -> Seq<char> {
    match outcome {
        Ok(html) => html,
        Err(message) => "<p>Markdown processing error: "@ + message + "</p>"@,
    }
}

/// The markup of a source text.
pub open spec fn rendered_markup(source: Seq<char>) -> Seq<char> {
    markup_of(gfm_html(source))
}

/// The fingerprint of a markup: the SHA-1 digest of its UTF-8 bytes in lowercase
/// hexadecimal.
pub open spec fn fingerprint_of(markup: Seq<char>) -> Seq<char> {
    hex_encoding(sha1_digest(encode_utf8(markup)))
}

/// Calls `markdown::to_html_with_options` with `markdown::Options::gfm()`. The
/// contract claims that the outcome depends on the source text alone and gives
/// it the name [`gfm_html`]; a failure is handed on as the text that the crate's
/// message displays.
#[verifier::external_body]
fn render_gfm(source: &str) -> (outcome: Result<String, String>)
    ensures
        result_view(outcome) == gfm_html(source@),
{
    match markdown::to_html_with_options(source, &markdown::Options::gfm()) {
        Ok(html) => Ok(html),
        Err(message) => Err(format!("{}", message)),
    }
}

/// Calls `Sha1::digest` of the `sha1` crate. The contract claims that the digest
/// depends on the bytes alone, names it [`sha1_digest`], and states its length
/// of 20 bytes.
#[verifier::external_body]
fn sha1_bytes(data: &[u8]) -> (digest: Vec<u8>)
    ensures
        digest@ == sha1_digest(data@),
        digest@.len() == 20,
{
    <sha1::Sha1 as sha1::Digest>::digest(data).to_vec()
}

/// Turns a rendering outcome into markup. A failure never propagates: it becomes
/// an inline error fragment.
pub fn markup_from_outcome(outcome: Result<String, String>) -> (markup: String)
    ensures
        markup@ == markup_of(result_view(outcome)),
{
    match outcome {
        Ok(html) => html,
        Err(message) => {
            let mut fragment = String::from_str("<p>Markdown processing error: ");
            fragment.append(message.as_str());
            fragment.append("</p>");
            fragment
        },
    }
}

/// Renders a source text to markup.
pub fn render_markup(source: &str) -> (markup: String)
    ensures
        markup@ == rendered_markup(source@),
{
    markup_from_outcome(render_gfm(source))
}

/// Computes the fingerprint of a markup.
pub fn fingerprint(markup: &str) -> (hash: String)
    ensures
        hash@ == fingerprint_of(markup@),
        hash@.len() == 40,
{
    let digest = sha1_bytes(markup.as_bytes());
    to_hex(digest.as_slice())
}

/// Renders a source text and fingerprints the result. The fingerprint is
/// computed from the markup, not from the source.
pub fn process_markdown(markdown_text: &str) -> (view: (String, String))
    ensures
        view.0@ == rendered_markup(markdown_text@),
        view.1@ == fingerprint_of(view.0@),
        view.1@.len() == 40,
{
    let markup = render_markup(markdown_text);
    let hash = fingerprint(markup.as_str());
    (markup, hash)
}

/// Sources that render to the same markup have the same fingerprint.
pub proof fn lemma_equal_markup_equal_fingerprint(first: Seq<char>, second: Seq<char>)
    requires
        rendered_markup(first) == rendered_markup(second),
    ensures
        fingerprint_of(rendered_markup(first)) == fingerprint_of(rendered_markup(second)),
{
}

/// Two markups share a fingerprint exactly when their UTF-8 bytes share a SHA-1
/// digest: the hexadecimal encoding adds no collision of its own.
pub proof fn lemma_fingerprints_equal_iff_digests_equal(first: Seq<char>, second: Seq<char>)
    ensures
        fingerprint_of(first) == fingerprint_of(second) <==> sha1_digest(encode_utf8(first))
            == sha1_digest(encode_utf8(second)),
{
    if fingerprint_of(first) == fingerprint_of(second) {
        crate::text::lemma_hex_encoding_injective(
            sha1_digest(encode_utf8(first)),
            sha1_digest(encode_utf8(second)),
        );
    }
}

/// Two different markups with one fingerprint are a collision of SHA-1: their
/// UTF-8 bytes differ and have the same digest. Nothing else makes a change
/// of the markup go unseen.
pub proof fn lemma_shared_fingerprint_is_sha1_collision(first: Seq<char>, second: Seq<char>)
    requires
        first != second,
        fingerprint_of(first) == fingerprint_of(second),
    ensures
        encode_utf8(first) != encode_utf8(second),
        sha1_digest(encode_utf8(first)) == sha1_digest(encode_utf8(second)),
{
    lemma_fingerprints_equal_iff_digests_equal(first, second);
    vstd::utf8::encode_utf8_decode_utf8(first);
    vstd::utf8::encode_utf8_decode_utf8(second);
}

} // verus!
