//! The distribution server's replies: bootstrap, poll and update.
//!
//! Every reply is computed afresh from what the content store holds when the
//! request arrives; nothing is cached between requests.

use crate::page::{page_of, render_page};
use crate::render::{fingerprint_of, process_markdown, rendered_markup};
use crate::state::{read_view, AppState, StoreUnavailable};
use crate::text::{
    decimal_digits, hex_digit, is_lower_hex, lemma_hex_encoding_shape, push_decimal,
};
use vstd::prelude::*;

verus! {

/// The port on which the server listens.
pub const SERVER_PORT: u16 = 5001;

/// The status of a reply that succeeded.
pub const STATUS_OK: u16 = 200;

/// The status of a reply to a request that failed inside the server.
pub const STATUS_INTERNAL_SERVER_ERROR: u16 = 500;

/// What a poll returns: the current markup and its fingerprint.
#[derive(Clone, Debug, PartialEq, Eq)]
pub struct ContentResponse {
    pub html: String,
    pub hash: String,
}

/// What an update carries: the text that replaces the document.
#[derive(Clone, Debug, PartialEq, Eq)]
pub struct SetTextPayload {
    pub new_text: String,
}

/// The body of a reply.
#[derive(Clone, Debug, PartialEq, Eq)]
pub enum ReplyBody {
    /// A page, sent as `text/html`.
    Html(String),
    /// A markup with its fingerprint, sent as a JSON object.
    Content(ContentResponse),
    /// A sentence, sent as a JSON string.
    Message(String),
}

/// A reply: status, headers in order, body.
#[derive(Clone, Debug, PartialEq, Eq)]
pub struct Reply {
    pub status: u16,
    pub headers: Vec<(String, String)>,
    pub body: ReplyBody,
}

/// A reply's body with texts as sequences of characters.
pub enum BodyView {
    Html(Seq<char>),
    Content { html: Seq<char>, hash: Seq<char> },
    Message(Seq<char>),
}

/// A reply with texts as sequences of characters.
pub struct ReplyView {
    pub status: int,
    pub headers: Seq<(Seq<char>, Seq<char>)>,
    pub body: BodyView,
}

/// The name and value of each header as sequences of characters.
pub open spec fn headers_view(headers: Seq<(String, String)>) -> Seq<(Seq<char>, Seq<char>)> {
    Seq::new(headers.len(), |i: int| (headers[i].0@, headers[i].1@))
}

impl View for ReplyBody {
    type V = BodyView;

    open spec fn view(&self) -> BodyView {
        match self {
            ReplyBody::Html(page) => BodyView::Html(page@),
            ReplyBody::Content(content) => BodyView::Content {
                html: content.html@,
                hash: content.hash@,
            },
            ReplyBody::Message(text) => BodyView::Message(text@),
        }
    }
}

impl View for Reply {
    type V = ReplyView;

    open spec fn view(&self) -> ReplyView {
        ReplyView {
            status: self.status as int,
            headers: headers_view(self.headers@),
            body: self.body@,
        }
    }
}

/// The headers that forbid every cache between the server and the reader.
pub open spec fn no_cache_header_list() -> Seq<(Seq<char>, Seq<char>)> {
    seq![
        ("Cache-Control"@, "no-cache, no-store, must-revalidate"@),
        ("Pragma"@, "no-cache"@),
        ("Expires"@, "0"@),
    ]
}

/// The fingerprint of an error payload made at `now_nanos` nanoseconds after
/// the epoch.
pub open spec fn error_fingerprint_text(now_nanos: nat) -> Seq<char> {
    "error-"@ + decimal_digits(now_nanos)
}

/// What a JSON string of the markup becomes in the page: itself, or an empty
/// script string where there is none.
pub open spec fn content_literal_of(json: Option<Seq<char>>) -> Seq<char> {
    match json {
        Some(literal) => literal,
        None => "''"@,
    }
}

/// What stands for one character inside a JSON string: a backslash and a
/// letter for the quote, the backslash and the five control characters that
/// have a short form, `\u00` and two hexadecimal digits for the other
/// characters below the space, and the character itself for all others.
pub open spec fn json_char(c: char) -> Seq<char> {
    let n = c as u32;
    if c == '"' {
        seq!['\\', '"']
    } else if c == '\\' {
        seq!['\\', '\\']
    } else if n == 0x08 {
        seq!['\\', 'b']
    } else if n == 0x09 {
        seq!['\\', 't']
    } else if n == 0x0a {
        seq!['\\', 'n']
    } else if n == 0x0c {
        seq!['\\', 'f']
    } else if n == 0x0d {
        seq!['\\', 'r']
    } else if n < 0x20 {
        seq!['\\', 'u', '0', '0', hex_digit(n as int / 16), hex_digit(n as int % 16)]
    } else {
        seq![c]
    }
}

/// A text as it stands inside a JSON string: character by character.
pub open spec fn json_escaped(text: Seq<char>) -> Seq<char>
    decreases text.len(),
{
    if text.len() == 0 {
        Seq::empty()
    } else {
        json_escaped(text.drop_last()) + json_char(text.last())
    }
}

/// The JSON string of a text: the escaped text between two quotes.
pub open spec fn json_string(text: Seq<char>) -> Seq<char> {
    seq!['"'] + json_escaped(text) + seq!['"']
}

/// The markup that a reader shows when it could not be given the document.
pub open spec fn bootstrap_error_markup() -> Seq<char> {
    "<h1>Ошибка на сервере</h1><p>Не удалось загрузить содержимое. Пожалуйста, перезапустите приложение.</p>"@
}

/// The bootstrap page around a markup and a fingerprint.
pub open spec fn page_around(markup: Seq<char>, hash: Seq<char>) -> Seq<char> {
    page_of(hash, json_string(markup))
}

/// The bootstrap page for a document.
pub open spec fn page_for(document: Seq<char>) -> Seq<char> {
    let markup = rendered_markup(document);
    page_around(markup, fingerprint_of(markup))
}

/// The bootstrap page that is served when the document could not be read at
/// `now_nanos` nanoseconds after the epoch: it shows the error and starts
/// from an error fingerprint, so that its first poll sees a change.
pub open spec fn error_page_at(now_nanos: nat) -> Seq<char> {
    page_around(bootstrap_error_markup(), error_fingerprint_text(now_nanos))
}

/// The reply to a bootstrap request, given what reading the store gave and
/// the time.
pub open spec fn page_reply_of(
    read: Result<Seq<char>, StoreUnavailable>,
    now_nanos: nat,
) -> ReplyView {
    match read {
        Ok(document) => ReplyView {
            status: 200,
            headers: no_cache_header_list(),
            body: BodyView::Html(page_for(document)),
        },
        Err(_) => ReplyView {
            status: 500,
            headers: no_cache_header_list(),
            body: BodyView::Html(error_page_at(now_nanos)),
        },
    }
}

/// The reply to a poll, given what reading the store gave and the time.
pub open spec fn content_reply_of(
    read: Result<Seq<char>, StoreUnavailable>,
    now_nanos: nat,
) -> ReplyView {
    match read {
        Ok(document) => ReplyView {
            status: 200,
            headers: no_cache_header_list(),
            body: BodyView::Content {
                html: rendered_markup(document),
                hash: fingerprint_of(rendered_markup(document)),
            },
        },
        Err(_) => ReplyView {
            status: 500,
            headers: no_cache_header_list(),
            body: BodyView::Content {
                html: "<h2>Ошибка на сервере</h2><p>Не удалось получить доступ к данным. Попробуйте перезапустить приложение.</p>"@,
                hash: error_fingerprint_text(now_nanos),
            },
        },
    }
}

/// The reply to an update, given what writing the store gave.
pub open spec fn update_reply_of(written: Result<(), StoreUnavailable>) -> ReplyView {
    match written {
        Ok(_) => ReplyView {
            status: 200,
            headers: Seq::empty(),
            body: BodyView::Message("Content updated successfully."@),
        },
        Err(_) => ReplyView {
            status: 500,
            headers: Seq::empty(),
            body: BodyView::Message("Failed to update content due to a server error."@),
        },
    }
}

/// Calls `serde_json::to_string` on a text. The contract claims that the
/// call succeeds on every text and that what it writes is the text between
/// two quotes with each character as [`json_char`] gives it.
#[verifier::external_body]
fn to_json_string(text: &str) -> (json: Option<String>)
    ensures
        json is Some,
        json matches Some(literal) ==> literal@ == json_string(text@),
{
    match serde_json::to_string(text) {
        Ok(literal) => Some(literal),
        Err(_) => None,
    }
}

/// The headers that forbid every cache between the server and the reader.
pub fn no_cache_headers() -> (headers: Vec<(String, String)>)
    ensures
        headers_view(headers@) == no_cache_header_list(),
{
    let mut headers: Vec<(String, String)> = Vec::new();
    headers.push(
        (
            String::from_str("Cache-Control"),
            String::from_str("no-cache, no-store, must-revalidate"),
        ),
    );
    headers.push((String::from_str("Pragma"), String::from_str("no-cache")));
    headers.push((String::from_str("Expires"), String::from_str("0")));
    assert(headers_view(headers@) =~= no_cache_header_list());
    headers
}

/// The fingerprint of an error payload: a reserved prefix and the time in
/// nanoseconds. No document has such a fingerprint, so a reader that receives
/// one always sees a change and asks again.
pub fn error_fingerprint(now_nanos: u128) -> (hash: String)
    ensures
        hash@ == error_fingerprint_text(now_nanos as nat),
{
    let mut hash = String::from_str("error-");
    push_decimal(&mut hash, now_nanos);
    hash
}

/// What stands for the markup in the page's script.
pub fn content_literal(json: Option<String>) -> (literal: String)
    ensures
        literal@ == content_literal_of(
            match json {
                Some(text) => Some(text@),
                None => None,
            },
        ),
{
    match json {
        Some(text) => text,
        None => String::from_str("''"),
    }
}

/// The bootstrap page around a markup and a fingerprint: both are embedded,
/// so the reader can show and paginate before it polls.
pub fn embed_page(markup: &str, hash: &str) -> (page: String)
    ensures
        page@ == page_around(markup@, hash@),
{
    let literal = content_literal(to_json_string(markup));
    render_page(hash, literal.as_str())
}

/// The bootstrap page for a document.
pub fn bootstrap_page(document: &str) -> (page: String)
    ensures
        page@ == page_for(document@),
{
    let (markup, hash) = process_markdown(document);
    embed_page(markup.as_str(), hash.as_str())
}

/// The bootstrap page that is served when the document could not be read.
/// It starts from an error fingerprint, which no document has, so the reader
/// takes the first poll that succeeds for a change.
pub fn error_page(now_nanos: u128) -> (page: String)
    ensures
        page@ == error_page_at(now_nanos as nat),
{
    let hash = error_fingerprint(now_nanos);
    embed_page(
        "<h1>Ошибка на сервере</h1><p>Не удалось загрузить содержимое. Пожалуйста, перезапустите приложение.</p>",
        hash.as_str(),
    )
}

/// The reply to a bootstrap request, given what reading the store gave and
/// the time in nanoseconds since the epoch. The time enters the reply only
/// where the read failed.
pub fn page_reply(read: Result<String, StoreUnavailable>, now_nanos: u128) -> (reply: Reply)
    ensures
        reply@ == page_reply_of(read_view(read), now_nanos as nat),
{
    match read {
        Ok(document) => Reply {
            status: STATUS_OK,
            headers: no_cache_headers(),
            body: ReplyBody::Html(bootstrap_page(document.as_str())),
        },
        Err(_) => Reply {
            status: STATUS_INTERNAL_SERVER_ERROR,
            headers: no_cache_headers(),
            body: ReplyBody::Html(error_page(now_nanos)),
        },
    }
}

/// The reply to a poll, given what reading the store gave and the time in
/// nanoseconds since the epoch. The time enters the reply only where the read
/// failed.
pub fn content_reply(read: Result<String, StoreUnavailable>, now_nanos: u128) -> (reply: Reply)
    ensures
        reply@ == content_reply_of(read_view(read), now_nanos as nat),
{
    match read {
        Ok(document) => {
            let (html, hash) = process_markdown(document.as_str());
            Reply {
                status: STATUS_OK,
                headers: no_cache_headers(),
                body: ReplyBody::Content(ContentResponse { html, hash }),
            }
        },
        Err(_) => Reply {
            status: STATUS_INTERNAL_SERVER_ERROR,
            headers: no_cache_headers(),
            body: ReplyBody::Content(
                ContentResponse {
                    html: String::from_str(
                        "<h2>Ошибка на сервере</h2><p>Не удалось получить доступ к данным. Попробуйте перезапустить приложение.</p>",
                    ),
                    hash: error_fingerprint(now_nanos),
                },
            ),
        },
    }
}

/// The reply to an update, given what writing the store gave.
pub fn update_reply(written: Result<(), StoreUnavailable>) -> (reply: Reply)
    ensures
        reply@ == update_reply_of(written),
{
    match written {
        Ok(_) => {
            let reply = Reply {
                status: STATUS_OK,
                headers: Vec::new(),
                body: ReplyBody::Message(String::from_str("Content updated successfully.")),
            };
            assert(headers_view(reply.headers@) =~= Seq::empty());
            reply
        },
        Err(_) => {
            let reply = Reply {
                status: STATUS_INTERNAL_SERVER_ERROR,
                headers: Vec::new(),
                body: ReplyBody::Message(
                    String::from_str("Failed to update content due to a server error."),
                ),
            };
            assert(headers_view(reply.headers@) =~= Seq::empty());
            reply
        },
    }
}

/// Serves the bootstrap page from a text that the store holds. `now_nanos`
/// is the time in nanoseconds since the epoch.
pub fn get_page_handler(state: &AppState, now_nanos: u128) -> (reply: Reply)
    ensures
        exists|read: Result<Seq<char>, StoreUnavailable>|
            (read matches Ok(document) ==> state.shared_text.holds(document)) && reply@
                == #[trigger] page_reply_of(read, now_nanos as nat),
{
    let read = state.shared_text.read();
    let reply = page_reply(read, now_nanos);
    assert((read_view(read) matches Ok(document) ==> state.shared_text.holds(document)) && reply@
        == page_reply_of(read_view(read), now_nanos as nat));
    reply
}

/// Serves a poll from a text that the store holds. `now_nanos` is the time
/// in nanoseconds since the epoch.
pub fn api_content_handler(state: &AppState, now_nanos: u128) -> (reply: Reply)
    ensures
        exists|read: Result<Seq<char>, StoreUnavailable>|
            (read matches Ok(document) ==> state.shared_text.holds(document)) && reply@
                == #[trigger] content_reply_of(read, now_nanos as nat),
{
    let read = state.shared_text.read();
    let reply = content_reply(read, now_nanos);
    assert((read_view(read) matches Ok(document) ==> state.shared_text.holds(document)) && reply@
        == content_reply_of(read_view(read), now_nanos as nat));
    reply
}

/// Replaces the document by the text of the payload, whatever the document
/// was: the last writer wins. Success is answered only for a text that went
/// into the store.
pub fn api_set_content_handler(state: &AppState, payload: SetTextPayload) -> (reply: Reply)
    ensures
        exists|written: Result<(), StoreUnavailable>| reply@ == update_reply_of(written),
        reply@.status == 200 ==> state.shared_text.holds(payload.new_text@),
{
    let written = state.shared_text.write(payload.new_text);
    update_reply(written)
}

/// An error fingerprint is the fingerprint of no markup, whatever the time:
/// its second character is no hexadecimal digit, and a fingerprint holds
/// nothing else.
pub proof fn lemma_error_fingerprint_is_no_fingerprint(now_nanos: nat, markup: Seq<char>)
    ensures
        error_fingerprint_text(now_nanos) != fingerprint_of(markup),
{
    reveal_strlit("error-");
    let error = error_fingerprint_text(now_nanos);
    let genuine = fingerprint_of(markup);
    assert(error.len() >= 6);
    assert(error[1] == 'r');
    if error == genuine {
        lemma_hex_encoding_shape(crate::render::sha1_digest(vstd::utf8::encode_utf8(markup)));
        assert(is_lower_hex(genuine[1]));
    }
}

/// A poll that reads a document answers with the fingerprint of that
/// document's markup, whatever was read or written before; and a poll that
/// cannot read answers with a fingerprint that no document has.
pub proof fn lemma_poll_is_stateless(document: Seq<char>, any: Seq<char>, now_nanos: nat)
    ensures
        content_reply_of(Ok(document), now_nanos).body == (BodyView::Content {
            html: rendered_markup(document),
            hash: fingerprint_of(rendered_markup(document)),
        }),
        content_reply_of(Err(StoreUnavailable), now_nanos).body->Content_hash != fingerprint_of(
            rendered_markup(any),
        ),
{
    lemma_error_fingerprint_is_no_fingerprint(now_nanos, rendered_markup(any));
}

/// The page that is served when the document could not be read starts from
/// an error fingerprint, which is the fingerprint of no document: whatever
/// its first successful poll returns, the reader takes it for a change.
pub proof fn lemma_error_page_starts_from_no_fingerprint(now_nanos: nat, any: Seq<char>)
    ensures
        page_reply_of(Err(StoreUnavailable), now_nanos).body == BodyView::Html(
            page_of(error_fingerprint_text(now_nanos), json_string(bootstrap_error_markup())),
        ),
        error_fingerprint_text(now_nanos) != fingerprint_of(rendered_markup(any)),
{
    lemma_error_fingerprint_is_no_fingerprint(now_nanos, rendered_markup(any));
}

} // verus!
