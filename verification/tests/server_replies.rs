use ki_reader::commands::{
    get_server_info, get_text, set_add_to_editor_on_copy, set_send_on_copy, set_text, text_result,
    write_result,
};
use ki_reader::editor::{merge_clipboard_text, CLIPBOARD_EVENT};
use ki_reader::mode::ProducerMode;
use ki_reader::page::{render_page, PAGE_HEAD, PAGE_MIDDLE, PAGE_TAIL};
use ki_reader::render::process_markdown;
use ki_reader::server::{
    api_content_handler, api_set_content_handler, bootstrap_page, content_literal, content_reply,
    embed_page, error_fingerprint, error_page, get_page_handler, no_cache_headers, page_reply,
    update_reply,
    ContentResponse, Reply, ReplyBody, SetTextPayload, SERVER_PORT,
};
use ki_reader::state::{AppState, StoreUnavailable};

fn header<'a>(reply: &'a Reply, name: &str) -> Option<&'a str> {
    reply.headers.iter().find(|h| h.0.eq_ignore_ascii_case(name)).map(|h| h.1.as_str())
}

#[test]
fn api_content_handler_returns_no_cache_headers() {
    let state = AppState::default();
    let response = api_content_handler(&state, 0);
    assert_eq!(response.status, 200);
    assert_eq!(header(&response, "cache-control").unwrap(), "no-cache, no-store, must-revalidate");
    assert_eq!(header(&response, "pragma").unwrap(), "no-cache");
    assert_eq!(header(&response, "expires").unwrap(), "0");
}

#[test]
fn get_page_handler_returns_no_cache_headers() {
    let state = AppState::default();
    let response = get_page_handler(&state, 0);
    assert_eq!(response.status, 200);
    assert_eq!(header(&response, "cache-control").unwrap(), "no-cache, no-store, must-revalidate");
    assert_eq!(header(&response, "pragma").unwrap(), "no-cache");
    assert_eq!(header(&response, "expires").unwrap(), "0");
}

#[test]
fn api_content_handler_returns_json_with_correct_structure() {
    let state = AppState::default();
    let response = api_content_handler(&state, 0);
    let content_response = match response.body {
        ReplyBody::Content(content) => content,
        other => panic!("unexpected body: {:?}", other),
    };
    let (expected_html, expected_hash) =
        process_markdown(&AppState::default().shared_text.read().unwrap());
    assert_eq!(content_response.html, expected_html);
    assert_eq!(content_response.hash, expected_hash);
}

#[test]
fn no_cache_headers_in_order() {
    assert_eq!(
        no_cache_headers(),
        vec![
            ("Cache-Control".to_string(), "no-cache, no-store, must-revalidate".to_string()),
            ("Pragma".to_string(), "no-cache".to_string()),
            ("Expires".to_string(), "0".to_string()),
        ]
    );
}

#[test]
fn port_is_fixed() {
    assert_eq!(SERVER_PORT, 5001);
}

#[test]
fn a_failed_read_gives_an_error_payload_with_a_reserved_fingerprint() {
    let reply = content_reply(Err(StoreUnavailable), 1700000000123456789);
    assert_eq!(reply.status, 500);
    assert_eq!(reply.headers, no_cache_headers());
    assert_eq!(
        reply.body,
        ReplyBody::Content(ContentResponse {
            html: "<h2>\u{41e}\u{448}\u{438}\u{431}\u{43a}\u{430} \u{43d}\u{430} \u{441}\u{435}\u{440}\u{432}\u{435}\u{440}\u{435}</h2><p>\u{41d}\u{435} \u{443}\u{434}\u{430}\u{43b}\u{43e}\u{441}\u{44c} \u{43f}\u{43e}\u{43b}\u{443}\u{447}\u{438}\u{442}\u{44c} \u{434}\u{43e}\u{441}\u{442}\u{443}\u{43f} \u{43a} \u{434}\u{430}\u{43d}\u{43d}\u{44b}\u{43c}. \u{41f}\u{43e}\u{43f}\u{440}\u{43e}\u{431}\u{443}\u{439}\u{442}\u{435} \u{43f}\u{435}\u{440}\u{435}\u{437}\u{430}\u{43f}\u{443}\u{441}\u{442}\u{438}\u{442}\u{44c} \u{43f}\u{440}\u{438}\u{43b}\u{43e}\u{436}\u{435}\u{43d}\u{438}\u{435}.</p>".to_string(),
            hash: "error-1700000000123456789".to_string(),
        })
    );
}

#[test]
fn error_fingerprints_differ_from_every_document_fingerprint() {
    assert_eq!(error_fingerprint(0), "error-0");
    assert_eq!(error_fingerprint(42), "error-42");
    let corpus = ["", "a", "# Title", "error-0", "error-42", "~x~", "| a |\n| - |\n| 1 |"];
    for now in [0u128, 42, 1700000000123456789, u128::MAX] {
        let reserved = error_fingerprint(now);
        for text in corpus {
            let (_, hash) = process_markdown(text);
            assert_ne!(hash, reserved);
            assert!(hash.chars().all(|c| c.is_ascii_digit() || ('a'..='f').contains(&c)));
        }
    }
}

#[test]
fn a_poll_answers_from_the_text_read() {
    let reply = content_reply(Ok("# Hi".to_string()), 7);
    assert_eq!(reply.status, 200);
    assert_eq!(reply.headers, no_cache_headers());
    assert_eq!(
        reply.body,
        ReplyBody::Content(ContentResponse {
            html: "<h1>Hi</h1>".to_string(),
            hash: process_markdown("# Hi").1,
        })
    );
    assert_eq!(content_reply(Ok("# Hi".to_string()), 8), reply);
}

#[test]
fn the_page_embeds_fingerprint_and_markup() {
    let (markup, hash) = process_markdown("say \"hi\"\n\nnext");
    assert_eq!(markup, "<p>say &quot;hi&quot;</p>\n<p>next</p>");
    let page = bootstrap_page("say \"hi\"\n\nnext");
    assert!(page.contains(&format!("let currentHash = \"{}\";", hash)));
    assert!(page.contains("initialize(\"<p>say &quot;hi&quot;</p>\\n<p>next</p>\");"));
    assert!(page.starts_with("\n<!DOCTYPE html>"));
    assert!(page.ends_with("</html>\n"));
    assert!(!page.contains("{{"));
}

#[test]
fn the_markup_is_embedded_as_a_json_string() {
    let cases = [
        ("", "\"\""),
        ("plain", "\"plain\""),
        ("say \"hi\"", "\"say \\\"hi\\\"\""),
        ("back\\slash", "\"back\\\\slash\""),
        ("a\nb\tc\rd", "\"a\\nb\\tc\\rd\""),
        ("\u{8}\u{c}", "\"\\b\\f\""),
        ("\u{0}\u{1}\u{b}\u{1f}", "\"\\u0000\\u0001\\u000b\\u001f\""),
        ("\u{7f} / ' <b>", "\"\u{7f} / ' <b>\""),
        ("\u{442}\u{435}\u{43a}\u{441}\u{442} \u{1f600}", "\"\u{442}\u{435}\u{43a}\u{441}\u{442} \u{1f600}\""),
    ];
    for (markup, literal) in cases {
        assert_eq!(embed_page(markup, "H"), render_page("H", literal));
    }
}

#[test]
fn the_page_is_head_hash_middle_literal_tail() {
    assert_eq!(render_page("H", "L"), format!("{}H{}L{}", PAGE_HEAD, PAGE_MIDDLE, PAGE_TAIL));
    assert!(PAGE_HEAD.ends_with("let currentHash = \""));
    assert!(PAGE_MIDDLE.ends_with("initialize("));
    assert_eq!(content_literal(Some("\"x\"".to_string())), "\"x\"");
    assert_eq!(content_literal(None), "''");
}

#[test]
fn a_failed_read_gives_an_error_page_that_polls() {
    let reply = page_reply(Err(StoreUnavailable), 42);
    assert_eq!(reply.status, 500);
    assert_eq!(reply.headers, no_cache_headers());
    match reply.body {
        ReplyBody::Html(page) => {
            assert_eq!(page, error_page(42));
            assert!(page.starts_with(PAGE_HEAD));
            assert!(page.ends_with(PAGE_TAIL));
            assert!(page.contains("let currentHash = \"error-42\";"));
            assert!(page.contains("initialize(\"<h1>"));
            assert!(page.contains("</p>\");"));
            assert!(page.contains("setInterval(checkForUpdates, 3000);"));
        }
        other => panic!("unexpected body: {:?}", other),
    }
    assert_ne!(error_page(42), error_page(43));
}

#[test]
fn the_error_page_starts_from_a_fingerprint_that_no_document_has() {
    for text in ["", "a", "error-42", "# Title"] {
        let (_, hash) = process_markdown(text);
        assert!(!error_page(42).contains(&format!("let currentHash = \"{}\";", hash)));
        assert!(bootstrap_page(text).contains(&format!("let currentHash = \"{}\";", hash)));
    }
}

#[test]
fn a_read_that_succeeds_gives_the_page_of_the_document() {
    let first = page_reply(Ok("x".to_string()), 1);
    assert_eq!(first.status, 200);
    assert_eq!(first.headers, no_cache_headers());
    assert_eq!(first.body, ReplyBody::Html(bootstrap_page("x")));
    assert_eq!(page_reply(Ok("x".to_string()), 2), first);
    let (markup, hash) = process_markdown("x");
    assert_eq!(embed_page(&markup, &hash), bootstrap_page("x"));
}

#[test]
fn a_posted_text_is_what_the_next_poll_renders() {
    let state = AppState::default();
    let reply = api_set_content_handler(&state, SetTextPayload { new_text: "hi".to_string() });
    assert_eq!(reply.status, 200);
    assert_eq!(get_text(&state), Ok("hi".to_string()));
    match api_content_handler(&state, 0).body {
        ReplyBody::Content(content) => assert_eq!(content.html, "<p>hi</p>"),
        other => panic!("unexpected body: {:?}", other),
    }
}

#[test]
fn the_store_filters_nothing() {
    let state = AppState::default();
    assert_eq!(set_text(String::new(), &state), Ok(()));
    assert_eq!(get_text(&state), Ok(String::new()));
    assert_eq!(set_text("  \n".to_string(), &state), Ok(()));
    assert_eq!(get_text(&state), Ok("  \n".to_string()));
    assert_eq!(set_text("first".to_string(), &state), Ok(()));
    assert_eq!(set_text("second".to_string(), &state), Ok(()));
    assert_eq!(get_text(&state), Ok("second".to_string()));
}

#[test]
fn an_update_replaces_the_document_unconditionally() {
    let state = AppState::default();
    let reply =
        api_set_content_handler(&state, SetTextPayload { new_text: "fresh".to_string() });
    assert_eq!(reply.status, 200);
    assert!(reply.headers.is_empty());
    assert_eq!(reply.body, ReplyBody::Message("Content updated successfully.".to_string()));
    assert_eq!(state.shared_text.read().unwrap(), "fresh");
    api_set_content_handler(&state, SetTextPayload { new_text: "fresher".to_string() });
    assert_eq!(state.shared_text.read().unwrap(), "fresher");
}

#[test]
fn a_failed_write_is_reported() {
    let reply = update_reply(Err(StoreUnavailable));
    assert_eq!(reply.status, 500);
    assert_eq!(
        reply.body,
        ReplyBody::Message("Failed to update content due to a server error.".to_string())
    );
    assert_eq!(update_reply(Ok(())).status, 200);
}

#[test]
fn commands_pass_through_to_the_state() {
    let state = AppState::default();
    assert_eq!(set_text("typed".to_string(), &state), Ok(()));
    assert_eq!(get_text(&state), Ok("typed".to_string()));
    assert_eq!(set_send_on_copy(true, &state), Ok(()));
    assert_eq!(state.producer_mode(), ProducerMode::ReplaceDocument);
    assert_eq!(set_send_on_copy(false, &state), Ok(()));
    assert_eq!(set_add_to_editor_on_copy(true, &state), Ok(()));
    assert_eq!(state.producer_mode(), ProducerMode::AppendNotify);
}

#[test]
fn commands_report_an_unavailable_store_in_words() {
    assert_eq!(
        text_result(Err(StoreUnavailable)),
        Err("Failed to acquire read lock: poisoned lock: another task failed inside".to_string())
    );
    assert_eq!(
        write_result(Err(StoreUnavailable)),
        Err("Failed to acquire write lock for set_text: poisoned lock: another task failed inside"
            .to_string())
    );
    assert_eq!(text_result(Ok("t".to_string())), Ok("t".to_string()));
    assert_eq!(write_result(Ok(())), Ok(()));
}

#[test]
fn server_info_names_address_and_port() {
    assert_eq!(
        get_server_info(Some("192.168.1.20".to_string())),
        Ok("\u{41e}\u{442}\u{43a}\u{440}\u{43e}\u{439}\u{442}\u{435} \u{43d}\u{430} \u{447}\u{438}\u{442}\u{430}\u{43b}\u{43a}\u{435}: http://192.168.1.20:5001/get".to_string())
    );
    let none = get_server_info(None).unwrap();
    assert!(none.starts_with("\u{41d}\u{435} \u{443}\u{434}\u{430}\u{43b}\u{43e}\u{441}\u{44c}"));
    assert!(!none.contains("http"));
}

#[test]
fn editor_appends_with_a_blank_line() {
    assert_eq!(CLIPBOARD_EVENT, "clipboard-add-to-editor");
    assert_eq!(merge_clipboard_text("", "new".to_string()), "new");
    assert_eq!(merge_clipboard_text("  \n", "new".to_string()), "new");
    assert_eq!(merge_clipboard_text("old", "new".to_string()), "old\n\nnew");
    assert_eq!(merge_clipboard_text("old\n", "new".to_string()), "old\n\n\nnew");
}
