//! From a fetched web page to a Markdown document: sanitize the article that
//! was extracted from the page and, once it is converted, put its title on
//! top.
//!
//! Fetching the page, extracting the article and converting the sanitized
//! HTML to Markdown are left to the caller; what is decided on the way (is
//! the address valid, did the server answer with success, is anything left
//! of the page) is decided here.

use crate::text::{is_blank, is_blank_text, result_view, trim, trimmed};
use vstd::prelude::*;

verus! {

/// The words with which the `url` crate refuses a text as an absolute URL;
/// `None` where it accepts the text.
pub uninterp spec fn url_parse_error(text: Seq<char>) -> Option<Seq<char>>;

/// What the `ammonia` crate leaves of a piece of HTML when only the listed
/// tags, and on a tag only the attributes listed for it, are allowed, and no
/// `rel` is added to links.
pub uninterp spec fn sanitized_html(
    html: Seq<char>,
    tags: Seq<Seq<char>>,
    tag_attributes: Seq<(Seq<char>, Seq<Seq<char>>)>,
) -> Seq<char>;

/// The texts of a list of names.
pub open spec fn names_view(names: Seq<&'static str>) -> Seq<Seq<char>> {
    Seq::new(names.len(), |i: int| names[i]@)
}

/// The texts of a list of tags with their attributes.
pub open spec fn attributes_view(entries: Seq<(&'static str, Vec<&'static str>)>) -> Seq<
    (Seq<char>, Seq<Seq<char>>),
> {
    Seq::new(entries.len(), |i: int| (entries[i].0@, names_view(entries[i].1@)))
}

/// The sanitizer drops these tags together with what they contain; they
/// cannot be allowed at the same time.
pub open spec fn is_content_tag(name: Seq<char>) -> bool {
    name == "script"@ || name == "style"@
}

/// The tags that are kept: what a page needs to be read, and nothing else.
pub open spec fn allowed_tag_names() -> Seq<Seq<char>> {
    seq![
        "h1"@, "h2"@, "h3"@, "h4"@, "h5"@, "h6"@, "p"@, "br"@, "hr"@, "strong"@, "em"@, "b"@,
        "i"@, "u"@, "del"@, "s"@, "strike"@, "blockquote"@, "ul"@, "ol"@, "li"@, "pre"@, "code"@,
        "img"@, "figure"@, "figcaption"@, "table"@, "thead"@, "tbody"@, "tr"@, "th"@, "td"@,
        "a"@,
    ]
}

/// The attributes that are kept: the target of a link, and the source,
/// alternative text and title of an image.
pub open spec fn allowed_attribute_names() -> Seq<(Seq<char>, Seq<Seq<char>>)> {
    seq![("a"@, seq!["href"@]), ("img"@, seq!["src"@, "alt"@, "title"@])]
}

/// The document made of an article's title and its Markdown, or why there is
/// none.
pub open spec fn article_of(title: Seq<char>, markdown: Seq<char>) -> Result<
    Seq<char>,
    Seq<char>,
> {
    if is_blank(markdown) {
        Err("Извлеченное содержимое оказалось пустым после обработки."@)
    } else if title.len() > 0 {
        Ok("# "@ + trimmed(title) + "\n\n"@ + trimmed(markdown))
    } else {
        Ok(trimmed(markdown))
    }
}

/// An article's title and its sanitized HTML, or why there is none.
pub open spec fn sanitized_article_of(
    extracted: Result<(Seq<char>, Seq<char>), Seq<char>>,
) -> Result<(Seq<char>, Seq<char>), Seq<char>> {
    match extracted {
        Err(words) => Err("Ошибка извлечения контента: "@ + words),
        Ok((title, content)) => if is_blank(content) {
            Err("Не удалось извлечь основное содержимое со страницы."@)
        } else {
            Ok((title, sanitized_html(content, allowed_tag_names(), allowed_attribute_names())))
        },
    }
}

/// The views of an article, or of the words why there is none.
pub open spec fn article_view(article: Result<(String, String), String>) -> Result<
    (Seq<char>, Seq<char>),
    Seq<char>,
> {
    match article {
        Ok(pair) => Ok((pair.0@, pair.1@)),
        Err(words) => Err(words@),
    }
}

/// Whether a status code says that the request succeeded.
pub open spec fn is_success(status: u16) -> bool {
    200 <= status < 300
}

/// Calls `Url::parse` of the `url` crate and keeps only whether it accepted
/// the text: `None`, or the words that its error displays. The contract names
/// that outcome [`url_parse_error`].
#[verifier::external_body]
fn parse_error(url_str: &str) -> (error: Option<String>)
    ensures
        match error {
            Some(words) => url_parse_error(url_str@) == Some(words@),
            None => url_parse_error(url_str@).is_none(),
        },
{
    match url::Url::parse(url_str) {
        Ok(_) => None,
        Err(error) => Some(format!("{}", error)),
    }
}

/// Calls `clean` on an `ammonia::Builder` that allows `tags` and, per tag,
/// `tag_attributes`, and that adds no `rel` to links. The builder refuses to
/// allow a tag whose content it drops, so none may be listed. The contract
/// claims that the result depends on the three arguments alone and names it
/// [`sanitized_html`].
#[verifier::external_body]
fn sanitize(
    html: &str,
    tags: &Vec<&'static str>,
    tag_attributes: &Vec<(&'static str, Vec<&'static str>)>,
) -> (clean: String)
    requires
        forall|i: int| 0 <= i < tags@.len() ==> !is_content_tag(#[trigger] tags@[i]@),
        forall|i: int|
            0 <= i < tag_attributes@.len() ==> !is_content_tag((#[trigger] tag_attributes@[i]).0@),
    ensures
        clean@ == sanitized_html(html@, names_view(tags@), attributes_view(tag_attributes@)),
{
    let mut attributes = std::collections::HashMap::new();
    for entry in tag_attributes.iter() {
        attributes.insert(entry.0, entry.1.iter().cloned().collect());
    }
    ammonia::Builder::new()
        .tags(tags.iter().cloned().collect())
        .tag_attributes(attributes)
        .link_rel(None)
        .clean(html)
        .to_string()
}

/// The tags that are kept.
pub fn allowed_tags() -> (tags: Vec<&'static str>)
    ensures
        names_view(tags@) == allowed_tag_names(),
{
    let tags: Vec<&'static str> = vec![
        "h1", "h2", "h3", "h4", "h5", "h6", "p", "br", "hr", "strong", "em", "b", "i", "u", "del",
        "s", "strike", "blockquote", "ul", "ol", "li", "pre", "code", "img", "figure",
        "figcaption", "table", "thead", "tbody", "tr", "th", "td", "a",
    ];
    assert(names_view(tags@) =~= allowed_tag_names());
    tags
}

/// The attributes that are kept, per tag.
pub fn allowed_tag_attributes() -> (entries: Vec<(&'static str, Vec<&'static str>)>)
    ensures
        attributes_view(entries@) == allowed_attribute_names(),
{
    let link: Vec<&'static str> = vec!["href"];
    let image: Vec<&'static str> = vec!["src", "alt", "title"];
    assert(names_view(link@) =~= seq!["href"@]);
    assert(names_view(image@) =~= seq!["src"@, "alt"@, "title"@]);
    let entries: Vec<(&'static str, Vec<&'static str>)> = vec![("a", link), ("img", image)];
    assert(attributes_view(entries@) =~= allowed_attribute_names());
    entries
}

/// None of the tags that are kept, and none of the tags with attributes, is
/// one whose content the sanitizer drops.
pub proof fn lemma_allowed_tags_keep_content()
    ensures
        forall|i: int|
            0 <= i < allowed_tag_names().len() ==> !is_content_tag(#[trigger] allowed_tag_names()[i]),
        forall|i: int|
            0 <= i < allowed_attribute_names().len() ==> !is_content_tag(
                (#[trigger] allowed_attribute_names()[i]).0,
            ),
{
    reveal_strlit("script");
    reveal_strlit("style");
    reveal_strlit("h1");
    reveal_strlit("h2");
    reveal_strlit("h3");
    reveal_strlit("h4");
    reveal_strlit("h5");
    reveal_strlit("h6");
    reveal_strlit("p");
    reveal_strlit("br");
    reveal_strlit("hr");
    reveal_strlit("strong");
    reveal_strlit("em");
    reveal_strlit("b");
    reveal_strlit("i");
    reveal_strlit("u");
    reveal_strlit("del");
    reveal_strlit("s");
    reveal_strlit("strike");
    reveal_strlit("blockquote");
    reveal_strlit("ul");
    reveal_strlit("ol");
    reveal_strlit("li");
    reveal_strlit("pre");
    reveal_strlit("code");
    reveal_strlit("img");
    reveal_strlit("figure");
    reveal_strlit("figcaption");
    reveal_strlit("table");
    reveal_strlit("thead");
    reveal_strlit("tbody");
    reveal_strlit("tr");
    reveal_strlit("th");
    reveal_strlit("td");
    reveal_strlit("a");
    let script = "script"@;
    let style = "style"@;
    assert(script.len() == 6 && script[1] == 'c');
    assert(style.len() == 5 && style[0] == 's');
    assert forall|i: int| 0 <= i < allowed_tag_names().len() implies !is_content_tag(
        #[trigger] allowed_tag_names()[i],
    ) by {
        let name = allowed_tag_names()[i];
        assert(name.len() != 5 || name[0] == 't');
        assert(name.len() != 6 || name[1] == 't' || name[1] == 'i');
    }
}

/// Refuses an address that is no absolute URL.
pub fn validate_url(url_str: &str) -> (result: Result<(), String>)
    ensures
        match result {
            Ok(_) => url_parse_error(url_str@).is_none(),
            Err(words) => url_parse_error(url_str@).is_some() && words@ == "Неверный URL: "@
                + url_parse_error(url_str@)->0,
        },
{
    match parse_error(url_str) {
        None => Ok(()),
        Some(words) => {
            let mut message = String::from_str("Неверный URL: ");
            message.append(words.as_str());
            Err(message)
        },
    }
}

/// Refuses the answer of a server that did not answer with success. `shown`
/// is the status as it is shown to the user, such as `404 Not Found`.
pub fn check_status(status: u16, shown: &str) -> (result: Result<(), String>)
    ensures
        match result {
            Ok(_) => is_success(status),
            Err(words) => !is_success(status) && words@
                == "Ошибка загрузки: сервер ответил со статусом "@ + shown@,
        },
{
    if 200 <= status && status < 300 {
        Ok(())
    } else {
        let mut message = String::from_str("Ошибка загрузки: сервер ответил со статусом ");
        message.append(shown);
        Err(message)
    }
}

/// Puts the title on top of the Markdown that was made of an article's
/// sanitized HTML. Refuses a Markdown that holds nothing but white space.
pub fn finish_article(title: &str, markdown: &str) -> (result: Result<String, String>)
    ensures
        result_view(result) == article_of(title@, markdown@),
{
    if is_blank_text(markdown) {
        return Err(String::from_str("Извлеченное содержимое оказалось пустым после обработки."));
    }
    let body = trim(markdown);
    if title.unicode_len() > 0 {
        let mut document = String::from_str("# ");
        document.append(trim(title).as_str());
        document.append("\n\n");
        document.append(body.as_str());
        Ok(document)
    } else {
        Ok(body)
    }
}

/// Sanitizes what was extracted from a page: `extracted` is the title and the
/// HTML of the main content, or the words of the failure. Refuses a failed
/// extraction and a content that holds nothing but white space. The HTML
/// that is left is then to be converted to Markdown and handed to
/// [`finish_article`].
pub fn sanitized_article(extracted: Result<(String, String), String>) -> (article: Result<
    (String, String),
    String,
>)
    ensures
        article_view(article) == sanitized_article_of(article_view(extracted)),
{
    match extracted {
        Err(words) => {
            let mut message = String::from_str("Ошибка извлечения контента: ");
            message.append(words.as_str());
            Err(message)
        },
        Ok((title, content)) => {
            if is_blank_text(content.as_str()) {
                return Err(
                    String::from_str("Не удалось извлечь основное содержимое со страницы."),
                );
            }
            proof {
                lemma_allowed_tags_keep_content();
            }
            let tags = allowed_tags();
            let attributes = allowed_tag_attributes();
            assert forall|i: int| 0 <= i < tags@.len() implies !is_content_tag(
                #[trigger] tags@[i]@,
            ) by {
                assert(names_view(tags@)[i] == tags@[i]@);
            }
            assert forall|i: int| 0 <= i < attributes@.len() implies !is_content_tag(
                (#[trigger] attributes@[i]).0@,
            ) by {
                assert(attributes_view(attributes@)[i].0 == attributes@[i].0@);
            }
            let clean = sanitize(content.as_str(), &tags, &attributes);
            Ok((title, clean))
        },
    }
}

} // verus!
