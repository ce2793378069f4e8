//! Calls into the URL, date, JSON and HTML crates that the library relies on.
use vstd::prelude::*;

verus! {

/// The serialization and the path of the URL that `url::Url::parse` reads from
/// the text, or `None` where it rejects the text.
pub uninterp spec fn parsed_url(s: Seq<char>) -> Option<(Seq<char>, Seq<char>)>;

/// The whole seconds since the Unix epoch of the RFC 3339 timestamp that chrono
/// reads from the text, or `None` where it rejects the text.
pub uninterp spec fn rfc3339_seconds(s: Seq<char>) -> Option<i64>;

/// The string value of member `key` of the JSON object in `text`, or `None` where
/// the text is no JSON, no object, or the member is absent or not a string.
pub uninterp spec fn json_str_member(text: Seq<char>, key: Seq<char>) -> Option<Seq<char>>;

/// The text of the first `title` element of the HTML document, as scraper
/// reads it, or `None` where there is none.
pub uninterp spec fn html_title(html: Seq<char>) -> Option<Seq<char>>;

/// For the first `meta` element named `description` of the HTML document, as
/// scraper reads it, its `content` attribute, if any; `None` where there is no
/// such element.
pub uninterp spec fn html_meta_description(html: Seq<char>) -> Option<Option<Seq<char>>>;

/// Relies on `scraper::Html::parse_document` and the selector `title`; the
/// title is the concatenated text of the first match.
#[verifier::external_body]
pub(crate) fn page_title(html: &str) -> (r: Option<String>)
    ensures
        html_title(html@) == match r {
            Some(t) => Some(t@),
            None => None::<Seq<char>>,
        },
{
    let doc = scraper::Html::parse_document(html);
    let sel = scraper::Selector::parse("title").unwrap();
    doc.select(&sel).next().map(|t| t.text().collect::<Vec<_>>().join(""))
}

/// Relies on `scraper::Html::parse_document`, the selector
/// `meta[name="description"]` and `Element::attr` for `content`.
#[verifier::external_body]
pub(crate) fn page_description(html: &str) -> (r: Option<Option<String>>)
    ensures
        html_meta_description(html@) == match r {
            Some(Some(d)) => Some(Some(d@)),
            Some(None) => Some(None::<Seq<char>>),
            None => None::<Option<Seq<char>>>,
        },
{
    let doc = scraper::Html::parse_document(html);
    let sel = scraper::Selector::parse("meta[name=\"description\"]").unwrap();
    doc.select(&sel).next().map(|m| m.value().attr("content").map(|c| c.to_string()))
}

/// Relies on `url::Url::parse`, with `Url::as_str` for the serialization and
/// `Url::path` for the path of the parsed URL.
#[verifier::external_body]
pub(crate) fn parse_url(s: &str) -> (r: Option<(String, String)>)
    ensures
        parsed_url(s@) == match r {
            Some(p) => Some((p.0@, p.1@)),
            None => None::<(Seq<char>, Seq<char>)>,
        },
{
    url::Url::parse(s).ok().map(|u| (u.as_str().to_string(), u.path().to_string()))
}

/// Relies on chrono's `FromStr` for `DateTime<Utc>` (RFC 3339 text) and on
/// `DateTime::timestamp` (whole seconds since the Unix epoch).
#[verifier::external_body]
pub(crate) fn parse_timestamp(s: &str) -> (r: Option<i64>)
    ensures
        r == rfc3339_seconds(s@),
{
    s.parse::<chrono::DateTime<chrono::Utc>>().ok().map(|t| t.timestamp())
}

/// Relies on `serde_json::from_str` into a `serde_json::Value`, then
/// `Value::get` with a string key and `Value::as_str`.
#[verifier::external_body]
pub(crate) fn json_str_member_of(text: &str, key: &str) -> (r: Option<String>)
    ensures
        json_str_member(text@, key@) == match r {
            Some(s) => Some(s@),
            None => None::<Seq<char>>,
        },
{
    serde_json::from_str::<serde_json::Value>(text)
        .ok()
        .and_then(|v| v.get(key).and_then(|m| m.as_str()).map(|m| m.to_string()))
}

} // verus!
