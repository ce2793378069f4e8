//! Reads the newest post from the links of the site's feed and from its page.
use vstd::prelude::*;
use crate::parse::{html_meta_description, html_title, page_description, page_title, parsed_url};
use crate::post::{Post, PostUrl};
use crate::response::opt_text;

verus! {

/// Why the newest post could not be read.
#[derive(Debug, Clone, PartialEq, Eq)]
pub enum SourceError {
    /// The bytes are not a syndication feed.
    UnreadableFeed,
    /// The feed has no entries.
    EmptyFeed,
    /// The newest entry has no link.
    MissingLink,
    /// The newest entry's link is not an absolute URL.
    InvalidUrl,
    /// The page has no `meta` element named `description`.
    MissingDescription,
    /// The page's description element has no `content`.
    EmptyDescription,
}

/// What choosing the newest post's link from the entries' links yields: the
/// serialization and path of the first link of the first entry.
pub open spec fn spec_newest_link(entries: Option<Seq<Seq<Seq<char>>>>) -> Result<
    (Seq<char>, Seq<char>),
    SourceError,
> {
    match entries {
        None => Err(SourceError::UnreadableFeed),
        Some(entries) => if entries.len() == 0 {
            Err(SourceError::EmptyFeed)
        } else if entries[0].len() == 0 {
            Err(SourceError::MissingLink)
        } else {
            match parsed_url(entries[0][0]) {
                Some(u) => Ok(u),
                None => Err(SourceError::InvalidUrl),
            }
        },
    }
}

pub open spec fn url_result(r: Result<PostUrl, SourceError>) -> Result<
    (Seq<char>, Seq<char>),
    SourceError,
> {
    match r {
        Ok(u) => Ok((u.href@, u.path@)),
        Err(e) => Err(e),
    }
}

/// Chooses the newest post from the links of a feed's entries, newest entry
/// first (`None` where the feed could not be read): the first link of the
/// first entry, which must be an absolute URL.
pub fn newest_link(entries: Option<Vec<Vec<String>>>) -> (r: Result<PostUrl, SourceError>)
    ensures
        url_result(r) == spec_newest_link(
            match entries {
                Some(v) => Some(v.deep_view()),
                None => None::<Seq<Seq<Seq<char>>>>,
            },
        ),
{
    let entries = match entries {
        Some(v) => v,
        None => {
            return Err(SourceError::UnreadableFeed);
        },
    };
    proof {
        assert(entries.deep_view().len() == entries@.len());
    }
    if entries.len() == 0 {
        return Err(SourceError::EmptyFeed);
    }
    let first = &entries[0];
    proof {
        assert(entries.deep_view()[0] == first.deep_view());
    }
    if first.len() == 0 {
        return Err(SourceError::MissingLink);
    }
    let link = &first[0];
    proof {
        assert(first.deep_view()[0] == link@);
    }
    match PostUrl::parse(link.as_str()) {
        Some(u) => Ok(u),
        None => Err(SourceError::InvalidUrl),
    }
}

/// What the post at `url` is, given its page's title and description element:
/// the description element must be there and have content.
pub open spec fn spec_post_fields(
    url: PostUrl,
    title: Option<Seq<char>>,
    description: Option<Option<Seq<char>>>,
    r: Result<Post, SourceError>,
) -> bool {
    match description {
        None => r == Err::<Post, SourceError>(SourceError::MissingDescription),
        Some(None) => r == Err::<Post, SourceError>(SourceError::EmptyDescription),
        Some(Some(d)) => {
            &&& r is Ok
            &&& r->Ok_0.url == url
            &&& opt_text(r->Ok_0.title) == title
            &&& opt_text(r->Ok_0.description) == Some(d)
        },
    }
}

/// Builds the post at `url` from its page's title, if any, and its
/// description element: `None` where the page has none, `Some(None)` where
/// the element has no content.
pub fn post_from_fields(url: PostUrl, title: Option<String>, description: Option<Option<String>>) -> (r:
    Result<Post, SourceError>)
    ensures
        spec_post_fields(
            url,
            opt_text(title),
            match description {
                Some(Some(d)) => Some(Some(d@)),
                Some(None) => Some(None::<Seq<char>>),
                None => None::<Option<Seq<char>>>,
            },
            r,
        ),
{
    match description {
        None => Err(SourceError::MissingDescription),
        Some(None) => Err(SourceError::EmptyDescription),
        Some(Some(d)) => Ok(Post::new(url, title, Some(d))),
    }
}

/// Builds the post at `url` from its page: the page's title, if any, and the
/// content of its `meta` description element, which the page must have.
pub fn scrape_post(url: PostUrl, html: &str) -> (r: Result<Post, SourceError>)
    ensures
        spec_post_fields(url, html_title(html@), html_meta_description(html@), r),
{
    let description = page_description(html);
    let title = page_title(html);
    post_from_fields(url, title, description)
}

} // verus!
