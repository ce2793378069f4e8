//! The published post that a discussion is reconciled against.
use vstd::prelude::*;
use crate::parse::{parse_url, parsed_url};

verus! {

/// An absolute URL as parsed: its full serialization and its path component.
#[derive(Debug, Clone)]
pub struct PostUrl {
    pub href: String,
    pub path: String,
}

impl PostUrl {
    /// Parses an absolute URL; `None` where the text is not one.
    pub fn parse(s: &str) -> (r: Option<PostUrl>)
        ensures
            parsed_url(s@) == match r {
                Some(u) => Some((u.href@, u.path@)),
                None => None::<(Seq<char>, Seq<char>)>,
            },
    {
        match parse_url(s) {
            Some((href, path)) => Some(PostUrl { href, path }),
            None => None,
        }
    }
}

/// Which value of a post is compared with the titles of existing discussions.
#[derive(Debug, Clone, Copy, PartialEq, Eq)]
pub enum MatchKey {
    /// The path of the post's URL, which is also the title of the discussions
    /// that this library creates.
    UrlPath,
    /// The page's own title, where the page has one.
    PageTitle,
}

/// A published post, as the feed and the page give it.
#[derive(Debug, Clone)]
pub struct Post {
    pub url: PostUrl,
    pub title: Option<String>,
    pub description: Option<String>,
}

impl Post {
    pub fn new(url: PostUrl, title: Option<String>, description: Option<String>) -> (r: Post)
        ensures
            r.url == url,
            r.title == title,
            r.description == description,
    {
        Post { url, title, description }
    }

    /// The value that an existing discussion's title must equal to belong to this post.
    pub open spec fn spec_match_key(&self, by: MatchKey) -> Option<Seq<char>> {
        match by {
            MatchKey::UrlPath => Some(self.url.path@),
            MatchKey::PageTitle => match self.title {
                Some(t) => Some(t@),
                None => None,
            },
        }
    }

    pub fn match_key(&self, by: MatchKey) -> (r: Option<String>)
        ensures
            self.spec_match_key(by) == match r {
                Some(s) => Some(s@),
                None => None::<Seq<char>>,
            },
    {
        match by {
            MatchKey::UrlPath => Some(self.url.path.clone()),
            MatchKey::PageTitle => match &self.title {
                Some(t) => Some(t.clone()),
                None => None,
            },
        }
    }
}

} // verus!
