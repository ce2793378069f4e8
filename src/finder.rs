//! Looks among the newest discussions for one that belongs to a post.
use vstd::prelude::*;
use crate::error::{Failure, ReconcileError};
use crate::parse::rfc3339_seconds;
use crate::response::{opt_text, DateTime, PageResponse, Uri};

verus! {

/// How far back, in seconds, an existing discussion still counts for a post.
pub const LOOKBACK_SECS: i64 = 7 * 24 * 60 * 60;

/// One discussion as the API lists it.
#[derive(Debug, Clone)]
pub struct DiscussionEntry {
    pub title: String,
    pub created_at: DateTime,
    pub url: Uri,
}

/// What one entry of the newest-first scan means for the search.
#[derive(Debug, Clone, Copy, PartialEq, Eq)]
pub enum Verdict {
    /// Within the window, but it does not belong to the post.
    Continue,
    /// Older than the window: no later entry can be newer, so the search ends.
    Stale,
    /// Within the window and its title equals the post's key.
    Match,
    /// Its creation time could not be read.
    Malformed,
}

pub open spec fn spec_verdict(
    title: Seq<char>,
    created: Option<i64>,
    key: Option<Seq<char>>,
    now: i64,
) -> Verdict {
    match created {
        None => Verdict::Malformed,
        Some(t) => if now - t > LOOKBACK_SECS {
            Verdict::Stale
        } else if key == Some(title) {
            Verdict::Match
        } else {
            Verdict::Continue
        },
    }
}

/// Judges one entry with title `title`, created at `created` seconds since the
/// epoch (`None` where its time could not be read), against the post's `key`
/// at time `now`. An entry exactly `LOOKBACK_SECS` old is still within the window.
pub fn judge_entry(title: &String, created: Option<i64>, key: &Option<String>, now: i64) -> (v:
    Verdict)
    ensures
        v == spec_verdict(title@, created, opt_text(*key), now),
{
    match created {
        None => Verdict::Malformed,
        Some(t) => {
            if (now as i128) - (t as i128) > LOOKBACK_SECS as i128 {
                Verdict::Stale
            } else {
                match key {
                    Some(k) => if *k == *title {
                        Verdict::Match
                    } else {
                        Verdict::Continue
                    },
                    None => Verdict::Continue,
                }
            }
        },
    }
}

/// The outcome of scanning `entries` from index `i` on: the URL of the first
/// matching entry, `None` once a stale entry or the end is reached, or the
/// unreadable creation time that stopped the scan.
pub open spec fn scan_from(
    entries: Seq<Option<DiscussionEntry>>,
    key: Option<Seq<char>>,
    now: i64,
    i: int,
) -> Result<Option<Seq<char>>, Seq<char>>
    decreases entries.len() - i,
{
    if i >= entries.len() {
        Ok(None)
    } else {
        match entries[i] {
            None => scan_from(entries, key, now, i + 1),
            Some(e) => match spec_verdict(e.title@, rfc3339_seconds(e.created_at.0@), key, now) {
                Verdict::Continue => scan_from(entries, key, now, i + 1),
                Verdict::Stale => Ok(None),
                Verdict::Match => Ok(Some(e.url.0@)),
                Verdict::Malformed => Err(e.created_at.0@),
            },
        }
    }
}

/// What the search over a whole response yields.
pub open spec fn spec_find(page: PageResponse<DiscussionEntry>, key: Option<Seq<char>>, now: i64) -> Result<
    Option<Seq<char>>,
    Failure,
> {
    if page.errors.len() > 0 || page.data is None {
        Err(Failure::RemoteQuery(page.errors.deep_view()))
    } else {
        match scan_from(page.data->Some_0@, key, now, 0) {
            Ok(u) => Ok(u),
            Err(t) => Err(Failure::Malformed(t)),
        }
    }
}

pub open spec fn find_view(r: Result<Option<String>, ReconcileError>) -> Result<
    Option<Seq<char>>,
    Failure,
> {
    match r {
        Ok(o) => Ok(opt_text(o)),
        Err(e) => Err(e@),
    }
}

/// Searches the newest discussions, listed newest first, for one whose title
/// equals `key` and that is at most `LOOKBACK_SECS` older than `now`.
/// The scan stops at the first entry older than that. A response with errors
/// or without data is a failure, never "not found": a false "not found" would
/// let a second discussion be created for the same post.
pub fn find_existing(page: &PageResponse<DiscussionEntry>, key: &Option<String>, now: i64) -> (r:
    Result<Option<String>, ReconcileError>)
    ensures
        find_view(r) == spec_find(*page, opt_text(*key), now),
{
    if page.errors.len() > 0 {
        return Err(ReconcileError::RemoteQueryFailure(page.errors.clone()));
    }
    let entries = match &page.data {
        Some(v) => v,
        None => {
            return Err(ReconcileError::RemoteQueryFailure(page.errors.clone()));
        },
    };
    let ghost k = opt_text(*key);
    let mut i: usize = 0;
    while i < entries.len()
        invariant
            0 <= i <= entries.len(),
            page.errors.len() == 0,
            page.data == Some(*entries),
            k == opt_text(*key),
            scan_from(entries@, k, now, 0) == scan_from(entries@, k, now, i as int),
        decreases entries.len() - i,
    {
        if let Some(e) = &entries[i] {
            let created = e.created_at.seconds();
            match judge_entry(&e.title, created, key, now) {
                Verdict::Continue => {},
                Verdict::Stale => {
                    return Ok(None);
                },
                Verdict::Match => {
                    return Ok(Some(e.url.0.clone()));
                },
                Verdict::Malformed => {
                    return Err(ReconcileError::MalformedResponse(e.created_at.0.clone()));
                },
            }
        }
        i = i + 1;
    }
    Ok(None)
}

/// The window is inclusive: an entry created exactly `LOOKBACK_SECS` before
/// `now` still counts, one created a second earlier is stale.
pub proof fn lemma_window_boundary(title: Seq<char>, key: Option<Seq<char>>, now: i64)
    requires
        now - LOOKBACK_SECS - 1 >= i64::MIN,
    ensures
        spec_verdict(title, Some((now - LOOKBACK_SECS) as i64), Some(title), now) == Verdict::Match,
        spec_verdict(title, Some((now - LOOKBACK_SECS - 1) as i64), key, now) == Verdict::Stale,
{
}

/// The scan stops at the first stale entry: two lists that agree up to and
/// including a stale entry at index `j` give the same outcome, whatever follows.
pub proof fn lemma_scan_stops_at_stale(
    a: Seq<Option<DiscussionEntry>>,
    b: Seq<Option<DiscussionEntry>>,
    key: Option<Seq<char>>,
    now: i64,
    j: int,
)
    requires
        0 <= j < a.len(),
        j < b.len(),
        a.subrange(0, j + 1) == b.subrange(0, j + 1),
        a[j] is Some,
        spec_verdict(a[j]->Some_0.title@, rfc3339_seconds(a[j]->Some_0.created_at.0@), key, now)
            == Verdict::Stale,
    ensures
        scan_from(a, key, now, 0) == scan_from(b, key, now, 0),
        scan_from(a, key, now, j) == Ok::<Option<Seq<char>>, Seq<char>>(None),
{
    lemma_agree_from(a, b, key, now, j, 0);
}

proof fn lemma_agree_from(
    a: Seq<Option<DiscussionEntry>>,
    b: Seq<Option<DiscussionEntry>>,
    key: Option<Seq<char>>,
    now: i64,
    j: int,
    i: int,
)
    requires
        0 <= i <= j < a.len(),
        j < b.len(),
        a.subrange(0, j + 1) == b.subrange(0, j + 1),
        a[j] is Some,
        spec_verdict(a[j]->Some_0.title@, rfc3339_seconds(a[j]->Some_0.created_at.0@), key, now)
            == Verdict::Stale,
    ensures
        scan_from(a, key, now, i) == scan_from(b, key, now, i),
    decreases j - i,
{
    assert(a[i] == a.subrange(0, j + 1)[i]);
    assert(b[i] == b.subrange(0, j + 1)[i]);
    if i < j {
        lemma_agree_from(a, b, key, now, j, i + 1);
    }
}

/// The first entry that matches wins: where every entry before index `j` is a
/// null node or a non-matching entry within the window, and entry `j` matches,
/// the scan yields the URL of entry `j`, whatever later entries hold.
pub proof fn lemma_first_match_wins(
    entries: Seq<Option<DiscussionEntry>>,
    key: Option<Seq<char>>,
    now: i64,
    j: int,
)
    requires
        0 <= j < entries.len(),
        entries[j] is Some,
        spec_verdict(
            entries[j]->Some_0.title@,
            rfc3339_seconds(entries[j]->Some_0.created_at.0@),
            key,
            now,
        ) == Verdict::Match,
        forall|i: int|
            0 <= i < j && (#[trigger] entries[i]) is Some ==> spec_verdict(
                entries[i]->Some_0.title@,
                rfc3339_seconds(entries[i]->Some_0.created_at.0@),
                key,
                now,
            ) == Verdict::Continue,
    ensures
        scan_from(entries, key, now, 0) == Ok::<Option<Seq<char>>, Seq<char>>(
            Some(entries[j]->Some_0.url.0@),
        ),
{
    lemma_match_from(entries, key, now, j, 0);
}

proof fn lemma_match_from(
    entries: Seq<Option<DiscussionEntry>>,
    key: Option<Seq<char>>,
    now: i64,
    j: int,
    i: int,
)
    requires
        0 <= i <= j < entries.len(),
        entries[j] is Some,
        spec_verdict(
            entries[j]->Some_0.title@,
            rfc3339_seconds(entries[j]->Some_0.created_at.0@),
            key,
            now,
        ) == Verdict::Match,
        forall|k: int|
            0 <= k < j && (#[trigger] entries[k]) is Some ==> spec_verdict(
                entries[k]->Some_0.title@,
                rfc3339_seconds(entries[k]->Some_0.created_at.0@),
                key,
                now,
            ) == Verdict::Continue,
    ensures
        scan_from(entries, key, now, i) == Ok::<Option<Seq<char>>, Seq<char>>(
            Some(entries[j]->Some_0.url.0@),
        ),
    decreases j - i,
{
    if i < j {
        lemma_match_from(entries, key, now, j, i + 1);
    }
}

} // verus!
