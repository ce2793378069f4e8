use rss_autogen_giscus::error::ReconcileError;
use rss_autogen_giscus::finder::{find_existing, judge_entry, DiscussionEntry, Verdict, LOOKBACK_SECS};
use rss_autogen_giscus::response::{DateTime, PageInfo, PageResponse, Uri};

const NOW: i64 = 1709899200; // 2024-03-08T12:00:00Z

fn entry(title: &str, created_at: &str, url: &str) -> Option<DiscussionEntry> {
    Some(DiscussionEntry {
        title: title.to_string(),
        created_at: DateTime(created_at.to_string()),
        url: Uri(url.to_string()),
    })
}

fn page(entries: Vec<Option<DiscussionEntry>>) -> PageResponse<DiscussionEntry> {
    PageResponse { data: Some(entries), page_info: PageInfo { end_cursor: None }, errors: vec![] }
}

fn key(s: &str) -> Option<String> {
    Some(s.to_string())
}

#[test]
fn lookback_is_seven_days() {
    assert_eq!(LOOKBACK_SECS, 604800);
}

#[test]
fn window_is_inclusive_at_seven_days() {
    let p = page(vec![entry("/posts/x", "2024-03-01T12:00:00Z", "https://gh/d/1")]);
    assert_eq!(
        find_existing(&p, &key("/posts/x"), NOW),
        Ok(Some("https://gh/d/1".to_string()))
    );
}

#[test]
fn one_second_past_window_is_stale() {
    let p = page(vec![entry("/posts/x", "2024-03-01T11:59:59Z", "https://gh/d/1")]);
    assert_eq!(find_existing(&p, &key("/posts/x"), NOW), Ok(None));
}

#[test]
fn scan_stops_at_first_stale_entry() {
    let p = page(vec![
        entry("/posts/a", "2024-03-07T00:00:00Z", "https://gh/d/3"),
        entry("/posts/b", "2024-02-01T00:00:00Z", "https://gh/d/2"),
        entry("/posts/x", "2024-03-08T00:00:00Z", "https://gh/d/1"),
    ]);
    assert_eq!(find_existing(&p, &key("/posts/x"), NOW), Ok(None));
}

#[test]
fn entries_after_stale_one_are_not_read() {
    let p = page(vec![
        entry("/posts/b", "2024-02-01T00:00:00Z", "https://gh/d/2"),
        entry("/posts/x", "not a time", "https://gh/d/1"),
    ]);
    assert_eq!(find_existing(&p, &key("/posts/x"), NOW), Ok(None));
}

#[test]
fn first_match_wins() {
    let p = page(vec![
        entry("/posts/other", "2024-03-08T11:00:00Z", "https://gh/d/4"),
        entry("/posts/x", "2024-03-08T10:00:00Z", "https://gh/d/3"),
        entry("/posts/x", "2024-03-07T10:00:00Z", "https://gh/d/2"),
    ]);
    assert_eq!(
        find_existing(&p, &key("/posts/x"), NOW),
        Ok(Some("https://gh/d/3".to_string()))
    );
}

#[test]
fn null_nodes_are_skipped() {
    let p = page(vec![None, entry("/posts/x", "2024-03-08T10:00:00+01:00", "https://gh/d/1")]);
    assert_eq!(
        find_existing(&p, &key("/posts/x"), NOW),
        Ok(Some("https://gh/d/1".to_string()))
    );
}

#[test]
fn empty_list_is_not_found() {
    assert_eq!(find_existing(&page(vec![]), &key("/posts/x"), NOW), Ok(None));
}

#[test]
fn no_key_never_matches() {
    let p = page(vec![entry("/posts/x", "2024-03-08T10:00:00Z", "https://gh/d/1")]);
    assert_eq!(find_existing(&p, &None, NOW), Ok(None));
}

#[test]
fn match_is_case_sensitive() {
    let p = page(vec![entry("/Posts/X", "2024-03-08T10:00:00Z", "https://gh/d/1")]);
    assert_eq!(find_existing(&p, &key("/posts/x"), NOW), Ok(None));
}

#[test]
fn unreadable_time_is_malformed() {
    let p = page(vec![entry("/posts/x", "yesterday", "https://gh/d/1")]);
    assert_eq!(
        find_existing(&p, &key("/posts/x"), NOW),
        Err(ReconcileError::MalformedResponse("yesterday".to_string()))
    );
}

#[test]
fn query_errors_fail_the_scan() {
    let p = PageResponse {
        data: Some(vec![entry("/posts/x", "2024-03-08T10:00:00Z", "https://gh/d/1")]),
        page_info: PageInfo { end_cursor: None },
        errors: vec!["rate limited".to_string()],
    };
    assert_eq!(
        find_existing(&p, &key("/posts/x"), NOW),
        Err(ReconcileError::RemoteQueryFailure(vec!["rate limited".to_string()]))
    );
}

#[test]
fn missing_data_fails_the_scan() {
    let p: PageResponse<DiscussionEntry> = PageResponse { data: None, page_info: PageInfo { end_cursor: None }, errors: vec![] };
    assert_eq!(
        find_existing(&p, &key("/posts/x"), NOW),
        Err(ReconcileError::RemoteQueryFailure(vec![]))
    );
}

#[test]
fn judge_entry_verdicts() {
    let t = "/posts/x".to_string();
    let k = key("/posts/x");
    assert_eq!(judge_entry(&t, Some(NOW - LOOKBACK_SECS), &k, NOW), Verdict::Match);
    assert_eq!(judge_entry(&t, Some(NOW - LOOKBACK_SECS - 1), &k, NOW), Verdict::Stale);
    assert_eq!(judge_entry(&t, Some(NOW), &key("/posts/y"), NOW), Verdict::Continue);
    assert_eq!(judge_entry(&t, None, &k, NOW), Verdict::Malformed);
    assert_eq!(judge_entry(&t, Some(i64::MIN), &k, i64::MAX), Verdict::Stale);
}
