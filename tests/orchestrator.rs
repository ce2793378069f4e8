use rss_autogen_giscus::category::{resolve_category_id, CategoryEntry};
use rss_autogen_giscus::creation::{prepare, CreatedDiscussion, CreationResponse};
use rss_autogen_giscus::error::ReconcileError;
use rss_autogen_giscus::finder::{find_existing, DiscussionEntry};
use rss_autogen_giscus::orchestrator::{Action, Phase, Reconciliation};
use rss_autogen_giscus::post::{MatchKey, Post, PostUrl};
use rss_autogen_giscus::repository::resolve_repository_id;
use rss_autogen_giscus::response::{DateTime, PageInfo, PageResponse, Uri};

const NOW: i64 = 1709899200; // 2024-03-08T12:00:00Z

fn the_post() -> Post {
    Post::new(
        PostUrl::parse("https://example.com/posts/x").unwrap(),
        Some("X".to_string()),
        Some("Hello world".to_string()),
    )
}

fn categories() -> PageResponse<CategoryEntry> {
    PageResponse {
        data: Some(vec![
            Some(CategoryEntry { id: "C1".to_string(), name: "Announcements".to_string() }),
            Some(CategoryEntry { id: "C2".to_string(), name: "Blogs".to_string() }),
        ]),
        page_info: PageInfo { end_cursor: None },
        errors: vec![],
    }
}

fn discussions(title: &str) -> PageResponse<DiscussionEntry> {
    PageResponse {
        data: Some(vec![Some(DiscussionEntry {
            title: title.to_string(),
            created_at: DateTime("2024-03-08T09:00:00Z".to_string()),
            url: Uri("https://github.com/me/site/discussions/3".to_string()),
        })]),
        page_info: PageInfo { end_cursor: None },
        errors: vec![],
    }
}

fn prepared(post: &Post) -> Result<rss_autogen_giscus::creation::CreationRequest, ReconcileError> {
    prepare(
        post,
        resolve_repository_id(r#"{"id":"R1"}"#),
        resolve_category_id(&categories(), &"Blogs".to_string()),
    )
}

#[test]
fn end_to_end_success() {
    let post = the_post();
    let key = post.match_key(MatchKey::UrlPath);
    let scan = find_existing(&discussions("/posts/old"), &key, NOW);
    let mut run = Reconciliation::new();
    assert_eq!(run.phase, Phase::Checking);
    let request = match run.on_lookups(scan, prepared(&post)) {
        Action::Submit(r) => r,
        Action::Stop(e) => panic!("stopped: {:?}", e),
    };
    assert_eq!(run.phase, Phase::Creating);
    assert_eq!(request.repository_id, "R1");
    assert_eq!(request.category_id, "C2");
    assert_eq!(request.body, "Hello world\n\nhttps://example.com/posts/x");
    assert_eq!(request.title, "/posts/x");
    let response = CreationResponse {
        discussion: Some(CreatedDiscussion {
            id: "D_9".to_string(),
            title: "/posts/x".to_string(),
            url: Uri("https://github.com/me/site/discussions/9".to_string()),
        }),
        errors: vec![],
    };
    let done = run.on_submitted(&request, response).unwrap();
    assert_eq!(run.phase, Phase::Done);
    assert_eq!(done.title, "/posts/x");
    assert_eq!(done.url.0, "https://github.com/me/site/discussions/9");
}

#[test]
fn duplicate_is_not_created() {
    let post = the_post();
    let key = post.match_key(MatchKey::UrlPath);
    let scan = find_existing(&discussions("/posts/x"), &key, NOW);
    let mut run = Reconciliation::new();
    match run.on_lookups(scan, prepared(&post)) {
        Action::Submit(_) => panic!("a duplicate was submitted"),
        Action::Stop(e) => assert_eq!(
            e,
            ReconcileError::DuplicateDiscussion("https://github.com/me/site/discussions/3".to_string())
        ),
    }
    assert_eq!(run.phase, Phase::Aborted);
}

#[test]
fn scan_failure_propagates() {
    let post = the_post();
    let scan = Err(ReconcileError::TransportFailure("connection reset".to_string()));
    let mut run = Reconciliation::new();
    match run.on_lookups(scan, prepared(&post)) {
        Action::Submit(_) => panic!("submitted after a failed scan"),
        Action::Stop(e) => {
            assert_eq!(e, ReconcileError::TransportFailure("connection reset".to_string()))
        }
    }
    assert_eq!(run.phase, Phase::Failed);
}

#[test]
fn preparation_failure_stops() {
    let post = the_post();
    let key = post.match_key(MatchKey::UrlPath);
    let scan = find_existing(&discussions("/posts/old"), &key, NOW);
    let cats = resolve_category_id(&categories(), &"Polls".to_string());
    let mut run = Reconciliation::new();
    match run.on_lookups(scan, prepare(&post, Ok("R1".to_string()), cats)) {
        Action::Submit(_) => panic!("submitted without a category"),
        Action::Stop(e) => assert_eq!(e, ReconcileError::CategoryNotFound("Polls".to_string())),
    }
    assert_eq!(run.phase, Phase::Failed);
}

#[test]
fn failed_creation_ends_in_failed() {
    let post = the_post();
    let mut run = Reconciliation::new();
    let request = match run.on_lookups(Ok(None), prepared(&post)) {
        Action::Submit(r) => r,
        Action::Stop(e) => panic!("stopped: {:?}", e),
    };
    let response = CreationResponse { discussion: None, errors: vec!["forbidden".to_string()] };
    assert_eq!(
        run.on_submitted(&request, response).unwrap_err(),
        ReconcileError::CreationFailure(vec!["forbidden".to_string()])
    );
    assert_eq!(run.phase, Phase::Failed);
}
