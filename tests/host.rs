use noematic::message::{
    CorrelationId, InnerText, MessageVersion, Query, RemoveRequestPayload, Request, RequestAction,
    Response, ResponseAction, SaveRequestPayload, SearchRequestPayload, Title, Url,
};
use noematic::context::search_responses;
use noematic::message::{SearchResponseSitePayload, Snippet};
use noematic::{handle_request, ConnectionMode, Context, HostError};

const CORRELATION_ID: &str = "218ecc9f-a91a-4b55-8b50-2b6672daa9a5";
const WIKI: &str = "https://en.wikipedia.org/wiki/Foobar";

fn save(url: &str, title: &str, inner_text: &str) -> Request {
    Request {
        version: MessageVersion::expected(),
        action: RequestAction::SaveRequest {
            payload: SaveRequestPayload {
                url: Url::new(url.to_string()),
                title: Title::new(title.to_string()),
                inner_text: InnerText::new(inner_text.to_string()),
            },
        },
        correlation_id: CorrelationId::new(CORRELATION_ID.to_string()),
    }
}

fn remove(url: &str) -> Request {
    Request {
        version: MessageVersion::expected(),
        action: RequestAction::RemoveRequest {
            payload: RemoveRequestPayload { url: Url::new(url.to_string()) },
        },
        correlation_id: CorrelationId::new(CORRELATION_ID.to_string()),
    }
}

fn search_with_id(query: &str, page_num: usize, page_length: usize, id: &str) -> Request {
    Request {
        version: MessageVersion::expected(),
        action: RequestAction::SearchRequest {
            payload: SearchRequestPayload {
                query: Query::new(query.to_string()),
                page_num,
                page_length,
            },
        },
        correlation_id: CorrelationId::new(id.to_string()),
    }
}

fn search(query: &str, page_num: usize, page_length: usize) -> Request {
    search_with_id(query, page_num, page_length, CORRELATION_ID)
}

fn assert_envelope(response: &Response, id: &str) {
    assert_eq!(response.version.major(), 0);
    assert_eq!(response.version.minor(), 1);
    assert_eq!(response.version.patch(), 0);
    assert!(response.version.is_expected());
    assert_eq!(response.correlation_id.as_str(), id);
}

fn assert_save_response(responses: &[Response]) {
    assert_eq!(responses.len(), 1);
    assert_envelope(&responses[0], CORRELATION_ID);
    assert!(matches!(responses[0].action, ResponseAction::SaveResponse { .. }));
}

fn header(response: &Response) -> (String, usize, usize, bool) {
    match &response.action {
        ResponseAction::SearchResponseHeader { payload } => (
            payload.query.as_str().to_string(),
            payload.page_num,
            payload.page_length,
            payload.has_more,
        ),
        other => panic!("expected a search header, got {:?}", other),
    }
}

fn site(response: &Response) -> (String, String, String) {
    match &response.action {
        ResponseAction::SearchResponseSite { payload } => (
            payload.url.as_str().to_string(),
            payload.title.as_str().to_string(),
            payload.snippet.as_str().to_string(),
        ),
        other => panic!("expected a search result, got {:?}", other),
    }
}

fn run(context: &mut Context, request: Request) -> Vec<Response> {
    handle_request(context, request).expect("request failed")
}

#[test]
fn cli_tests_test_save() {
    let mut context = Context::in_memory().unwrap();
    let responses = run(&mut context, save(WIKI, "Title", "Inner text"));
    assert_save_response(&responses);
}

#[test]
fn basic_test_save() {
    let mut context = Context::in_memory().unwrap();
    let responses = run(&mut context, save(WIKI, "Title", "Inner text"));
    assert_save_response(&responses);
}

#[test]
fn cli_tests_test_search() {
    let mut context = Context::in_memory().unwrap();
    let responses = run(&mut context, save(WIKI, "Title", "Foo bar baz quux"));
    assert_save_response(&responses);

    let responses = run(&mut context, search("quux", 0, 10));
    assert_eq!(responses.len(), 2);
    assert_envelope(&responses[0], CORRELATION_ID);
    assert_eq!(header(&responses[0]), ("quux".to_string(), 0, 1, false));
    assert_envelope(&responses[1], CORRELATION_ID);
    assert_eq!(
        site(&responses[1]),
        (WIKI.to_string(), "Title".to_string(), "Foo bar baz <b>quux</b>".to_string())
    );
}

#[test]
fn cli_tests_test_search_quotation() {
    let mut context = Context::in_memory().unwrap();
    let responses = run(&mut context, save(WIKI, "Title", "foo bar baz quux"));
    assert_save_response(&responses);

    let query = "\"\"foo-\"***bar\"\"";
    let responses = run(&mut context, search(query, 0, 10));
    assert_eq!(responses.len(), 2);
    assert_eq!(header(&responses[0]), (query.to_string(), 0, 1, false));
    assert_eq!(
        site(&responses[1]),
        (WIKI.to_string(), "Title".to_string(), "<b>foo</b> <b>bar</b> baz quux".to_string())
    );
}

#[test]
fn cli_tests_search_idempotent() {
    let mut context = Context::in_memory().unwrap();
    let responses = run(&mut context, save(WIKI, "Title", "Foo bar baz quux"));
    assert_save_response(&responses);

    for _ in 0..2 {
        let responses = run(&mut context, search("quux", 0, 10));
        assert_eq!(responses.len(), 2);
        assert_eq!(header(&responses[0]), ("quux".to_string(), 0, 1, false));
        assert_eq!(
            site(&responses[1]),
            (WIKI.to_string(), "Title".to_string(), "Foo bar baz <b>quux</b>".to_string())
        );
    }
}

#[test]
fn test_remove() {
    let mut context = Context::in_memory().unwrap();
    let _ = run(&mut context, save(WIKI, "Title", "Inner text"));

    let responses = run(&mut context, remove(WIKI));
    assert_eq!(responses.len(), 1);
    assert_envelope(&responses[0], CORRELATION_ID);
    assert!(matches!(responses[0].action, ResponseAction::RemoveResponse { .. }));

    let responses = run(&mut context, search("quux", 0, 10));
    assert_eq!(responses.len(), 1);
    assert_eq!(header(&responses[0]), ("quux".to_string(), 0, 0, false));
}

#[test]
fn in_memory_context_reports_its_mode() {
    let context = Context::in_memory().unwrap();
    assert_eq!(context.mode(), ConnectionMode::InMemory);
}

#[test]
fn saving_twice_keeps_one_page_and_answers_alike() {
    let mut context = Context::in_memory().unwrap();
    let first = run(&mut context, save(WIKI, "Title", "alpha beta"));
    let second = run(&mut context, save(WIKI, "Title", "alpha beta"));
    assert_save_response(&first);
    assert_save_response(&second);

    let responses = run(&mut context, search("alpha", 0, 10));
    assert_eq!(header(&responses[0]), ("alpha".to_string(), 0, 1, false));
    assert_eq!(responses.len(), 2);
}

#[test]
fn saving_again_replaces_title_and_text() {
    let mut context = Context::in_memory().unwrap();
    let _ = run(&mut context, save(WIKI, "Old title", "alpha"));
    let _ = run(&mut context, save(WIKI, "New title", "beta"));

    let responses = run(&mut context, search("alpha", 0, 10));
    assert_eq!(header(&responses[0]), ("alpha".to_string(), 0, 0, false));
    assert_eq!(responses.len(), 1);

    let responses = run(&mut context, search("beta", 0, 10));
    assert_eq!(header(&responses[0]), ("beta".to_string(), 0, 1, false));
    assert_eq!(
        site(&responses[1]),
        (WIKI.to_string(), "New title".to_string(), "<b>beta</b>".to_string())
    );
}

#[test]
fn removing_a_matched_page_hides_it() {
    let mut context = Context::in_memory().unwrap();
    let _ = run(&mut context, save(WIKI, "Title", "Foo bar baz quux"));
    let responses = run(&mut context, search("quux", 0, 10));
    assert_eq!(header(&responses[0]), ("quux".to_string(), 0, 1, false));

    let _ = run(&mut context, remove(WIKI));
    let responses = run(&mut context, search("quux", 0, 10));
    assert_eq!(responses.len(), 1);
    assert_eq!(header(&responses[0]), ("quux".to_string(), 0, 0, false));
}

#[test]
fn removing_an_unknown_url_is_no_error() {
    let mut context = Context::in_memory().unwrap();
    let responses = run(&mut context, remove("https://example.org/nowhere"));
    assert_eq!(responses.len(), 1);
    assert!(matches!(responses[0].action, ResponseAction::RemoveResponse { .. }));
}

fn save_three(context: &mut Context) {
    for i in 0..3 {
        let url = format!("https://example.org/{}", i);
        let _ = run(context, save(&url, "Page", "common words here"));
    }
}

#[test]
fn pages_report_more_while_matches_remain() {
    let mut context = Context::in_memory().unwrap();
    save_three(&mut context);

    let responses = run(&mut context, search("common", 0, 2));
    assert_eq!(header(&responses[0]), ("common".to_string(), 0, 2, true));
    assert_eq!(responses.len(), 3);

    let responses = run(&mut context, search("common", 1, 2));
    assert_eq!(header(&responses[0]), ("common".to_string(), 1, 1, false));
    assert_eq!(responses.len(), 2);

    let responses = run(&mut context, search("common", 0, 3));
    assert_eq!(header(&responses[0]), ("common".to_string(), 0, 3, false));
    assert_eq!(responses.len(), 4);

    let responses = run(&mut context, search("common", 5, 3));
    assert_eq!(header(&responses[0]), ("common".to_string(), 5, 0, false));
    assert_eq!(responses.len(), 1);
}

#[test]
fn empty_page_never_reports_more() {
    let mut context = Context::in_memory().unwrap();
    save_three(&mut context);
    let responses = run(&mut context, search("common", 0, 0));
    assert_eq!(header(&responses[0]), ("common".to_string(), 0, 0, false));
    assert_eq!(responses.len(), 1);
}

#[test]
fn page_beyond_the_engine_is_refused() {
    let mut context = Context::in_memory().unwrap();
    let r = handle_request(&mut context, search("common", 0, usize::MAX));
    assert!(matches!(r, Err(HostError::PageOutOfRange)));
    let r = handle_request(&mut context, search("common", usize::MAX, 2));
    assert!(matches!(r, Err(HostError::PageOutOfRange)));
}

#[test]
fn every_response_carries_the_correlation_id() {
    let mut context = Context::in_memory().unwrap();
    save_three(&mut context);
    let responses = run(&mut context, search_with_id("common", 0, 10, "abc-123"));
    assert_eq!(responses.len(), 4);
    for response in &responses {
        assert_envelope(response, "abc-123");
    }
}

#[test]
fn end_to_end_save_then_search() {
    let mut context = Context::in_memory().unwrap();
    let responses = run(&mut context, save("https://example.org/x", "Title", "Foo bar baz quux"));
    assert_save_response(&responses);
    let responses = run(&mut context, search("quux", 0, 10));
    assert_eq!(responses.len(), 2);
    assert_eq!(header(&responses[0]), ("quux".to_string(), 0, 1, false));
    assert_eq!(
        site(&responses[1]),
        (
            "https://example.org/x".to_string(),
            "Title".to_string(),
            "Foo bar baz <b>quux</b>".to_string()
        )
    );
}

#[test]
fn storage_failure_yields_no_responses() {
    let mut context = Context::in_memory().unwrap();
    let _ = run(&mut context, save(WIKI, "Title", "and or not"));
    let r = handle_request(&mut context, search("AND", 0, 10));
    assert!(matches!(r, Err(HostError::Storage(_))));
}

#[test]
fn search_frames_carry_the_results_in_order() {
    let found: Vec<SearchResponseSitePayload> = (0..3)
        .map(|i| SearchResponseSitePayload {
            url: Url::new(format!("u{}", i)),
            title: Title::new(format!("t{}", i)),
            snippet: Snippet::new(format!("s{}", i)),
        })
        .collect();
    let responses = search_responses(
        &MessageVersion::expected(),
        &CorrelationId::new("c".to_string()),
        &Query::new("q!".to_string()),
        4,
        found,
        true,
    );
    assert_eq!(responses.len(), 4);
    assert_eq!(header(&responses[0]), ("q!".to_string(), 4, 3, true));
    for (i, response) in responses[1..].iter().enumerate() {
        assert_envelope(response, "c");
        assert_eq!(site(response), (format!("u{}", i), format!("t{}", i), format!("s{}", i)));
    }
}

#[test]
fn fresh_context_is_empty() {
    let mut context = Context::in_memory().unwrap();
    let responses = run(&mut context, search("anything", 0, 10));
    assert_eq!(header(&responses[0]), ("anything".to_string(), 0, 0, false));
}
