use data_ingester::headers::HeaderField;
use data_ingester::paging::{next_link_url, AdoPaging, GithubNextLink, Pagination, PagingError};
use data_ingester::resolve::ResponseShape;

fn header(name: &str, value: &str) -> HeaderField {
    HeaderField { name: name.to_string(), value: Some(value.to_string()) }
}

fn empty_shape() -> ResponseShape {
    ResponseShape::resolve(serde_json::from_str("{}").unwrap())
}

#[test]
fn test_github_links() {
    let header = "<https://api.github.com/repositories/123456789/dependabot/alerts?per_page=1&page=2>; rel=\"next\", <https://api.github.com/repositories/123456789/dependabot/alerts?per_page=1&page=5>; rel=\"last\"";

    let next = GithubNextLink::from_link_str(header);
    assert!(next.next.is_some());
    assert_eq!(
        next.next.unwrap(),
        "/repositories/123456789/dependabot/alerts?per_page=1&page=2".to_string()
    );
}

#[test]
fn link_header_next_path_is_path_and_query() {
    let header = "<https://api.x.com/repos/1/alerts?per_page=1&page=2>; rel=\"next\", <https://api.x.com/repos/1/alerts?per_page=1&page=9>; rel=\"last\"";
    let next = GithubNextLink::from_link_str(header);
    assert_eq!(next.next.as_deref(), Some("/repos/1/alerts?per_page=1&page=2"));
}

#[test]
fn link_header_whole_url_is_kept_by_the_grammar() {
    let header = "<https://api.x.com/repos/1/alerts?page=2>; rel=\"next\"";
    assert_eq!(next_link_url(header).as_deref(), Some("https://api.x.com/repos/1/alerts?page=2"));
}

#[test]
fn link_header_takes_next_not_first() {
    let header = "<https://api.x.com/a?page=1>; rel=\"prev\", <https://api.x.com/a?page=3>; rel=\"next\"";
    assert_eq!(next_link_url(header).as_deref(), Some("https://api.x.com/a?page=3"));
    assert_eq!(GithubNextLink::from_link_str(header).next.as_deref(), Some("/a?page=3"));
}

#[test]
fn link_header_without_next_ends_paging() {
    let header = "<https://api.x.com/a?page=1>; rel=\"prev\", <https://api.x.com/a?page=1>; rel=\"first\"";
    assert_eq!(next_link_url(header), None);
    assert!(GithubNextLink::from_link_str(header).next.is_none());
    assert_eq!(next_link_url("<>; rel=\"next\""), None);
    assert_eq!(next_link_url(""), None);
}

#[test]
fn github_next_link_from_str_keeps_url() {
    assert_eq!(GithubNextLink::from_str("/orgs/x/members").next.as_deref(), Some("/orgs/x/members"));
}

#[test]
fn from_response_reads_link_in_any_case() {
    let headers = vec![header("Content-Type", "application/json"), header("Link", "<https://api.github.com/orgs/x/members?page=2>; rel=\"next\"")];
    let next = GithubNextLink::from_response(&headers).ok().unwrap();
    assert_eq!(next.next.as_deref(), Some("/orgs/x/members?page=2"));

    let none = GithubNextLink::from_response(&vec![header("Content-Type", "application/json")]).ok().unwrap();
    assert!(none.next.is_none());
}

#[test]
fn from_response_fails_on_unreadable_link() {
    let headers = vec![HeaderField { name: "link".to_string(), value: None }];
    assert!(GithubNextLink::from_response(&headers).is_err());
}

#[test]
fn ado_paging_reads_continuation_token() {
    let paging = AdoPaging::from_headers(&vec![header("x-ms-continuationtoken", "abc123")]);
    assert!(paging.has_more());
    assert!(!paging.is_empty());
    assert_eq!(paging.next_token(), "abc123");

    let done = AdoPaging::from_headers(&vec![]);
    assert!(!done.has_more());
    assert!(done.is_empty());
    assert_eq!(done.next_token(), "NOTOKEN");
}

#[test]
fn cursor_per_strategy() {
    let headers = vec![
        header("Link", "<https://api.github.com/x?page=2>; rel=\"next\""),
        header("X-MS-ContinuationToken", "tok"),
    ];
    let shape = empty_shape();
    let link = Pagination::LinkHeader.next_cursor(&headers, &shape).ok().unwrap();
    assert_eq!(link.next.as_deref(), Some("/x?page=2"));
    let token = Pagination::ContinuationToken.next_cursor(&headers, &shape).ok().unwrap();
    assert_eq!(token.next.as_deref(), Some("tok"));
    let embedded = Pagination::EmbeddedLink.next_cursor(&headers, &shape).ok().unwrap();
    assert!(embedded.next.is_none());
}

#[test]
fn embedded_next_link_is_not_followed() {
    let body = serde_json::from_str(r#"{"value": [{"id": 1}], "nextLink": "https://management.azure.com/next"}"#).unwrap();
    let shape = ResponseShape::resolve(body);
    match Pagination::EmbeddedLink.next_cursor(&vec![], &shape) {
        Err(PagingError::NotImplemented { link }) => assert_eq!(link, "https://management.azure.com/next"),
        _ => panic!("an embedded next link must stop paging"),
    }
    assert!(matches!(
        Pagination::LinkHeader.next_cursor(&vec![], &ResponseShape::resolve(serde_json::from_str(r#"{"value": [], "@odata.nextLink": "n"}"#).unwrap())),
        Err(PagingError::NotImplemented { .. })
    ));
}

#[test]
fn null_next_link_is_terminal() {
    let body = serde_json::from_str(r#"{"value": [1, 2], "nextLink": null}"#).unwrap();
    let shape = ResponseShape::resolve(body);
    let cursor = Pagination::EmbeddedLink.next_cursor(&vec![], &shape).ok().unwrap();
    assert!(cursor.next.is_none());
    let items = shape.items();
    assert_eq!(items, vec![serde_json::Value::from(1), serde_json::Value::from(2)]);
}
