use rsolr::{Client, HttpReply};

fn page_with_mark(mark: &str) -> Result<HttpReply, String> {
    Ok(HttpReply {
        status: 200,
        body: Some(format!(
            r#"{{"response": {{"numFound": 3,"numFoundExact": true,"start": 0,"docs": []}}, "nextCursorMark": "{}"}}"#,
            mark
        )),
    })
}

#[test]
fn cursor_pages_until_mark_repeats() {
    let mut client = Client::new("http://h:8983", "c");
    client.select("*:*").sort("id asc").cursor();
    assert_eq!(client.url_str(), "http://h:8983/solr/c/select?q=*%3A*&sort=id+asc&cursorMark=*");
    let mut cursor = client.complete(page_with_mark("B")).expect("Ok expected").expect("cursor expected");
    assert_eq!(client.url_str(), "http://h:8983/solr/c/select");

    let first = cursor.next_request().expect("request expected");
    assert_eq!(first.url, "http://h:8983/solr/c/select?q=*%3A*&sort=id+asc&cursorMark=B");
    assert!(cursor.complete_page(page_with_mark("C")).expect("Ok expected").is_some());

    let second = cursor.next_request().expect("request expected");
    assert_eq!(second.url, "http://h:8983/solr/c/select?q=*%3A*&sort=id+asc&cursorMark=C");
    assert!(cursor.complete_page(page_with_mark("C")).expect("Ok expected").is_none());
    assert!(cursor.is_exhausted());

    assert!(cursor.next_request().is_none());
    assert!(cursor.next_request().is_none());
}

#[test]
fn cursor_failure_allows_retry() {
    let mut client = Client::new("http://h:8983", "c");
    client.select("*:*").cursor();
    let mut cursor = client.complete(page_with_mark("B")).unwrap().unwrap();
    let request = cursor.next_request().unwrap();
    assert!(cursor.complete_page(Err("timeout".to_string())).is_err());
    assert!(!cursor.is_exhausted());
    let again = cursor.next_request().unwrap();
    assert_eq!(again.url, request.url);
    assert!(cursor.complete_page(page_with_mark("D")).unwrap().is_some());
}

#[test]
fn cursor_ends_when_mark_is_missing() {
    let mut client = Client::new("http://h:8983", "c");
    client.select("*:*").cursor();
    let mut cursor = client.complete(page_with_mark("B")).unwrap().unwrap();
    cursor.next_request().unwrap();
    let reply = Ok(HttpReply { status: 200, body: Some(r#"{"response": null}"#.to_string()) });
    assert!(cursor.complete_page(reply).unwrap().is_none());
    assert!(cursor.next_request().is_none());
}

#[test]
fn cursor_keeps_first_response_until_next_page() {
    let mut client = Client::new("http://h:8983", "c");
    client.select("*:*").cursor();
    let cursor = client.complete(page_with_mark("B")).unwrap().unwrap();
    assert!(cursor.last_response().unwrap().contains("\"B\""));
}
