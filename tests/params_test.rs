use rsolr::command::Command;
use rsolr::params::Params;

#[test]
fn params_test_build_a_url_from_parameters() {
    let mut params = Params::new("http://host:8983", "collection");
    params.request_handler("request_handler").query("*:*");

    let url_string = params.get_url();
    assert_eq!(url_string, "http://host:8983/solr/collection/request_handler?query=*%3A*");
}

#[test]
fn params_test_build_a_url_from_parameters_set_autocommit() {
    let mut params = Params::new("http://host:8983", "collection");
    params.request_handler("request_handler").auto_commit();

    let url_string = params.get_url();
    assert_eq!(url_string, "http://host:8983/solr/collection/request_handler?commit=true");
}

#[test]
fn command_test_build_a_url_from_parameters() {
    let mut params = Command::new("http://host:8983", "collection");
    params.request_handler("request_handler").query("*:*");

    let url_string = params.generate_url_str();
    assert_eq!(url_string, "http://host:8983/solr/collection/request_handler?q=*%3A*");
}

#[test]
fn command_test_build_a_url_from_parameters_set_autocommit() {
    let mut params = Command::new("http://host:8983", "collection");
    params.request_handler("request_handler").auto_commit();

    let url_string = params.generate_url_str();
    assert_eq!(url_string, "http://host:8983/solr/collection/request_handler?commit=true");
}

#[test]
fn command_handler_segments_accumulate() {
    let mut command = Command::new("http://host:8983", "collection");
    command.request_handler("update").request_handler("json");
    assert_eq!(command.generate_url_str(), "http://host:8983/solr/collection/update/json");
}

#[test]
fn params_url_is_stable_across_calls() {
    let mut params = Params::new("http://host:8983", "collection");
    params.request_handler("select").add_query_param("rows", "5");
    let first = params.get_url();
    assert_eq!(first, params.get_url());
}

fn docs_of(found: Option<rsolr::wire::JsonFound>) -> serde_json::Value {
    match found {
        Some(rsolr::wire::JsonFound::Value(text)) => serde_json::from_str(&text).unwrap(),
        other => panic!("documents expected, got {:?}", other),
    }
}

#[test]
fn test_run_calls_get_with_url() {
    let mut command = Command::new("http://localhost:8983", "default");
    command.request_handler("select").query("*:*");
    assert_eq!(command.generate_url_str(), "http://localhost:8983/solr/default/select?q=*%3A*");
    let result = command.handle_response(Ok(rsolr::HttpReply {
        status: 200,
        body: Some(r#"{"response": {"docs": [{"success": true}]}}"#.to_string()),
    }));
    assert!(result.is_ok());
    assert_eq!(docs_of(result.unwrap())[0]["success"], true);
}

#[test]
fn test_run_calls_post_with_url_and_body() {
    let mut command = Command::new("http://localhost:8983", "default");
    command.request_handler("update/json/docs").auto_commit();
    assert_eq!(
        command.generate_url_str(),
        "http://localhost:8983/solr/default/update%2Fjson%2Fdocs?commit=true"
    );
    let result = command.handle_response(Ok(rsolr::HttpReply {
        status: 200,
        body: Some(r#"{"response": {"docs": [{"success": true}]}}"#.to_string()),
    }));
    assert!(result.is_ok());
    assert_eq!(docs_of(result.unwrap())[0]["success"], true);
}

#[test]
fn command_reply_without_docs_is_none() {
    let command = Command::new("http://localhost:8983", "default");
    let result = command.handle_response(Ok(rsolr::HttpReply { status: 200, body: Some("{}".to_string()) }));
    assert!(result.unwrap().is_none());
    let bad = command.handle_response(Ok(rsolr::HttpReply { status: 200, body: Some("oops".to_string()) }));
    assert!(matches!(bad, Err(rsolr::RSolrError::Other { status: 200, .. })));
    let missing = command.handle_response(Ok(rsolr::HttpReply { status: 404, body: None }));
    assert!(matches!(missing, Err(rsolr::RSolrError::NotFound)));
}
