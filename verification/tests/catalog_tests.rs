use gov_data::ckan::extract_resource_formats_and_urls;
use gov_data::ckan::maybe_truncate_for_test_mode;
use gov_data::ckan::CkanDataset;
use gov_data::ckan::CkanOrganization;
use gov_data::ckan::CkanResource;
use gov_data::ckan::PackageListResponse;
use gov_data::ckan::PackageShowResponse;
use gov_data::config::Config;
use gov_data::config::Environment;
use gov_data::error::AppError;
use gov_data::fetch::dataset_ids_from_listing;
use gov_data::fetch::detail_url;
use gov_data::fetch::is_success;
use gov_data::fetch::outcome_of_payload;
use gov_data::fetch::outcome_of_reply;
use gov_data::fetch::DetailReply;
use gov_data::fetch::FetchOutcome;
use gov_data::json::parse_json;
use gov_data::json::Json;
use gov_data::json::Member;
use gov_data::DatasetMetadata;

const DETAIL: &str = r#"{ "result": { "id": "abc", "title": "Test", "notes": "desc", "license_title": "Open", "organization": { "title": "Org" }, "metadata_created": "2020-01-01", "metadata_modified": "2020-01-02", "resources": [] } }"#;

fn resource(format: Option<&str>, url: Option<&str>) -> CkanResource {
    CkanResource { format: format.map(|s| s.to_string()), url: url.map(|s| s.to_string()) }
}

fn dataset(notes: &str, resources: Vec<CkanResource>) -> CkanDataset {
    CkanDataset {
        id: "abc".to_string(),
        title: "Test".to_string(),
        notes: notes.to_string(),
        license_title: "Open".to_string(),
        organization: CkanOrganization { title: "Org".to_string() },
        metadata_created: "2020-01-01".to_string(),
        metadata_modified: "2020-01-02".to_string(),
        resources,
    }
}

fn member(key: &str, value: Json) -> Member {
    Member { key: key.to_string(), value }
}

fn text(s: &str) -> Json {
    Json::Text(s.to_string())
}

#[test]
fn test_parse_package_list_response() {
    // Test that a valid package list response is parsed into the struct.
    let data = serde_json::Value::Object(
        [(
            "result".to_string(),
            serde_json::Value::Array(vec![
                serde_json::Value::String("dataset1".to_string()),
                serde_json::Value::String("dataset2".to_string()),
            ]),
        )]
        .into_iter()
        .collect(),
    );
    let parsed = PackageListResponse::parse(&data.to_string()).unwrap();
    assert_eq!(parsed.result, vec!["dataset1", "dataset2"]);
}

#[test]
fn test_parse_package_show_response_none() {
    // Test that a null result is handled as None.
    let data = serde_json::Value::Object(
        [("result".to_string(), serde_json::Value::Null)].into_iter().collect(),
    );
    let parsed = PackageShowResponse::parse(&data.to_string()).unwrap();
    assert!(parsed.result.is_none());
}

#[test]
fn test_parse_package_show_response_some() {
    // Test that a valid result is parsed and fields are accessible.
    let json = parse_json(DETAIL).unwrap();
    let result = json.get("result");
    assert!(result.is_some());
    let result = result.unwrap();
    assert_eq!(result.get("id").unwrap().as_str(), Some("abc"));
    assert_eq!(result.get("title").unwrap().as_str(), Some("Test"));
}

#[test]
fn tests_test_parse_package_list_response() {
    // Test that a valid package list response is parsed into the struct.
    let parsed = PackageListResponse::parse(r#"{ "result": ["dataset1", "dataset2"] }"#).unwrap();
    assert_eq!(parsed.result, vec!["dataset1", "dataset2"]);
}

#[test]
fn tests_test_parse_package_show_response_none() {
    // Test that a null result is handled as None (no dataset metadata returned).
    let parsed = PackageShowResponse::parse(r#"{ "result": null }"#).unwrap();
    assert!(parsed.result.is_none());
}

#[test]
fn tests_test_parse_package_show_response_some() {
    // Test that a valid result is parsed and fields are accessible.
    let parsed = PackageShowResponse::parse(DETAIL).unwrap();
    assert!(parsed.result.is_some());
    let result = parsed.result.unwrap();
    assert_eq!(result.id, "abc");
    assert_eq!(result.title, "Test");
    assert_eq!(result.notes, "desc");
    assert_eq!(result.license_title, "Open");
    assert_eq!(result.organization.title, "Org");
    assert_eq!(result.metadata_created, "2020-01-01");
    assert_eq!(result.metadata_modified, "2020-01-02");
    assert!(result.resources.is_empty());
}

#[test]
fn test_fetch_dataset_list_success() {
    let config = Config::new(&Environment::default());
    let body = r#"{"result":["dataset1","dataset2"]}"#;
    let result = dataset_ids_from_listing(&config, body, false).unwrap();
    assert_eq!(result, vec!["dataset1", "dataset2"]);
}

#[test]
fn test_fetch_dataset_list_error() {
    // The body of an answer with status 500 is empty.
    let config = Config::new(&Environment::default());
    let result = dataset_ids_from_listing(&config, "", false);
    assert!(result.is_err());
}

#[test]
fn json_text_is_read_by_the_parser() {
    let json = parse_json(r#" {"a": [1, 2.5, "x", true, null, {"b": "c"}], "a2": -3e2} "#).unwrap();
    let items = json.get("a").unwrap().as_array().unwrap();
    assert_eq!(items.len(), 6);
    assert!(matches!(&items[0], Json::Number(n) if n == "1"));
    assert!(matches!(&items[1], Json::Number(n) if n == "2.5"));
    assert_eq!(items[2].as_str(), Some("x"));
    assert!(matches!(&items[3], Json::Bool(true)));
    assert!(items[4].is_null());
    assert_eq!(items[5].get("b").unwrap().as_str(), Some("c"));
    assert!(matches!(json.get("a2"), Some(Json::Number(_))));
    assert!(json.get("missing").is_none());
    assert!(json.get("A").is_none());
}

#[test]
fn json_escapes_are_resolved() {
    let json = parse_json(r#"{"kA": "line\nbreak \"q\" é"}"#).unwrap();
    assert_eq!(json.get("kA").unwrap().as_str(), Some("line\nbreak \"q\" \u{e9}"));
}

#[test]
fn text_that_is_not_json_is_an_error() {
    for body in ["", "{", "{\"result\": }", "nul", "{} {}", "<html></html>"] {
        assert!(matches!(parse_json(body), Err(AppError::SerdeJson(_))), "{:?}", body);
    }
}

#[test]
fn lookups_on_values_that_are_no_objects_find_nothing() {
    assert!(text("x").get("x").is_none());
    assert!(Json::Null.get("x").is_none());
    assert!(Json::Array(vec![text("x")]).get("x").is_none());
    assert_eq!(Json::Null.as_str(), None);
    assert!(Json::Null.as_array().is_none());
    assert!(!text("null").is_null());
    let object = Json::Object(vec![member("a", text("1")), member("b", text("2"))]);
    assert_eq!(object.get("b").unwrap().as_str(), Some("2"));
    assert_eq!(object.get("a").unwrap().as_str(), Some("1"));
}

#[test]
fn a_listing_must_be_an_array_of_strings() {
    for body in [
        r#"{}"#,
        r#"{"result": null}"#,
        r#"{"result": "dataset1"}"#,
        r#"{"result": ["a", 1]}"#,
        r#"{"result": [["a"]]}"#,
        r#"{"results": ["a"]}"#,
        r#"["a"]"#,
        r#""a""#,
    ] {
        match PackageListResponse::parse(body) {
            Err(AppError::SerdeJson(message)) => assert_eq!(
                message,
                "expected an object with an array of strings under `result`",
                "{:?}",
                body
            ),
            other => panic!("unexpected {:?} for {:?}", other, body),
        }
    }
    assert!(PackageListResponse::parse(r#"{"result": [], "success": true}"#).unwrap().result.is_empty());
}

#[test]
fn a_listing_keeps_the_order_of_the_catalog() {
    let parsed = PackageListResponse::parse(r#"{"result": ["b", "a", "c", "a"]}"#).unwrap();
    assert_eq!(parsed.result, vec!["b", "a", "c", "a"]);
}

#[test]
fn missing_fields_of_a_detail_are_empty() {
    let parsed = PackageShowResponse::parse(r#"{"result": {"id": "only"}}"#).unwrap();
    let dataset = parsed.result.unwrap();
    assert_eq!(dataset.id, "only");
    assert_eq!(dataset.title, "");
    assert_eq!(dataset.notes, "");
    assert_eq!(dataset.license_title, "");
    assert_eq!(dataset.organization.title, "");
    assert_eq!(dataset.metadata_created, "");
    assert_eq!(dataset.metadata_modified, "");
    assert!(dataset.resources.is_empty());
}

#[test]
fn fields_of_the_wrong_kind_are_empty() {
    let body = r#"{"result": {"id": 7, "title": null, "notes": ["x"], "organization": "Org",
        "resources": {"format": "CSV"}}}"#;
    let dataset = PackageShowResponse::parse(body).unwrap().result.unwrap();
    assert_eq!(dataset.id, "");
    assert_eq!(dataset.title, "");
    assert_eq!(dataset.notes, "");
    assert_eq!(dataset.organization.title, "");
    assert!(dataset.resources.is_empty());
    let body = r#"{"result": {"organization": {"title": 3}}}"#;
    assert_eq!(PackageShowResponse::parse(body).unwrap().result.unwrap().organization.title, "");
}

#[test]
fn a_detail_without_result_is_no_record() {
    assert!(PackageShowResponse::parse(r#"{}"#).unwrap().result.is_none());
    assert!(PackageShowResponse::parse(r#"{"success": false}"#).unwrap().result.is_none());
}

#[test]
fn a_detail_that_is_no_object_is_an_error() {
    for body in [r#"[]"#, r#"null"#, r#""x""#, r#"3"#] {
        match PackageShowResponse::parse(body) {
            Err(AppError::SerdeJson(message)) => assert_eq!(message, "expected an object"),
            other => panic!("unexpected {:?} for {:?}", other, body),
        }
    }
}

#[test]
fn resources_are_read_entry_by_entry() {
    let body = r#"{"result": {"resources": [
        {"format": "CSV", "url": "u1"},
        {"url": "u2"},
        {"format": "JSON", "url": null},
        {"format": 5},
        "odd"
    ]}}"#;
    let dataset = PackageShowResponse::parse(body).unwrap().result.unwrap();
    assert_eq!(dataset.resources.len(), 5);
    assert_eq!(dataset.resources[0].format.as_deref(), Some("CSV"));
    assert_eq!(dataset.resources[0].url.as_deref(), Some("u1"));
    assert_eq!(dataset.resources[1].format, None);
    assert_eq!(dataset.resources[1].url.as_deref(), Some("u2"));
    assert_eq!(dataset.resources[2].format.as_deref(), Some("JSON"));
    assert_eq!(dataset.resources[2].url, None);
    assert_eq!(dataset.resources[3].format, None);
    assert_eq!(dataset.resources[4].format, None);
    assert_eq!(dataset.resources[4].url, None);
}

#[test]
fn resources_are_flattened_in_order() {
    let dataset = dataset(
        "",
        vec![
            resource(Some("CSV"), Some("u1")),
            resource(None, Some("u2")),
            resource(Some("JSON"), None),
        ],
    );
    let (formats, urls) = extract_resource_formats_and_urls(&dataset);
    assert_eq!(formats, "CSV, JSON");
    assert_eq!(urls, vec!["u1", "u2"]);
}

#[test]
fn flattening_edge_cases() {
    let (formats, urls) = extract_resource_formats_and_urls(&dataset("", vec![]));
    assert_eq!(formats, "");
    assert!(urls.is_empty());
    let (formats, urls) = extract_resource_formats_and_urls(&dataset("", vec![resource(None, None)]));
    assert_eq!(formats, "");
    assert!(urls.is_empty());
    let (formats, urls) =
        extract_resource_formats_and_urls(&dataset("", vec![resource(Some("PDF"), None)]));
    assert_eq!(formats, "PDF");
    assert!(urls.is_empty());
    let (formats, urls) = extract_resource_formats_and_urls(&dataset(
        "",
        vec![resource(Some(""), Some("")), resource(Some("A"), Some("u")), resource(Some(""), None)],
    ));
    assert_eq!(formats, ", A, ");
    assert_eq!(urls, vec!["", "u"]);
}

#[test]
fn truncation_in_test_mode() {
    let ids: Vec<String> = (0..50).map(|i| format!("id{}", i)).collect();
    let kept = maybe_truncate_for_test_mode(ids.clone(), true, 20);
    assert_eq!(kept.len(), 20);
    assert_eq!(kept, ids[..20].to_vec());
    let ten: Vec<String> = ids[..10].to_vec();
    assert_eq!(maybe_truncate_for_test_mode(ten.clone(), true, 20), ten);
    assert_eq!(maybe_truncate_for_test_mode(ids.clone(), false, 20), ids);
    assert_eq!(maybe_truncate_for_test_mode(ids[..20].to_vec(), true, 20), ids[..20].to_vec());
    assert!(maybe_truncate_for_test_mode(ids.clone(), true, 0).is_empty());
    assert!(maybe_truncate_for_test_mode(Vec::<String>::new(), true, 20).is_empty());
}

#[test]
fn the_listing_is_capped_by_the_configured_sample_size() {
    let mut env = Environment::default();
    env.test_mode_dataset_limit = Some("2".to_string());
    let config = Config::new(&env);
    let body = r#"{"result": ["a", "b", "c"]}"#;
    assert_eq!(dataset_ids_from_listing(&config, body, true).unwrap(), vec!["a", "b"]);
    assert_eq!(dataset_ids_from_listing(&config, body, false).unwrap(), vec!["a", "b", "c"]);
    let body: String = format!(
        "{{\"result\": [{}]}}",
        (0..50).map(|i| format!("\"id{}\"", i)).collect::<Vec<_>>().join(",")
    );
    let config = Config::new(&Environment::default());
    let kept = dataset_ids_from_listing(&config, &body, true).unwrap();
    assert_eq!(kept.len(), 20);
    assert_eq!(kept[0], "id0");
    assert_eq!(kept[19], "id19");
}

#[test]
fn a_dataset_becomes_a_record() {
    let dataset = dataset("a<b>c</b>d", vec![resource(Some("CSV"), Some("u1"))]);
    let (record, urls) = DatasetMetadata::from_dataset(&dataset);
    assert_eq!(record.id, "abc");
    assert_eq!(record.title, "Test");
    assert_eq!(record.description, "acd");
    assert_eq!(record.license, "Open");
    assert_eq!(record.organization, "Org");
    assert_eq!(record.created, "2020-01-01");
    assert_eq!(record.modified, "2020-01-02");
    assert_eq!(record.format, "CSV");
    assert_eq!(urls, vec!["u1"]);
}

#[test]
fn the_detail_url_takes_the_identifier_as_it_is() {
    let config = Config::new(&Environment::default());
    assert_eq!(
        detail_url(&config, "my data&x=1"),
        "https://ckan.publishing.service.gov.uk/api/action/package_show?id=my data&x=1"
    );
    assert_eq!(
        detail_url(&config, ""),
        "https://ckan.publishing.service.gov.uk/api/action/package_show?id="
    );
}

#[test]
fn success_is_two_hundred_to_two_ninety_nine() {
    assert!(!is_success(199));
    assert!(is_success(200));
    assert!(is_success(204));
    assert!(is_success(299));
    assert!(!is_success(300));
    assert!(!is_success(404));
    assert!(!is_success(0));
    assert!(!is_success(u16::MAX));
}

#[test]
fn an_unanswered_request_fails_with_its_reason() {
    match outcome_of_reply(&DetailReply::Unanswered("operation timed out".to_string())) {
        FetchOutcome::Failed(reason) => assert_eq!(reason, "operation timed out"),
        other => panic!("unexpected {:?}", other),
    }
}

#[test]
fn a_bad_status_fails_with_the_status() {
    for (status, reason) in [(500u16, "HTTP status 500"), (404, "HTTP status 404"), (199, "HTTP status 199"), (0, "HTTP status 0"), (65535, "HTTP status 65535")] {
        let reply = DetailReply::Answered { status, body: DETAIL.to_string() };
        match outcome_of_reply(&reply) {
            FetchOutcome::Failed(text) => assert_eq!(text, reason),
            other => panic!("unexpected {:?}", other),
        }
    }
}

#[test]
fn a_null_result_is_not_found() {
    let reply = DetailReply::Answered { status: 200, body: r#"{"result": null}"#.to_string() };
    assert!(matches!(outcome_of_reply(&reply), FetchOutcome::NotFound));
    assert!(matches!(outcome_of_payload(&Json::Object(vec![])), FetchOutcome::NotFound));
    assert!(matches!(
        outcome_of_payload(&Json::Object(vec![member("result", Json::Null)])),
        FetchOutcome::NotFound
    ));
}

#[test]
fn a_body_that_cannot_be_read_fails() {
    let reply = DetailReply::Answered { status: 200, body: "<html>".to_string() };
    match outcome_of_reply(&reply) {
        FetchOutcome::Failed(reason) => assert!(reason.starts_with("Serde JSON error: ")),
        other => panic!("unexpected {:?}", other),
    }
    let reply = DetailReply::Answered { status: 200, body: "[1]".to_string() };
    match outcome_of_reply(&reply) {
        FetchOutcome::Failed(reason) => assert_eq!(reason, "Serde JSON error: expected an object"),
        other => panic!("unexpected {:?}", other),
    }
    match outcome_of_payload(&Json::Null) {
        FetchOutcome::Failed(reason) => assert_eq!(reason, "Serde JSON error: expected an object"),
        other => panic!("unexpected {:?}", other),
    }
}

#[test]
fn a_present_result_is_found_and_cleaned() {
    let body = r#"{"result": {"id": "abc", "title": "T", "notes": "<p>Hello <b>world</b></p>",
        "license_title": "OGL", "organization": {"title": "Org"},
        "metadata_created": "c", "metadata_modified": "m",
        "resources": [{"format": "CSV", "url": "u1"}, {"url": "u2"}, {"format": "JSON"}]}}"#;
    let reply = DetailReply::Answered { status: 200, body: body.to_string() };
    match outcome_of_reply(&reply) {
        FetchOutcome::Found(record, urls) => {
            assert_eq!(record.id, "abc");
            assert_eq!(record.title, "T");
            assert_eq!(record.description, "Hello world");
            assert_eq!(record.license, "OGL");
            assert_eq!(record.organization, "Org");
            assert_eq!(record.created, "c");
            assert_eq!(record.modified, "m");
            assert_eq!(record.format, "CSV, JSON");
            assert_eq!(urls, vec!["u1", "u2"]);
        }
        other => panic!("unexpected {:?}", other),
    }
}

#[test]
fn a_payload_built_by_hand_is_read_like_one_that_was_parsed() {
    let payload = Json::Object(vec![member(
        "result",
        Json::Object(vec![
            member("id", text("x")),
            member("notes", text("1 < 2 <i>and</i> 3 > 2")),
            member(
                "resources",
                Json::Array(vec![Json::Object(vec![member("url", text("u"))])]),
            ),
        ]),
    )]);
    match outcome_of_payload(&payload) {
        FetchOutcome::Found(record, urls) => {
            assert_eq!(record.id, "x");
            assert_eq!(record.description, "1 and 3 > 2");
            assert_eq!(record.format, "");
            assert_eq!(urls, vec!["u"]);
        }
        other => panic!("unexpected {:?}", other),
    }
}
