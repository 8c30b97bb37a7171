use gitpoap_rs::error::ClientError;
use gitpoap_rs::json::Json;
use gitpoap_rs::response::{
    AddressesResponse, ErrorResponse, EventResponse, GitPoapEvent, GitpoapsResponse,
    PoapEventFancyIdsResponse, PoapIdsResponse, PoapResponse,
};

fn text(s: &str) -> Json {
    Json::Str(s.to_string())
}

fn number(i: i64) -> Json {
    Json::Number(Some(i))
}

fn object(members: Vec<(&str, Json)>) -> Json {
    Json::Object(members.into_iter().map(|(k, v)| (k.to_string(), v)).collect())
}

fn texts(items: &[&str]) -> Json {
    Json::Array(items.iter().map(|s| text(s)).collect())
}

fn from_value(value: &serde_json::Value) -> Json {
    match value {
        serde_json::Value::Null => Json::Null,
        serde_json::Value::Bool(b) => Json::Bool(*b),
        serde_json::Value::Number(n) => Json::Number(n.as_i64()),
        serde_json::Value::String(s) => Json::Str(s.clone()),
        serde_json::Value::Array(items) => Json::Array(items.iter().map(from_value).collect()),
        serde_json::Value::Object(map) => {
            Json::Object(map.iter().map(|(k, v)| (k.clone(), from_value(v))).collect())
        }
    }
}

fn badge(id: i64, token: &str) -> Json {
    object(vec![
        ("gitPoapId", number(id)),
        ("gitPoapEventId", number(11)),
        ("poapTokenId", text(token)),
        ("poapEventId", number(37428)),
        ("poapEventFancyId", text("gitpoap-2022-contributor")),
        ("name", text("GitPOAP: 2022 Contributor")),
        ("year", number(2022)),
        ("description", text("You contributed")),
        ("imageUrl", text("https://example.org/a.png")),
        ("repositories", texts(&["gitpoap/gitpoap-fe", "gitpoap/gitpoap-backend"])),
        ("earnedAt", text("2022-04-05")),
        ("mintedAt", text("2022-05-06")),
    ])
}

#[test]
fn test_deserialize_gitpoap_response() {
    let json = r#"{"isGitPOAP":true,"gitPOAPId":4003}"#;
    let value: serde_json::Value = serde_json::from_str(json).unwrap();
    let response = PoapResponse::decode(&from_value(&value)).unwrap();
    assert!(response.is_gitpoap);
    assert_eq!(response.gitpoap_id.unwrap(), 4003);
}

#[test]
fn token_check_with_null_id() {
    let v = object(vec![("isGitPOAP", Json::Bool(false)), ("gitPOAPId", Json::Null)]);
    let r = PoapResponse::decode(&v).unwrap();
    assert!(!r.is_gitpoap);
    assert_eq!(r.gitpoap_id, None);
}

#[test]
fn token_check_with_missing_id() {
    let v = object(vec![("isGitPOAP", Json::Bool(true))]);
    let r = PoapResponse::decode(&v).unwrap();
    assert!(r.is_gitpoap);
    assert_eq!(r.gitpoap_id, None);
}

#[test]
fn token_check_flag_as_string_is_decode_error() {
    let v = object(vec![("isGitPOAP", text("true")), ("gitPOAPId", number(4003))]);
    match PoapResponse::decode(&v) {
        Err(ClientError::Decode(m)) => assert_eq!(m, "isGitPOAP"),
        other => panic!("unexpected {:?}", other),
    }
}

#[test]
fn token_check_missing_flag_is_decode_error() {
    let v = object(vec![("gitPOAPId", number(4003))]);
    assert!(matches!(PoapResponse::decode(&v), Err(ClientError::Decode(_))));
}

#[test]
fn token_check_id_out_of_range_is_decode_error() {
    let v = object(vec![("isGitPOAP", Json::Bool(true)), ("gitPOAPId", number(1 << 40))]);
    assert!(matches!(PoapResponse::decode(&v), Err(ClientError::Decode(_))));
    let w = object(vec![("isGitPOAP", Json::Bool(true)), ("gitPOAPId", Json::Number(None))]);
    assert!(matches!(PoapResponse::decode(&w), Err(ClientError::Decode(_))));
}

#[test]
fn token_check_ignores_unknown_members_and_takes_first_duplicate() {
    let v = object(vec![
        ("other", text("x")),
        ("isGitPOAP", Json::Bool(true)),
        ("gitPOAPId", number(-7)),
        ("isGitPOAP", Json::Bool(false)),
    ]);
    let r = PoapResponse::decode(&v).unwrap();
    assert!(r.is_gitpoap);
    assert_eq!(r.gitpoap_id, Some(-7));
}

#[test]
fn event_check_not_a_badge_event() {
    let json = r#"{"isGitPOAP":false,"gitPOAPId":null}"#;
    let value: serde_json::Value = serde_json::from_str(json).unwrap();
    let r = EventResponse::decode(&from_value(&value)).unwrap();
    assert!(!r.is_gitpoap);
    assert_eq!(r.gitpoap_id, None);
}

#[test]
fn event_check_flag_as_number_is_decode_error() {
    let v = object(vec![("isGitPOAP", number(1)), ("gitPOAPId", Json::Null)]);
    assert!(matches!(EventResponse::decode(&v), Err(ClientError::Decode(_))));
}

#[test]
fn token_ids_in_order() {
    let v = object(vec![("poapTokenIds", texts(&["4003", "4078", "12"]))]);
    let r = PoapIdsResponse::decode(&v).unwrap();
    assert_eq!(r.poap_token_ids, vec!["4003".to_string(), "4078".to_string(), "12".to_string()]);
}

#[test]
fn token_ids_empty_list() {
    let v = object(vec![("poapTokenIds", Json::Array(vec![]))]);
    assert!(PoapIdsResponse::decode(&v).unwrap().poap_token_ids.is_empty());
}

#[test]
fn token_ids_with_a_number_is_decode_error() {
    let v = object(vec![("poapTokenIds", Json::Array(vec![text("1"), number(2)]))]);
    assert!(matches!(PoapIdsResponse::decode(&v), Err(ClientError::Decode(_))));
}

#[test]
fn scalar_body_is_decode_error_for_every_operation() {
    for v in [Json::Null, Json::Bool(true), number(3), text("{}")] {
        assert!(matches!(PoapResponse::decode(&v), Err(ClientError::Decode(_))));
        assert!(matches!(EventResponse::decode(&v), Err(ClientError::Decode(_))));
        assert!(matches!(PoapIdsResponse::decode(&v), Err(ClientError::Decode(_))));
        assert!(matches!(GitpoapsResponse::decode(&v), Err(ClientError::Decode(_))));
    }
}

#[test]
fn user_badges_decode_field_for_field() {
    let v = Json::Array(vec![badge(1, "4003"), badge(2, "4004")]);
    let r = GitpoapsResponse::decode(&v).unwrap();
    assert_eq!(r.0.len(), 2);
    let first = &r.0[0];
    assert_eq!(first.git_poap_id, 1);
    assert_eq!(first.git_poap_event_id, 11);
    assert_eq!(first.poap_token_id, "4003");
    assert_eq!(first.poap_event_id, 37428);
    assert_eq!(first.poap_event_fancy_id, "gitpoap-2022-contributor");
    assert_eq!(first.name, "GitPOAP: 2022 Contributor");
    assert_eq!(first.year, 2022);
    assert_eq!(first.description, "You contributed");
    assert_eq!(first.image_url, "https://example.org/a.png");
    assert_eq!(first.repositories, vec!["gitpoap/gitpoap-fe", "gitpoap/gitpoap-backend"]);
    assert_eq!(first.earned_at, "2022-04-05");
    assert_eq!(first.minted_at, "2022-05-06");
    assert_eq!(r.0[1].git_poap_id, 2);
    assert_eq!(r.0[1].poap_token_id, "4004");
}

#[test]
fn user_badges_empty_array() {
    let r = GitpoapsResponse::decode(&Json::Array(vec![])).unwrap();
    assert!(r.0.is_empty());
}

#[test]
fn user_badges_one_bad_item_fails_all() {
    let bad = object(vec![("gitPoapId", text("1"))]);
    let v = Json::Array(vec![badge(1, "4003"), bad]);
    assert!(matches!(GitpoapsResponse::decode(&v), Err(ClientError::Decode(_))));
}

#[test]
fn user_badges_object_body_is_decode_error() {
    assert!(matches!(GitpoapsResponse::decode(&badge(1, "4003")), Err(ClientError::Decode(_))));
}

#[test]
fn event_record_decodes() {
    let v = object(vec![
        ("gitPoapEventId", number(5)),
        ("poapEventId", number(6)),
        ("poapEventFancyId", text("fancy")),
        ("name", text("n")),
        ("year", number(2023)),
        ("description", text("d")),
        ("imageUrl", text("u")),
        ("repositories", texts(&["a/b"])),
        ("mintedCount", number(42)),
    ]);
    let e = GitPoapEvent::decode(&v).unwrap();
    assert_eq!(e.git_poap_event_id, 5);
    assert_eq!(e.poap_event_id, 6);
    assert_eq!(e.poap_event_fancy_id, "fancy");
    assert_eq!(e.name, "n");
    assert_eq!(e.year, 2023);
    assert_eq!(e.description, "d");
    assert_eq!(e.image_url, "u");
    assert_eq!(e.repositories, vec!["a/b"]);
    assert_eq!(e.minted_count, 42);
}

#[test]
fn event_record_missing_count_is_decode_error() {
    let v = object(vec![("gitPoapEventId", number(5))]);
    assert!(matches!(GitPoapEvent::decode(&v), Err(ClientError::Decode(_))));
}

#[test]
fn small_records_decode() {
    let f = PoapEventFancyIdsResponse::decode(&object(vec![("poapEventFancyIds", texts(&["x", "y"]))]))
        .unwrap();
    assert_eq!(f.poap_event_fancy_ids, vec!["x", "y"]);
    let a = AddressesResponse::decode(&object(vec![("addresses", texts(&["0xab"]))])).unwrap();
    assert_eq!(a.addresses, vec!["0xab"]);
    let e = ErrorResponse::decode(&object(vec![("message", text("Not found"))])).unwrap();
    assert_eq!(e.message, "Not found");
    assert!(matches!(ErrorResponse::decode(&object(vec![])), Err(ClientError::Decode(_))));
}
