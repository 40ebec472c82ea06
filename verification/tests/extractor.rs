use rs_backend::extractor::{
    accept_chunk, classify, classify_body, classify_head, classify_ids, content_type_accepted,
    holds_empty_collection, settle, strip_whitespace, BodyOptions, Head, MaybeJson,
    MaybeJsonConfig, MediaType, PayloadReason, DEFAULT_LIMIT,
};

#[derive(Debug, PartialEq)]
struct ValidJson {
    name: String,
    age: i32,
}

fn valid_json_text(name: &str, age: i32) -> String {
    format!("{{\"name\":\"{}\",\"age\":{}}}", name, age)
}

fn decode_valid_json(body: &Vec<u8>) -> Result<ValidJson, String> {
    let value: serde_json::Value = match serde_json::from_slice(body) {
        Ok(value) => value,
        Err(e) => return Err(e.to_string()),
    };
    let name = match value.get("name").and_then(|n| n.as_str()) {
        Some(name) => name.to_string(),
        None => return Err("missing field `name`".to_string()),
    };
    let age = match value.get("age").and_then(|a| a.as_i64()) {
        Some(age) => age as i32,
        None => return Err("missing field `age`".to_string()),
    };
    Ok(ValidJson { name, age })
}

fn decode_collection(body: &Vec<u8>) -> Result<Vec<ValidJson>, String> {
    let value: serde_json::Value = match serde_json::from_slice(body) {
        Ok(value) => value,
        Err(e) => return Err(e.to_string()),
    };
    match value.as_array() {
        Some(items) => {
            let mut out = Vec::new();
            for item in items {
                out.push(decode_valid_json(&item.to_string().into_bytes())?);
            }
            Ok(out)
        }
        None => Err("expected a sequence".to_string()),
    }
}

fn no_predicate() -> Option<fn(&MediaType) -> bool> {
    None
}

/// A request as the classifier sees it: the declared length is that of the
/// payload unless the test sets another.
struct Request {
    declared_length: Option<usize>,
    content_type: Option<&'static str>,
    chunks: Vec<Result<Vec<u8>, String>>,
}

fn post(payload: &str, content_type: Option<&'static str>) -> Request {
    Request {
        declared_length: if payload.is_empty() { None } else { Some(payload.len()) },
        content_type,
        chunks: if payload.is_empty() { vec![] } else { vec![Ok(payload.as_bytes().to_vec())] },
    }
}

fn media(request: &Request) -> Option<MediaType> {
    match request.content_type {
        Some(text) => MediaType::parse(text),
        None => None,
    }
}

fn run<T, P: Fn(&MediaType) -> bool, D: FnOnce(&Vec<u8>) -> Result<T, String>>(
    config: &MaybeJsonConfig,
    request: &Request,
    predicate: &Option<P>,
    decode: D,
) -> MaybeJson<T> {
    classify(
        config,
        request.declared_length,
        &media(request),
        predicate,
        &request.chunks,
        decode,
    )
}

/// The status and body with which a handler answers each outcome.
fn handle<T>(outcome: MaybeJson<T>) -> (u16, String) {
    match outcome {
        MaybeJson::Empty => (204, String::new()),
        MaybeJson::Valid(_) => (200, String::new()),
        MaybeJson::Invalid(reason) => match reason {
            PayloadReason::OverflowKnownLength { length, limit } => (
                413,
                format!("Payload overflow: {} bytes exceeds limit of {} bytes", length, limit),
            ),
            PayloadReason::Overflow { limit } => {
                (413, format!("Payload overflow: limit is {} bytes", limit))
            }
            PayloadReason::ContentType => (415, "Content type error".to_string()),
            PayloadReason::Deserialize(err) => (400, format!("JSON deserialize error: {}", err)),
            PayloadReason::Payload(err) => (400, format!("Payload error: {}", err)),
            PayloadReason::Other(err) => (501, format!("You shouldn't see this error: {}", err)),
        },
    }
}

#[test]
fn valid_on_valid_input() {
    let text = valid_json_text("Alice", 30);
    let request = post(&text, Some("application/json"));
    let outcome = run(&MaybeJsonConfig::default(), &request, &no_predicate(), decode_valid_json);
    match outcome {
        MaybeJson::Valid(data) => {
            assert_eq!(data, ValidJson { name: "Alice".to_string(), age: 30 });
        }
        other => panic!("expected a valid payload, got {:?}", other),
    }
    let again = run(&MaybeJsonConfig::default(), &request, &no_predicate(), decode_valid_json);
    assert_eq!(handle(again).0, 200);
}

#[test]
fn invalid_on_invalid_input() {
    let wrong_type = "{\"list\":[\"item1\",\"item2\"],\"bool_field\":true}";
    let request1 = post(wrong_type, Some("application/json"));
    let outcome1 = run(&MaybeJsonConfig::default(), &request1, &no_predicate(), decode_valid_json);
    assert!(matches!(outcome1, MaybeJson::Invalid(PayloadReason::Deserialize(_))));
    assert_eq!(handle(outcome1).0, 400);

    let request2 = post("{invalid json", Some("application/json"));
    let outcome2 = run(&MaybeJsonConfig::default(), &request2, &no_predicate(), decode_valid_json);
    assert!(matches!(outcome2, MaybeJson::Invalid(PayloadReason::Deserialize(_))));
    assert_eq!(handle(outcome2).0, 400);
}

#[test]
fn empty_on_empty_input() {
    let request1 =
        Request { declared_length: None, content_type: Some("application/json"), chunks: vec![] };
    let outcome1 = run(&MaybeJsonConfig::default(), &request1, &no_predicate(), decode_valid_json);
    assert!(matches!(outcome1, MaybeJson::Empty));
    assert_eq!(handle(outcome1).0, 204);

    let request2 = post("", Some("application/json"));
    let outcome2 = run(&MaybeJsonConfig::default(), &request2, &no_predicate(), decode_valid_json);
    assert!(matches!(outcome2, MaybeJson::Empty));
    assert_eq!(handle(outcome2).0, 204);

    let request3 = post("[]", Some("application/json"));
    let outcome3 = run(&MaybeJsonConfig::default(), &request3, &no_predicate(), decode_collection);
    assert!(matches!(outcome3, MaybeJson::Empty));
    assert_eq!(handle(outcome3).0, 204);
}

#[test]
fn invalid_with_wrong_header() {
    let text = valid_json_text("Alice", 30);
    let request = post(&text, Some("text/plain"));
    let outcome = run(&MaybeJsonConfig::default(), &request, &no_predicate(), decode_valid_json);
    assert!(matches!(outcome, MaybeJson::Invalid(PayloadReason::ContentType)));
    let (status, body) = handle(outcome);
    assert_eq!(status, 415);
    assert_eq!(body, "Content type error");
}

#[test]
fn invalid_on_known_overflow() {
    let limit = 100;
    let config = MaybeJsonConfig::default().limit(limit);
    let payload = valid_json_text(&"A".repeat(200), 30);
    let request = post(&payload, Some("application/json"));
    let outcome = run(&config, &request, &no_predicate(), decode_valid_json);
    let (status, body) = handle(outcome);
    assert_eq!(status, 413);
    assert_eq!(
        body,
        format!(
            "Payload overflow: {} bytes exceeds limit of {} bytes",
            payload.as_bytes().len(),
            limit
        )
    );
}

#[test]
fn invalid_on_unknown_overflow() {
    let limit = 100;
    let config = MaybeJsonConfig::default().limit(limit);
    let payload = valid_json_text(&"A".repeat(200), 30);
    let mut request = post(&payload, Some("application/json"));
    request.declared_length = Some(2);
    let outcome = run(&config, &request, &no_predicate(), decode_valid_json);
    let (status, body) = handle(outcome);
    assert_eq!(status, 413);
    assert_eq!(body, format!("Payload overflow: limit is {} bytes", limit));
}

#[test]
fn can_extend_acceptable_content_types() {
    let predicate =
        Some(|media: &MediaType| media.kind == "text" && media.subtype == "plain");
    let text = valid_json_text("Alice", 30);
    let request = post(&text, Some("text/plain"));
    let outcome = run(&MaybeJsonConfig::default(), &request, &predicate, decode_valid_json);
    assert!(matches!(outcome, MaybeJson::Valid(_)));
    assert_eq!(handle(outcome).0, 200);

    let text2 = valid_json_text("Bob", 25);
    let request2 = post(&text2, Some("application/json"));
    let outcome2 = run(&MaybeJsonConfig::default(), &request2, &predicate, decode_valid_json);
    assert!(matches!(outcome2, MaybeJson::Valid(_)));
    assert_eq!(handle(outcome2).0, 200);
}

#[test]
fn can_turn_off_content_type_check() {
    let config = MaybeJsonConfig::default().content_type_required(false);
    let text = valid_json_text("Alice", 30);
    let request = post(&text, Some("text/plain"));
    let outcome = run(&config, &request, &no_predicate(), decode_valid_json);
    assert!(matches!(outcome, MaybeJson::Valid(_)));
    assert_eq!(handle(outcome).0, 200);
}

#[test]
fn test_valid_json_right_type() {
    let text = valid_json_text("Alice", 30);
    let request = post(&text, Some("application/json"));
    let outcome = run(&MaybeJsonConfig::default(), &request, &no_predicate(), decode_valid_json);
    assert!(matches!(outcome, MaybeJson::Valid(_)));
}

#[test]
fn test_valid_json_wrong_type() {
    let request =
        post("{\"list\":[\"item1\",\"item2\"],\"bool_field\":true}", Some("application/json"));
    let outcome = run(&MaybeJsonConfig::default(), &request, &no_predicate(), decode_valid_json);
    let status = handle(outcome).0;
    assert!((400..500).contains(&status));
}

#[test]
fn test_invalid_json_proper_headers() {
    let request = post("{invalid json", Some("application/json"));
    let outcome = run(&MaybeJsonConfig::default(), &request, &no_predicate(), decode_valid_json);
    let status = handle(outcome).0;
    assert!((400..500).contains(&status));
}

#[test]
fn test_non_json_payload_with_json_header() {
    let request = post("plain text content", Some("application/json"));
    let outcome = run(&MaybeJsonConfig::default(), &request, &no_predicate(), decode_valid_json);
    let status = handle(outcome).0;
    assert!((400..500).contains(&status));
}

#[test]
fn test_no_body_no_json_header() {
    let request = Request { declared_length: None, content_type: None, chunks: vec![] };
    let outcome = run(&MaybeJsonConfig::default(), &request, &no_predicate(), decode_valid_json);
    assert_eq!(handle(outcome).0, 204);
}

#[test]
fn test_empty_body_no_json_header() {
    let request = post("", Some("text/plain"));
    let outcome = run(&MaybeJsonConfig::default(), &request, &no_predicate(), decode_valid_json);
    assert_eq!(handle(outcome).0, 204);
}

#[test]
fn test_empty_json_object_json_header() {
    let request = post("{}", Some("application/json"));
    let outcome = run(&MaybeJsonConfig::default(), &request, &no_predicate(), decode_valid_json);
    let status = handle(outcome).0;
    assert!((400..500).contains(&status));
}

#[test]
fn test_json_exceeds_size_limit() {
    let config = MaybeJsonConfig::default().limit(100);
    let text = valid_json_text(&"A".repeat(200), 30);
    let request = post(&text, Some("application/json"));
    let outcome = run(&config, &request, &no_predicate(), decode_valid_json);
    let status = handle(outcome).0;
    assert!((400..500).contains(&status));
}

#[test]
fn default_config_is_two_mebibytes_and_enforces_content_type() {
    let config = MaybeJsonConfig::default();
    assert_eq!(config.get_limit(), 2_097_152);
    assert_eq!(DEFAULT_LIMIT, 2 * 1024 * 1024);
    assert!(config.get_content_type_required());
    let changed = config.limit(7).content_type_required(false);
    assert_eq!(changed.get_limit(), 7);
    assert!(!changed.get_content_type_required());
    assert_eq!(changed.content_type_required(true).get_limit(), 7);
}

#[test]
fn empty_collection_is_absent_with_any_whitespace() {
    for body in ["[]", " [ ] ", "\t[\n]\r\n", "[\x0c]"] {
        assert!(holds_empty_collection(body.as_bytes()), "{:?}", body);
        let outcome = settle::<Vec<i32>>(body.as_bytes(), Ok(vec![]));
        assert!(matches!(outcome, MaybeJson::Empty), "{:?}", body);
    }
    for body in ["[1]", "{}", "[", "]", "[]]", "[ ] x", "[\x0b]", ""] {
        assert!(!holds_empty_collection(body.as_bytes()), "{:?}", body);
    }
}

#[test]
fn empty_collection_is_absent_regardless_of_content_type_when_not_enforced() {
    let config = MaybeJsonConfig::default().content_type_required(false);
    for content_type in [Some("text/plain"), Some("application/json"), Some("not a type"), None] {
        let request = post(" [ ]\n", content_type);
        let outcome = run(&config, &request, &no_predicate(), decode_collection);
        assert!(matches!(outcome, MaybeJson::Empty), "{:?}", content_type);
    }
}

#[test]
fn strip_whitespace_removes_exactly_the_five_bytes() {
    assert_eq!(strip_whitespace(b" a\tb\nc\x0cd\re "), b"abcde".to_vec());
    assert_eq!(strip_whitespace(b"\x0b\x00"), b"\x0b\x00".to_vec());
    assert_eq!(strip_whitespace(b""), Vec::<u8>::new());
}

#[test]
fn settle_orders_its_cases() {
    let empty = settle::<i32>(b"", Err("never looked at".to_string()));
    assert!(matches!(empty, MaybeJson::Empty));
    let refused = settle::<i32>(b"[]", Err("expected i32".to_string()));
    assert!(
        matches!(refused, MaybeJson::Invalid(PayloadReason::Deserialize(words)) if words == "expected i32")
    );
    let valid = settle::<i32>(b"7", Ok(7));
    assert!(matches!(valid, MaybeJson::Valid(7)));
}

#[test]
fn declared_length_over_limit_is_refused_without_reading() {
    let config = MaybeJsonConfig::default().limit(100);
    let request = Request {
        declared_length: Some(101),
        content_type: Some("application/json"),
        chunks: vec![Err("the body must not be read".to_string())],
    };
    let outcome = run(&config, &request, &no_predicate(), |_body: &Vec<u8>| -> Result<i32, String> {
        panic!("the body must not be decoded")
    });
    assert!(matches!(
        outcome,
        MaybeJson::Invalid(PayloadReason::OverflowKnownLength { length: 101, limit: 100 })
    ));
    let at_limit = Request {
        declared_length: Some(100),
        content_type: Some("application/json"),
        chunks: vec![Ok(b"5".to_vec())],
    };
    let outcome = run(&config, &at_limit, &no_predicate(), |_body: &Vec<u8>| Ok::<i32, String>(5));
    assert!(matches!(outcome, MaybeJson::Valid(5)));
}

#[test]
fn unaccepted_content_type_is_refused_without_reading() {
    for content_type in [Some("text/plain"), Some("application/xml"), Some("garbage"), None] {
        let request = Request {
            declared_length: Some(10),
            content_type,
            chunks: vec![Err("the body must not be read".to_string())],
        };
        let rejecting = Some(|_media: &MediaType| false);
        let outcome =
            run(&MaybeJsonConfig::default(), &request, &rejecting, |_b: &Vec<u8>| -> Result<i32, String> {
                panic!("the body must not be decoded")
            });
        assert!(
            matches!(outcome, MaybeJson::Invalid(PayloadReason::ContentType)),
            "{:?}",
            content_type
        );
    }
}

#[test]
fn transport_failure_is_reported_with_its_words() {
    let request = Request {
        declared_length: Some(10),
        content_type: Some("application/json"),
        chunks: vec![Ok(b"[1,".to_vec()), Err("connection reset".to_string()), Ok(b"2]".to_vec())],
    };
    let outcome = run(&MaybeJsonConfig::default(), &request, &no_predicate(), decode_collection);
    assert!(
        matches!(outcome, MaybeJson::Invalid(PayloadReason::Payload(words)) if words == "connection reset")
    );
}

#[test]
fn pieces_add_up_and_stop_at_the_limit() {
    let mut body = Vec::new();
    assert!(accept_chunk(&mut body, Ok(b"abc"), 5).is_none());
    assert!(accept_chunk(&mut body, Ok(b"de"), 5).is_none());
    assert_eq!(body, b"abcde".to_vec());
    assert!(accept_chunk(&mut body, Ok(b""), 5).is_none());
    let refusal = accept_chunk(&mut body, Ok(b"f"), 5);
    assert!(matches!(refusal, Some(PayloadReason::Overflow { limit: 5 })));
    assert_eq!(body, b"abcde".to_vec());
    let failure = accept_chunk(&mut body, Err("gone".to_string()), 5);
    assert!(matches!(failure, Some(PayloadReason::Payload(words)) if words == "gone"));
    assert_eq!(body, b"abcde".to_vec());
}

#[test]
fn head_looks_at_the_length_before_the_content_type() {
    let config = MaybeJsonConfig::default().limit(10);
    let plain = MediaType::parse("text/plain");
    assert!(matches!(classify_head(&config, None, &plain, &no_predicate()), Head::Absent));
    assert!(matches!(classify_head(&config, Some(0), &plain, &no_predicate()), Head::Absent));
    assert!(matches!(
        classify_head(&config, Some(11), &plain, &no_predicate()),
        Head::Refused(PayloadReason::OverflowKnownLength { length: 11, limit: 10 })
    ));
    assert!(matches!(
        classify_head(&config, Some(10), &plain, &no_predicate()),
        Head::Refused(PayloadReason::ContentType)
    ));
    let json = MediaType::parse("application/json");
    assert!(matches!(classify_head(&config, Some(10), &json, &no_predicate()), Head::Read));
}

#[test]
fn media_types_are_read_from_header_text() {
    let json = MediaType::parse("application/json").unwrap();
    assert_eq!(json.kind, "application");
    assert_eq!(json.subtype, "json");
    assert_eq!(json.suffix, None);
    assert!(json.is_json());

    let upper = MediaType::parse("Application/JSON; charset=utf-8").unwrap();
    assert_eq!(upper.kind, "application");
    assert_eq!(upper.subtype, "json");
    assert!(upper.is_json());

    let suffixed = MediaType::parse("application/vnd.api+json").unwrap();
    assert_eq!(suffixed.subtype, "vnd.api");
    assert_eq!(suffixed.suffix, Some("json".to_string()));
    assert!(suffixed.is_json());

    let plain = MediaType::parse("text/plain").unwrap();
    assert!(!plain.is_json());
    assert!(MediaType::parse("not a media type").is_none());
    assert!(MediaType::parse("").is_none());
}

#[test]
fn content_type_policy() {
    let plain = MediaType::parse("text/plain");
    let json = MediaType::parse("application/json");
    let accept_text = Some(|media: &MediaType| media.kind == "text");
    assert!(content_type_accepted(false, &None, &no_predicate()));
    assert!(content_type_accepted(false, &plain, &no_predicate()));
    assert!(!content_type_accepted(true, &None, &accept_text));
    assert!(content_type_accepted(true, &json, &no_predicate()));
    assert!(!content_type_accepted(true, &plain, &no_predicate()));
    assert!(content_type_accepted(true, &plain, &accept_text));
    assert!(!content_type_accepted(true, &MediaType::parse("image/png"), &accept_text));
}

#[test]
fn decoder_is_not_called_on_a_body_without_bytes() {
    let outcome = classify_body(&Vec::new(), |_body: &Vec<u8>| -> Result<i32, String> {
        panic!("nothing to decode")
    });
    assert!(matches!(outcome, MaybeJson::Empty));
}

#[test]
fn identifier_lists_are_decoded() {
    let config = MaybeJsonConfig::default();
    let json = MediaType::parse("application/json");
    let body = b"[3, 1, 2]".to_vec();
    let outcome =
        classify_ids(&config, Some(body.len()), &json, &no_predicate(), &vec![Ok(body)]);
    assert!(matches!(outcome, MaybeJson::Valid(ids) if ids == vec![3, 1, 2]));

    let split = vec![Ok(b"[4".to_vec()), Ok(b"2]".to_vec())];
    let outcome = classify_ids(&config, Some(4), &json, &no_predicate(), &split);
    assert!(matches!(outcome, MaybeJson::Valid(ids) if ids == vec![42]));

    let wrong = b"{\"id\": 1}".to_vec();
    let outcome =
        classify_ids(&config, Some(wrong.len()), &json, &no_predicate(), &vec![Ok(wrong)]);
    assert!(matches!(outcome, MaybeJson::Invalid(PayloadReason::Deserialize(_))));

    let empty = b" [ ] ".to_vec();
    let outcome =
        classify_ids(&config, Some(empty.len()), &json, &no_predicate(), &vec![Ok(empty)]);
    assert!(matches!(outcome, MaybeJson::Empty));
}

#[test]
fn fails_with_wrong_header() {
    let text = valid_json_text("Alice", 30);
    let request = post(&text, Some("application/json"));
    let outcome = run(&MaybeJsonConfig::default(), &request, &no_predicate(), decode_valid_json);
    let status = handle(outcome).0;
    assert!((200..300).contains(&status));
}

#[test]
fn test_empty_json_array_json_header() {
    let request = post("[]", Some("application/json"));
    let outcome = run(&MaybeJsonConfig::default(), &request, &no_predicate(), decode_valid_json);
    let status = handle(outcome).0;
    assert!((400..500).contains(&status));
}

#[test]
fn default_options_hold_no_predicate() {
    let options: BodyOptions<fn(&MediaType) -> bool> = BodyOptions::new();
    assert_eq!(options.get_limit(), 2_097_152);
    assert!(options.get_content_type().is_none());
    assert!(options.get_content_type_required());
    let again: BodyOptions<fn(&MediaType) -> bool> = BodyOptions::default();
    assert_eq!(again.get_limit(), 2_097_152);
    assert!(again.get_content_type().is_none());
    assert!(again.get_content_type_required());
}

#[test]
fn options_keep_what_was_set_before() {
    fn text_only(media: &MediaType) -> bool {
        media.kind == "text"
    }
    let options: BodyOptions<fn(&MediaType) -> bool> =
        BodyOptions::new().limit(100).content_type(text_only);
    assert_eq!(options.get_limit(), 100);
    assert!(options.get_content_type_required());
    let check = options.get_content_type().as_ref().unwrap();
    assert!(check(&MediaType::parse("text/plain").unwrap()));
    assert!(!check(&MediaType::parse("image/png").unwrap()));

    let plain = MediaType::parse("text/plain");
    let image = MediaType::parse("image/png");
    assert!(matches!(options.classify_head(Some(10), &plain), Head::Read));
    assert!(matches!(
        options.classify_head(Some(10), &image),
        Head::Refused(PayloadReason::ContentType)
    ));
    assert!(matches!(
        options.classify_head(Some(101), &plain),
        Head::Refused(PayloadReason::OverflowKnownLength { length: 101, limit: 100 })
    ));

    let open = options.content_type_required(false).limit(5);
    assert_eq!(open.get_limit(), 5);
    assert!(!open.get_content_type_required());
    assert!(open.get_content_type().is_some());
    assert!(matches!(open.classify_head(Some(5), &image), Head::Read));
}
