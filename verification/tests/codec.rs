use cloud_print::codec::parse_message;
use cloud_print::codec::serialize_message;
use cloud_print::message::JobStatus;
use cloud_print::message::Message;

fn sample() -> Message {
    Message {
        id: Some("01ARZ3NDEKTSV4RRFFQ69G5FAV".to_string()),
        artifact_url: "https://x/doc.pdf".to_string(),
        artifact_local_path: Some("./wdir/pdfs/a.pdf".to_string()),
        status: JobStatus::Valid,
        processed_at: Some("2024-05-01T12:00:00+00:00".to_string()),
        error: None,
        raw_body: None,
        context: Some("{\"customer\":7}".to_string()),
    }
}

fn assert_same(a: &Message, b: &Message) {
    assert_eq!(a.id, b.id);
    assert_eq!(a.artifact_url, b.artifact_url);
    assert_eq!(a.artifact_local_path, b.artifact_local_path);
    assert_eq!(a.status, b.status);
    assert_eq!(a.processed_at, b.processed_at);
    assert_eq!(a.error, b.error);
    assert_eq!(a.raw_body, b.raw_body);
    assert_eq!(a.context, b.context);
}

#[test]
fn canonical_text_is_exact() {
    let m = Message {
        id: Some("X".to_string()),
        artifact_url: "u".to_string(),
        artifact_local_path: None,
        status: JobStatus::Unknown,
        processed_at: None,
        error: None,
        raw_body: None,
        context: None,
    };
    assert_eq!(
        serialize_message(&m),
        "{\"id\":\"X\",\"artifact_url\":\"u\",\"artifact_local_path\":null,\
         \"status\":\"unknown\",\"processed_at\":null,\"error\":null,\
         \"raw_body\":null,\"context\":null}"
    );
}

#[test]
fn round_trip_full_record() {
    let m = sample();
    let text = serialize_message(&m);
    let back = parse_message(&text).expect("the canonical text parses");
    assert_same(&m, &back);
}

#[test]
fn round_trip_keeps_optional_absence() {
    let m = Message {
        id: None,
        artifact_url: "".to_string(),
        artifact_local_path: None,
        status: JobStatus::Invalid,
        processed_at: None,
        error: Some("err".to_string()),
        raw_body: Some("raw".to_string()),
        context: None,
    };
    let back = parse_message(&serialize_message(&m)).unwrap();
    assert_same(&m, &back);
}

#[test]
fn round_trip_escapes() {
    let m = Message {
        id: Some("q\"uo\\te".to_string()),
        artifact_url: "line\nbreak\tand\rreturn".to_string(),
        artifact_local_path: None,
        status: JobStatus::Unknown,
        processed_at: None,
        error: Some("a \\ b \" c".to_string()),
        raw_body: None,
        context: None,
    };
    let back = parse_message(&serialize_message(&m)).unwrap();
    assert_same(&m, &back);
}

#[test]
fn parse_minimal_notification_shape() {
    let m = parse_message("{\"artifact_url\":\"https://x/doc.pdf\"}").unwrap();
    assert_eq!(m.artifact_url, "https://x/doc.pdf");
    assert_eq!(m.id, None);
    assert_eq!(m.status, JobStatus::Unknown);
    assert_eq!(m.context, None);
}

#[test]
fn parse_tolerates_whitespace_and_key_order() {
    let m = parse_message(
        " { \"context\" : null , \"id\" : \"J1\" , \"artifact_url\" : \"u\" } ",
    )
    .unwrap();
    assert_eq!(m.id, Some("J1".to_string()));
    assert_eq!(m.artifact_url, "u");
}

#[test]
fn parse_skips_unknown_members() {
    let m = parse_message(
        "{\"artifact_url\":\"u\",\"extra\":123,\"nested\":{\"a\":[1,2,{\"b\":\"}\"}]}}",
    )
    .unwrap();
    assert_eq!(m.artifact_url, "u");
}

#[test]
fn parse_captures_context_object_verbatim() {
    let m = parse_message("{\"artifact_url\":\"u\",\"context\":{\"customer\":7}}").unwrap();
    assert_eq!(m.context, Some("{\"customer\":7}".to_string()));
}

#[test]
fn parse_rejects_bad_input() {
    assert!(parse_message("not-json").is_none());
    assert!(parse_message("").is_none());
    assert!(parse_message("{}").is_none());
    assert!(parse_message("{\"id\":\"x\"}").is_none());
    assert!(parse_message("{\"artifact_url\":42}").is_none());
    assert!(parse_message("{\"artifact_url\":\"u\",\"status\":\"bogus\"}").is_none());
    assert!(parse_message("{\"artifact_url\":\"u\"}trailing").is_none());
    assert!(parse_message("{\"artifact_url\":\"u\"").is_none());
}

#[test]
fn parse_reads_status_names() {
    for (name, st) in [
        ("unknown", JobStatus::Unknown),
        ("valid", JobStatus::Valid),
        ("invalid", JobStatus::Invalid),
    ] {
        let text = format!("{{\"artifact_url\":\"u\",\"status\":\"{}\"}}", name);
        assert_eq!(parse_message(&text).unwrap().status, st);
    }
}

#[test]
fn parse_treats_null_as_absent() {
    let m = parse_message(
        "{\"artifact_url\":\"u\",\"id\":null,\"error\":null,\"status\":null}",
    )
    .unwrap();
    assert_eq!(m.id, None);
    assert_eq!(m.error, None);
    assert_eq!(m.status, JobStatus::Unknown);
}
