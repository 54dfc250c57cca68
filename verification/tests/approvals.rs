use rollup::approval::{approved, extract_payload, get_approved_prs, read_approved};
use rollup::error::{DecoderError, Error, Kind};
use rollup::http::Response;
use rollup::model::PullRequestStatus;
use std::collections::HashSet;

fn response(body: &[u8]) -> Response {
    Response { body: body.to_vec(), headers: Vec::new() }
}

fn set(numbers: &[u64]) -> HashSet<u64> {
    numbers.iter().copied().collect()
}

fn reason(result: Result<HashSet<u64>, Error>) -> DecoderError {
    match result {
        Err(Error::JSONDecoderError(reason)) => reason,
        other => panic!("not a decoder error: {:?}", other),
    }
}

#[test]
fn approved_status_body_gives_the_approved_numbers() {
    let body =
        b"var bors = [{\"num\":5,\"state\":\"APPROVED\"},{\"num\":6,\"state\":\"PENDING\"}];\n";
    assert_eq!(get_approved_prs(&response(body)).unwrap(), set(&[5]));
}

#[test]
fn approved_list_is_cut_two_characters_before_the_end() {
    let body = b"var bors = [{\"num\":5,\"state\":\"APPROVED\"},{\"num\":6,\"state\":\"PENDING\"}];";
    assert!(matches!(
        reason(get_approved_prs(&response(body))),
        DecoderError::ParseError(_)
    ));
    let body = b"var bors = [{\"num\":5,\"state\":\"APPROVED\"},{\"num\":6,\"state\":\"PENDING\"}]; \n";
    assert!(matches!(
        reason(get_approved_prs(&response(body))),
        DecoderError::ParseError(_)
    ));
}

#[test]
fn approved_numbers_are_a_set() {
    let body = "junk before\nvar bors = [{\"num\":5,\"state\":\"APPROVED\"},\
                {\"num\":9,\"state\":\"APPROVED\"},{\"num\":5,\"state\":\"APPROVED\"}];\n";
    assert_eq!(read_approved(body).unwrap(), set(&[5, 9]));
}

#[test]
fn approved_state_is_compared_to_the_letter() {
    let body = "var bors = [{\"num\":1,\"state\":\"approved\"},{\"num\":2,\"state\":\"APPROVED \"},\
                {\"num\":3,\"state\":\"APPROVED\"}];\n";
    assert_eq!(read_approved(body).unwrap(), set(&[3]));
}

#[test]
fn approved_empty_list() {
    assert_eq!(read_approved("var bors = [];\n").unwrap(), set(&[]));
}

#[test]
fn approved_rejects_a_body_that_is_not_utf8() {
    match reason(get_approved_prs(&response(&[0x76, 0x61, 0xff, 0xfe]))) {
        DecoderError::ApplicationError(words) => assert_eq!(words, "Non UTF-8 response"),
        other => panic!("{:?}", other),
    }
}

#[test]
fn approved_rejects_a_body_without_the_marker() {
    match reason(get_approved_prs(&response(b"[{\"num\":5,\"state\":\"APPROVED\"}];"))) {
        DecoderError::ApplicationError(words) => assert_eq!(words, "Unexpected status JSON shape"),
        other => panic!("{:?}", other),
    }
}

#[test]
fn approved_rejects_a_body_that_ends_with_the_marker() {
    for body in ["var bors =", "var bors =;"] {
        match reason(read_approved(body)) {
            DecoderError::ApplicationError(words) => {
                assert_eq!(words, "Unexpected status JSON shape")
            }
            other => panic!("{:?}", other),
        }
    }
}

#[test]
fn approved_rejects_a_list_that_is_not_json() {
    assert!(matches!(reason(read_approved("var bors = [{\"num\":5,;\n")), DecoderError::ParseError(_)));
    assert!(matches!(reason(read_approved("var bors =;;")), DecoderError::ParseError(_)));
}

#[test]
fn approved_rejects_a_list_of_another_shape() {
    match reason(read_approved("var bors = {\"num\":5};\n")) {
        DecoderError::ExpectedError(wanted, found) => {
            assert_eq!((wanted, found), (Kind::Array, Kind::Object))
        }
        other => panic!("{:?}", other),
    }
    match reason(read_approved("var bors = [{\"num\":5}];\n")) {
        DecoderError::MissingFieldError(name) => assert_eq!(name, "state"),
        other => panic!("{:?}", other),
    }
    match reason(read_approved("var bors = [{\"num\":-5,\"state\":\"APPROVED\"}];\n")) {
        DecoderError::ExpectedError(wanted, found) => {
            assert_eq!((wanted, found), (Kind::U64, Kind::I64))
        }
        other => panic!("{:?}", other),
    }
    match reason(read_approved("var bors = [{\"num\":5,\"state\":true}];\n")) {
        DecoderError::ExpectedError(wanted, found) => {
            assert_eq!((wanted, found), (Kind::Text, Kind::Boolean))
        }
        other => panic!("{:?}", other),
    }
}

#[test]
fn approved_rejects_a_list_beyond_the_limits_of_the_parser() {
    let body = format!("var bors = {}{};\n", "[".repeat(200), "]".repeat(200));
    match reason(read_approved(&body)) {
        DecoderError::ApplicationError(words) => {
            assert_eq!(words, "JSON beyond the limits of the parser")
        }
        other => panic!("{:?}", other),
    }
    let body = "var bors = [{\"num\":1e12345678901234567890,\"state\":\"APPROVED\"}];\n";
    assert!(matches!(reason(read_approved(body)), DecoderError::ApplicationError(_)));
}

#[test]
fn approved_number_may_stand_between_quotes() {
    let body = "var bors = [{\"num\":\"8\",\"state\":\"APPROVED\"},{\"num\":\"x\",\"state\":\"APPROVED\"}];\n";
    match reason(read_approved(body)) {
        DecoderError::ExpectedError(wanted, found) => {
            assert_eq!((wanted, found), (Kind::U64, Kind::Text))
        }
        other => panic!("{:?}", other),
    }
    let body = "var bors = [{\"num\":\"8\",\"state\":\"APPROVED\"}];\n";
    assert_eq!(read_approved(body).unwrap(), set(&[8]));
}

#[test]
fn approved_reports_the_first_status_that_cannot_be_read() {
    match reason(read_approved("var bors = [{\"num\":1,\"state\":\"APPROVED\"},{\"state\":\"x\"},7];\n")) {
        DecoderError::MissingFieldError(name) => assert_eq!(name, "num"),
        other => panic!("{:?}", other),
    }
}

#[test]
fn payload_stands_between_the_first_marker_and_the_last_two_characters() {
    assert_eq!(extract_payload("var bors = [1];\n").as_deref(), Some(" [1]"));
    assert_eq!(extract_payload("var bors = [1];").as_deref(), Some(" [1"));
    assert_eq!(extract_payload("x var bors =var bors =[]\r\n").as_deref(), Some("var bors =[]"));
    assert_eq!(extract_payload("var bors =ab").as_deref(), Some(""));
    assert_eq!(extract_payload("var bors =a"), None);
    assert_eq!(extract_payload("var bors"), None);
    assert_eq!(extract_payload(""), None);
}

#[test]
fn payload_counts_characters_not_bytes() {
    assert_eq!(extract_payload("é var bors =[]éé").as_deref(), Some("[]"));
}

#[test]
fn approved_collects_from_statuses() {
    let statuses = vec![
        PullRequestStatus { num: 4, state: String::from("APPROVED") },
        PullRequestStatus { num: 7, state: String::from("ERROR") },
        PullRequestStatus { num: 2, state: String::from("APPROVED") },
    ];
    assert_eq!(approved(&statuses), set(&[2, 4]));
    assert_eq!(approved(&Vec::new()), set(&[]));
}
