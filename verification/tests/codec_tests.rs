use patchpal::models::{status_code, status_of_code, Patch, PatchResponse, Status, WireError};

const MULTI_FILE_DIFF: &str = "--- a/a.txt\n+++ b/a.txt\n@@ -1,2 +1,4 @@\n context one\n+added one\n+added two\n-removed one\n+added three\n--- a/b.txt\n+++ b/b.txt\n@@ -5,3 +5,2 @@\n keep\n-drop\n keep too\n";

#[test]
fn submission_round_trip_multi_file() {
    let patch = Patch {
        patch: MULTI_FILE_DIFF.to_string(),
        metadata: Some("build-42".to_string()),
    };
    let bytes = patch.encode_to_vec();
    let back = Patch::decode(&bytes).unwrap();
    assert_eq!(back.patch, MULTI_FILE_DIFF);
    assert_eq!(back.metadata.as_deref(), Some("build-42"));
}

#[test]
fn submission_round_trip_without_metadata() {
    let patch = Patch { patch: "hello \u{00e9}\u{4e16}\u{1f600}".to_string(), metadata: None };
    let bytes = patch.encode_to_vec();
    let back = Patch::decode(&bytes).unwrap();
    assert_eq!(back.patch, "hello \u{00e9}\u{4e16}\u{1f600}");
    assert_eq!(back.metadata, None);
}

#[test]
fn submission_round_trip_empty() {
    let patch = Patch { patch: String::new(), metadata: None };
    let bytes = patch.encode_to_vec();
    let back = Patch::decode(&bytes).unwrap();
    assert_eq!(back.patch, "");
    assert_eq!(back.metadata, None);
}

#[test]
fn malformed_submissions_are_refused() {
    // a tag that belongs to no field
    assert_eq!(
        Patch::decode(&vec![0xff, 0x01]).unwrap_err(),
        WireError::MalformedMessage
    );
    // a length that runs past the end
    assert_eq!(
        Patch::decode(&vec![0x0a, 0x05, 0x61]).unwrap_err(),
        WireError::MalformedMessage
    );
    // invalid UTF-8 in the diff field
    assert_eq!(
        Patch::decode(&vec![0x12, 0x02, 0xc0, 0x20]).unwrap_err(),
        WireError::MalformedMessage
    );
    // trailing bytes after the diff field
    let mut ok = Patch { patch: "x".to_string(), metadata: None }.encode_to_vec();
    ok.push(0x00);
    assert_eq!(Patch::decode(&ok).unwrap_err(), WireError::MalformedMessage);
}

#[test]
fn decision_round_trips() {
    for status in [Status::Unknown, Status::Accepted, Status::Rejected] {
        let resp = PatchResponse { status };
        let bytes = resp.encode_to_vec();
        assert_eq!(PatchResponse::decode(&bytes).unwrap(), resp);
    }
}

#[test]
fn unassigned_status_reads_as_unknown() {
    // status code 9 is assigned to nothing
    let resp = PatchResponse::decode(&vec![0x08, 0x09]).unwrap();
    assert_eq!(resp.status, Status::Unknown);
    // an empty message carries the default status
    let resp = PatchResponse::decode(&Vec::new()).unwrap();
    assert_eq!(resp.status, Status::Unknown);
}

#[test]
fn malformed_decisions_are_refused() {
    assert_eq!(
        PatchResponse::decode(&vec![0x12, 0x00]).unwrap_err(),
        WireError::MalformedMessage
    );
    // a varint cut short
    assert_eq!(
        PatchResponse::decode(&vec![0x08, 0x80]).unwrap_err(),
        WireError::MalformedMessage
    );
    // trailing bytes
    assert_eq!(
        PatchResponse::decode(&vec![0x08, 0x01, 0x00]).unwrap_err(),
        WireError::MalformedMessage
    );
}

#[test]
fn status_codes_are_fixed() {
    assert_eq!(status_code(Status::Unknown), 0);
    assert_eq!(status_code(Status::Accepted), 1);
    assert_eq!(status_code(Status::Rejected), 2);
    assert_eq!(status_of_code(0), Status::Unknown);
    assert_eq!(status_of_code(1), Status::Accepted);
    assert_eq!(status_of_code(2), Status::Rejected);
    assert_eq!(status_of_code(7), Status::Unknown);
}

#[test]
fn accepted_decision_bytes_are_canonical() {
    let bytes = PatchResponse { status: Status::Accepted }.encode_to_vec();
    assert_eq!(bytes, vec![0x08, 0x01]);
    let bytes = PatchResponse { status: Status::Rejected }.encode_to_vec();
    assert_eq!(bytes, vec![0x08, 0x02]);
}

#[test]
fn long_fields_use_multi_byte_lengths() {
    // more than 127 bytes forces a two-byte varint length
    let mut text = String::new();
    for _ in 0..300 {
        text.push('x');
    }
    let patch = Patch { patch: text.clone(), metadata: Some("m".to_string()) };
    let bytes = patch.encode_to_vec();
    // tag, then 0xAC 0x02 = 300 little-endian base-128
    assert_eq!(bytes[3], 0x12);
    assert_eq!(&bytes[4..6], &[0xac, 0x02]);
    let back = Patch::decode(&bytes).unwrap();
    assert_eq!(back.patch, text);
}
