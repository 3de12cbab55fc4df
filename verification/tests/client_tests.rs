use patchpal::args::{ClientMode, GithubBranchId, GithubClientArgs, LocalClientArgs};
use patchpal::client::{
    exit_code, interpret_response, Client, ClientOutcome, Github, Local, Mode,
};
use patchpal::models::{Patch, PatchResponse, Status};

#[test]
fn local_mode_defaults_to_the_current_directory() {
    let local = Local::from_args(LocalClientArgs { path: None });
    assert_eq!(local.path, ".");
    let local = Local::from_args(LocalClientArgs { path: Some("../bar".to_string()) });
    assert_eq!(local.path, "../bar");
}

#[test]
fn github_mode_splits_owner_and_repo() {
    let github = Github::from_args(GithubClientArgs {
        repo: "foo/bar".to_string(),
        branch_id: GithubBranchId { branch_name: None, pr_number: Some(123) },
    });
    assert_eq!(github.owner, "foo");
    assert_eq!(github.repo, "bar");
    assert_eq!(github.branch_id.pr_number, Some(123));
}

#[test]
fn mode_resolution_follows_the_given_groups() {
    let c = Client::from_mode(ClientMode {
        local: Some(LocalClientArgs { path: Some("p".to_string()) }),
        github: None,
        metadata: Some("m".to_string()),
    });
    assert!(matches!(c.mode, Mode::Local(ref l) if l.path == "p"));
    assert_eq!(c.metadata.as_deref(), Some("m"));

    let c = Client::from_mode(ClientMode {
        local: None,
        github: Some(GithubClientArgs {
            repo: "a/b".to_string(),
            branch_id: GithubBranchId { branch_name: Some("branchy".to_string()), pr_number: None },
        }),
        metadata: None,
    });
    assert!(matches!(c.mode, Mode::Github(ref g) if g.owner == "a" && g.repo == "b"));

    let c = Client::from_mode(ClientMode { local: None, github: None, metadata: None });
    assert!(matches!(c.mode, Mode::Local(ref l) if l.path == "."));
}

#[test]
fn submission_frame_is_the_encoded_patch() {
    let client = Client::from_mode(ClientMode {
        local: Some(LocalClientArgs { path: None }),
        github: None,
        metadata: Some("build-42".to_string()),
    });
    let frame = client.submission_frame("--- a\n+++ b\n".to_string());
    let same = Patch {
        patch: "--- a\n+++ b\n".to_string(),
        metadata: Some("build-42".to_string()),
    }
    .encode_to_vec();
    assert_eq!(frame, same);
    // and the frame is a real encoding, not the text handed back
    let decoded = Patch::decode(&frame).unwrap();
    assert_eq!(decoded.patch, "--- a\n+++ b\n");
    assert_eq!(decoded.metadata.as_deref(), Some("build-42"));
}

#[test]
fn reply_interpretation_covers_every_case() {
    let accepted = PatchResponse { status: Status::Accepted }.encode_to_vec();
    assert_eq!(interpret_response(&accepted), ClientOutcome::Accepted);

    let rejected = PatchResponse { status: Status::Rejected }.encode_to_vec();
    assert_eq!(interpret_response(&rejected), ClientOutcome::Rejected);

    let unknown = PatchResponse { status: Status::Unknown }.encode_to_vec();
    assert_eq!(interpret_response(&unknown), ClientOutcome::ProtocolViolation);

    let junk: Vec<u8> = vec![0x99, 0x01];
    assert_eq!(interpret_response(&junk), ClientOutcome::MalformedResponse);
}

#[test]
fn exit_codes_follow_the_outcome() {
    assert_eq!(exit_code(ClientOutcome::Accepted), 0);
    assert_eq!(exit_code(ClientOutcome::Rejected), 1);
    assert_eq!(exit_code(ClientOutcome::ProtocolViolation), 1);
    assert_eq!(exit_code(ClientOutcome::MalformedResponse), 1);
}
