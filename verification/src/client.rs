//! Client side: mode resolution, building the submission frame, and
//! reading the decision that comes back.
//!
//! Acquiring the diff text — walking a local repository or fetching a
//! hosted pull request — is an opaque string producer outside the library;
//! the client logic here turns the chosen mode and that string into wire
//! bytes, and the reply bytes into the process outcome.

use vstd::prelude::*;

use crate::args::{
    spec_valid_repo, split_owner_repo, ClientMode, GithubBranchId, GithubClientArgs,
    LocalClientArgs,
};
use crate::models::{
    spec_decode_response, spec_encode_patch, Patch, PatchResponse, PatchView, Status,
};

verus! {

/// What the client was asked to submit, resolved: a local repository or a
/// hosted pull request, plus the metadata to attach.
#[derive(Debug)]
pub struct Client {
    pub mode: Mode,
    pub metadata: Option<String>,
}

/// Where the diff comes from.
#[derive(Debug)]
pub enum Mode {
    Local(Local),
    Github(Github),
}

/// A local repository, by path.
#[derive(Debug)]
pub struct Local {
    pub path: String,
}

/// A hosted repository, split into owner and name, and which branch or
/// pull request to take the diff from.
#[derive(Debug)]
pub struct Github {
    pub owner: String,
    pub repo: String,
    pub branch_id: GithubBranchId,
}

impl Local {
    /// Resolves the local arguments: a missing path means the current
    /// directory.
    pub fn from_args(args: LocalClientArgs) -> (r: Local)
        ensures
            args.path matches Some(p) ==> r.path@ == p@,
            args.path is None ==> r.path@ == "."@,
    {
        match args.path {
            Some(p) => Local { path: p },
            None => Local { path: ".".to_owned() },
        }
    }
}

impl Github {
    /// Resolves the hosted arguments: the validated `owner/repo` pair is
    /// split at its one `/`; the branch identifier is carried over.
    pub fn from_args(args: GithubClientArgs) -> (r: Github)
        requires
            spec_valid_repo(args.repo@),
        ensures
            args.repo@ == r.owner@ + seq!['/'] + r.repo@,
            r.owner@.len() > 0,
            r.repo@.len() > 0,
            r.branch_id == args.branch_id,
    {
        let (owner, repo) = split_owner_repo(args.repo.as_str());
        Github { owner, repo, branch_id: args.branch_id }
    }
}

impl Client {
    /// Resolves a parsed client mode: local arguments alone mean local,
    /// hosted arguments alone mean hosted, anything else falls back to the
    /// local default.
    pub fn from_mode(mode: ClientMode) -> (r: Client)
        requires
            mode.github matches Some(g) ==> spec_valid_repo(g.repo@),
        ensures
            r.metadata == mode.metadata,
            (mode.local is Some && mode.github is None) ==> (r.mode matches Mode::Local(l)
                && (mode.local->Some_0.path matches Some(p) ==> l.path@ == p@) && (
            mode.local->Some_0.path is None ==> l.path@ == "."@)),
            (mode.local is None && mode.github is Some) ==> (r.mode matches Mode::Github(g) && {
                &&& mode.github->Some_0.repo@ == g.owner@ + seq!['/'] + g.repo@
                &&& g.branch_id == mode.github->Some_0.branch_id
            }),
            !(mode.local is Some && mode.github is None) && !(mode.local is None
                && mode.github is Some) ==> (r.mode matches Mode::Local(l) && l.path@ == "."@),
    {
        let ClientMode { local, github, metadata } = mode;
        let mode_enum = match (local, github) {
            (Some(local_args), None) => Mode::Local(Local::from_args(local_args)),
            (None, Some(github_args)) => Mode::Github(Github::from_args(github_args)),
            _ => Mode::Local(Local { path: ".".to_owned() }),
        };
        Client { mode: mode_enum, metadata }
    }

    /// The wire frame that submits `diff_text` with this client's
    /// metadata.
    pub fn submission_frame(&self, diff_text: String) -> (r: Vec<u8>)
        ensures
            r@ == spec_encode_patch(
                PatchView {
                    patch: diff_text@,
                    metadata: match self.metadata {
                        Some(m) => Some(m@),
                        None => None,
                    },
                },
            ),
    {
        let metadata = match &self.metadata {
            Some(m) => Some(m.clone()),
            None => None,
        };
        let patch = Patch { patch: diff_text, metadata };
        patch.encode_to_vec()
    }
}

/// How one submission ended for the submitter.
#[derive(Clone, Copy, Debug, PartialEq, Eq, Structural)]
pub enum ClientOutcome {
    /// The operator accepted the patch.
    Accepted,
    /// The operator rejected the patch.
    Rejected,
    /// The reply carried the `Unknown` placeholder, which nothing may act
    /// on.
    ProtocolViolation,
    /// The reply bytes were no decision at all.
    MalformedResponse,
}

/// The outcome a reply frame denotes.
pub open spec fn spec_outcome_of(b: Seq<u8>) -> ClientOutcome {
    match spec_decode_response(b) {
        None => ClientOutcome::MalformedResponse,
        Some(resp) => match resp.status {
            Status::Accepted => ClientOutcome::Accepted,
            Status::Rejected => ClientOutcome::Rejected,
            Status::Unknown => ClientOutcome::ProtocolViolation,
        },
    }
}

/// Reads the decision frame the server sent back: exactly
/// [`spec_outcome_of`] of its bytes.
pub fn interpret_response(b: &Vec<u8>) -> (r: ClientOutcome)
    ensures
        r == spec_outcome_of(b@),
{
    match PatchResponse::decode(b) {
        Err(_) => ClientOutcome::MalformedResponse,
        Ok(resp) => match resp.status {
            Status::Accepted => ClientOutcome::Accepted,
            Status::Rejected => ClientOutcome::Rejected,
            Status::Unknown => ClientOutcome::ProtocolViolation,
        },
    }
}

/// The submitter's process exit code: zero exactly for a delivered and
/// accepted patch, nonzero for a rejection or any failure.
pub fn exit_code(outcome: ClientOutcome) -> (r: i32)
    ensures
        (r == 0) <==> outcome == ClientOutcome::Accepted,
        outcome != ClientOutcome::Accepted ==> r == 1,
{
    match outcome {
        ClientOutcome::Accepted => 0,
        ClientOutcome::Rejected => 1,
        ClientOutcome::ProtocolViolation => 1,
        ClientOutcome::MalformedResponse => 1,
    }
}

} // verus!
