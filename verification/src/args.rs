//! Command-line arguments: the option structures and their parser.
//!
//! The grammar: an optional subcommand `client` or `server`; `-v`/`-vv`/…
//! or `--verbose` anywhere, counted; under `client` the flags `--path`/`-C`,
//! `--repo`/`-r` (an `owner/repo` pair), `--branch-name`/`-b`,
//! `--pr-number`/`-n`, each with a value token, and one bare token as
//! metadata.  A local path conflicts with everything remote; a branch name
//! conflicts with a PR number; either of the two requires a repository.

use vstd::prelude::*;

use crate::diff::{spec_read_num, read_num};

verus! {

/// Top-level command line: global verbosity and the chosen subcommand.
#[derive(Debug)]
pub struct Cli {
    pub verbose: u8,
    pub command: Option<Command>,
}

/// The subcommand.
#[derive(Debug)]
pub enum Command {
    /// Send one diff for review.
    Client(ClientMode),
    /// Receive diffs and review them.
    Server,
}

/// How the client finds its diff: a local repository, a hosted pull
/// request, or neither (the local default); plus free-form metadata.
#[derive(Debug)]
pub struct ClientMode {
    pub local: Option<LocalClientArgs>,
    pub github: Option<GithubClientArgs>,
    pub metadata: Option<String>,
}

/// Local mode: where the repository lies.
#[derive(Debug)]
pub struct LocalClientArgs {
    pub path: Option<String>,
}

/// Hosted mode: the repository and which branch or pull request.
#[derive(Debug)]
pub struct GithubClientArgs {
    pub branch_id: GithubBranchId,
    pub repo: String,
}

/// Identifies a diff on the hosting side: by branch name or by PR number.
#[derive(Debug)]
pub struct GithubBranchId {
    pub branch_name: Option<String>,
    pub pr_number: Option<u32>,
}

impl Default for LocalClientArgs {
    /// The current directory, implicitly.
    fn default() -> (r: Self)
        ensures
            r.path is None,
    {
        LocalClientArgs { path: None }
    }
}

impl Default for ClientMode {
    /// Local mode with no path and no metadata.
    fn default() -> (r: Self)
        ensures
            r.local matches Some(l) && l.path is None,
            r.github is None,
            r.metadata is None,
    {
        ClientMode { local: Some(LocalClientArgs { path: None }), github: None, metadata: None }
    }
}

impl Cli {
    /// The chosen subcommand; none given means the client in its default
    /// mode.
    pub fn command(self) -> (r: Command)
        ensures
            self.command matches Some(c) ==> r == c,
            self.command is None ==> (r matches Command::Client(m) && {
                &&& m.local matches Some(l) && l.path is None
                &&& m.github is None
                &&& m.metadata is None
            }),
    {
        match self.command {
            Some(c) => c,
            None => Command::Client(ClientMode::default()),
        }
    }
}

/// Why a command line was refused.
#[derive(Clone, Copy, Debug, PartialEq, Eq, Structural)]
pub enum ArgError {
    /// A token that is no known flag, subcommand or value.
    UnknownArgument,
    /// A flag's value token is missing.
    MissingValue,
    /// The same option was given twice.
    DuplicateArgument,
    /// A bare token where the subcommand takes none.
    UnexpectedArgument,
    /// Options that exclude each other were combined.
    Conflict,
    /// An option was given without one it requires.
    MissingRequirement,
    /// The repository is not an `owner/repo` pair.
    InvalidRepo,
    /// A number that does not parse or does not fit.
    InvalidNumber,
}

/// Is position `i` the one `/` of `s`, with neither side empty?
pub open spec fn spec_repo_slash_at(s: Seq<char>, i: int) -> bool {
    0 < i < s.len() - 1 && s[i] == '/' && (forall|j: int|
        0 <= j < s.len() && j != i ==> s[j] != '/')
}

/// Is `s` an `owner/repo` pair: exactly one `/`, neither side empty?
pub open spec fn spec_valid_repo(s: Seq<char>) -> bool {
    exists|i: int| spec_repo_slash_at(s, i)
}

/// Checks that `repo` is an `owner/repo` pair and passes it through.
pub fn parse_repo(repo: &str) -> (r: Result<String, ArgError>)
    ensures
        r is Ok <==> spec_valid_repo(repo@),
        r matches Ok(s) ==> s@ == repo@,
        r matches Err(e) ==> e == ArgError::InvalidRepo,
{
    let n = repo.unicode_len();
    let mut count: usize = 0;
    let mut pos: usize = 0;
    let mut i: usize = 0;
    while i < n
        invariant
            i <= n,
            n == repo@.len(),
            count <= i,
            count == 0 ==> forall|j: int| 0 <= j < i ==> repo@[j] != '/',
            count == 1 ==> pos < i && repo@[pos as int] == '/' && (forall|j: int|
                0 <= j < i && j != pos ==> repo@[j] != '/'),
            count >= 2 ==> exists|a: int, b: int|
                0 <= a < b < i && repo@[a] == '/' && repo@[b] == '/',
        decreases n - i,
    {
        if repo.get_char(i) == '/' {
            proof {
                if count == 1 {
                    assert(0 <= pos < i + 1 && pos as int != i as int && repo@[pos as int] == '/'
                        && repo@[i as int] == '/');
                }
            }
            count = count + 1;
            if count == 1 {
                pos = i;
            }
        }
        i += 1;
    }
    if count == 1 && pos > 0 && pos < n - 1 {
        proof {
            assert(spec_repo_slash_at(repo@, pos as int));
        }
        Ok(repo.to_owned())
    } else {
        proof {
            if spec_valid_repo(repo@) {
                let w = choose|w: int| spec_repo_slash_at(repo@, w);
                assert(spec_repo_slash_at(repo@, w));
                if count == 0 {
                    assert(repo@[w] != '/');
                } else if count == 1 {
                    assert(w == pos);
                } else {
                    let (a, b) = choose|a: int, b: int|
                        0 <= a < b < n && repo@[a] == '/' && repo@[b] == '/';
                    assert(a != w || b != w);
                }
                assert(false);
            }
        }
        Err(ArgError::InvalidRepo)
    }
}

/// Splits a validated `owner/repo` pair at its one `/`.
pub fn split_owner_repo(repo: &str) -> (r: (String, String))
    requires
        spec_valid_repo(repo@),
    ensures
        repo@ == r.0@ + seq!['/'] + r.1@,
        forall|j: int| 0 <= j < r.0@.len() ==> r.0@[j] != '/',
        r.0@.len() > 0,
        r.1@.len() > 0,
{
    let n = repo.unicode_len();
    let mut i: usize = 0;
    loop
        invariant_except_break
            i <= n,
            n == repo@.len(),
            spec_valid_repo(repo@),
            forall|j: int| 0 <= j < i ==> repo@[j] != '/',
        ensures
            i < n,
            repo@[i as int] == '/',
            forall|j: int| 0 <= j < i ==> repo@[j] != '/',
            n == repo@.len(),
        decreases n - i,
    {
        if i == n {
            proof {
                let w = choose|w: int| spec_repo_slash_at(repo@, w);
                assert(spec_repo_slash_at(repo@, w));
                assert(repo@[w] != '/');
                assert(false);
            }
            break;
        }
        if repo.get_char(i) == '/' {
            break;
        }
        i += 1;
    }
    proof {
        let w = choose|w: int| spec_repo_slash_at(repo@, w);
        assert(spec_repo_slash_at(repo@, w));
        assert(i as int == w);
    }
    let owner = repo.substring_char(0, i).to_owned();
    let rest = repo.substring_char(i + 1, n).to_owned();
    proof {
        assert(repo@ =~= owner@ + seq!['/'] + rest@);
    }
    (owner, rest)
}

} // verus!

verus! {

/// Which subcommand a token selected.
#[derive(Clone, Copy, Debug, PartialEq, Eq, Structural)]
pub enum SubSel {
    SubClient,
    SubServer,
}

/// What the parser has collected, over character sequences.
pub struct ArgSt {
    pub verbose: u8,
    pub sub: Option<SubSel>,
    pub path: Option<Seq<char>>,
    pub repo: Option<Seq<char>>,
    pub branch_name: Option<Seq<char>>,
    pub pr_number: Option<u32>,
    pub metadata: Option<Seq<char>>,
}

/// Nothing collected yet.
pub open spec fn spec_init_args() -> ArgSt {
    ArgSt {
        verbose: 0u8,
        sub: None,
        path: None,
        repo: None,
        branch_name: None,
        pr_number: None,
        metadata: None,
    }
}

/// Is `t` a counted verbosity flag: `-v`, `-vv`, …?
pub open spec fn spec_is_verbose_flag(t: Seq<char>) -> bool {
    t.len() >= 2 && t[0] == '-' && (forall|j: int| 1 <= j < t.len() ==> t[j] == 'v')
}

/// Verbosity raised by `k`, saturating.
pub open spec fn spec_verbose_add(v: u8, k: int) -> u8 {
    if v + k <= 255 {
        (v + k) as u8
    } else {
        255u8
    }
}

/// Is `t` the path flag, in long or short form?
pub open spec fn spec_is_path_flag(t: Seq<char>) -> bool {
    t == "--path"@ || t == "-C"@
}

/// Is `t` the repository flag?
pub open spec fn spec_is_repo_flag(t: Seq<char>) -> bool {
    t == "--repo"@ || t == "-r"@
}

/// Is `t` the branch-name flag?
pub open spec fn spec_is_branch_flag(t: Seq<char>) -> bool {
    t == "--branch-name"@ || t == "-b"@
}

/// Is `t` the PR-number flag?
pub open spec fn spec_is_pr_flag(t: Seq<char>) -> bool {
    t == "--pr-number"@ || t == "-n"@
}

/// Is `t` any client option flag that takes a value?
pub open spec fn spec_is_value_flag(t: Seq<char>) -> bool {
    spec_is_path_flag(t) || spec_is_repo_flag(t) || spec_is_branch_flag(t) || spec_is_pr_flag(t)
}

/// `t` as a decimal number, if all of it is digits and the value fits.
pub open spec fn spec_parse_u32(t: Seq<char>) -> Option<u32> {
    match spec_read_num(t, 0) {
        Some((v, j)) => if j == t.len() {
            Some(v)
        } else {
            None
        },
        None => None,
    }
}

/// Runs the parser over the tokens after the program name.  Flags that
/// take a value consume the following token.  The option flags belong to
/// the `client` subcommand; under `server` no token but verbosity is
/// accepted; with no subcommand only `client` or `server` may come.
pub open spec fn spec_run_args(st: ArgSt, toks: Seq<Seq<char>>) -> Result<ArgSt, ArgError>
    decreases toks.len(),
{
    if toks.len() == 0 {
        Ok(st)
    } else {
        let t = toks[0];
        let rest = toks.drop_first();
        if spec_is_verbose_flag(t) {
            spec_run_args(ArgSt { verbose: spec_verbose_add(st.verbose, t.len() - 1), ..st }, rest)
        } else if t == "--verbose"@ {
            spec_run_args(ArgSt { verbose: spec_verbose_add(st.verbose, 1), ..st }, rest)
        } else if spec_is_value_flag(t) {
            if st.sub != Some(SubSel::SubClient) {
                Err(ArgError::UnknownArgument)
            } else if toks.len() == 1 {
                Err(ArgError::MissingValue)
            } else {
                let v = toks[1];
                let rest2 = rest.drop_first();
                if spec_is_path_flag(t) {
                    if st.path is Some {
                        Err(ArgError::DuplicateArgument)
                    } else {
                        spec_run_args(ArgSt { path: Some(v), ..st }, rest2)
                    }
                } else if spec_is_repo_flag(t) {
                    if st.repo is Some {
                        Err(ArgError::DuplicateArgument)
                    } else if !spec_valid_repo(v) {
                        Err(ArgError::InvalidRepo)
                    } else {
                        spec_run_args(ArgSt { repo: Some(v), ..st }, rest2)
                    }
                } else if spec_is_branch_flag(t) {
                    if st.branch_name is Some {
                        Err(ArgError::DuplicateArgument)
                    } else {
                        spec_run_args(ArgSt { branch_name: Some(v), ..st }, rest2)
                    }
                } else {
                    if st.pr_number is Some {
                        Err(ArgError::DuplicateArgument)
                    } else {
                        match spec_parse_u32(v) {
                            None => Err(ArgError::InvalidNumber),
                            Some(num) => spec_run_args(ArgSt { pr_number: Some(num), ..st }, rest2),
                        }
                    }
                }
            }
        } else if t.len() > 0 && t[0] == '-' {
            Err(ArgError::UnknownArgument)
        } else {
            match st.sub {
                None => if t == "client"@ {
                    spec_run_args(ArgSt { sub: Some(SubSel::SubClient), ..st }, rest)
                } else if t == "server"@ {
                    spec_run_args(ArgSt { sub: Some(SubSel::SubServer), ..st }, rest)
                } else {
                    Err(ArgError::UnknownArgument)
                },
                Some(SubSel::SubServer) => Err(ArgError::UnexpectedArgument),
                Some(SubSel::SubClient) => if st.metadata is Some {
                    Err(ArgError::UnexpectedArgument)
                } else {
                    spec_run_args(ArgSt { metadata: Some(t), ..st }, rest)
                },
            }
        }
    }
}

/// The whole-line rules, checked once all tokens are read: a local path
/// excludes the remote options; a branch name excludes a PR number; either
/// of the two requires a repository.
pub open spec fn spec_arg_finish(st: ArgSt) -> Result<ArgSt, ArgError> {
    if st.path is Some && (st.repo is Some || st.branch_name is Some || st.pr_number is Some) {
        Err(ArgError::Conflict)
    } else if st.branch_name is Some && st.pr_number is Some {
        Err(ArgError::Conflict)
    } else if (st.branch_name is Some || st.pr_number is Some) && st.repo is None {
        Err(ArgError::MissingRequirement)
    } else {
        Ok(st)
    }
}

/// What a whole command line (program name first) denotes.
pub open spec fn spec_parse_cli(argv: Seq<Seq<char>>) -> Result<ArgSt, ArgError> {
    let toks = if argv.len() == 0 {
        argv
    } else {
        argv.drop_first()
    };
    match spec_run_args(spec_init_args(), toks) {
        Err(e) => Err(e),
        Ok(st) => spec_arg_finish(st),
    }
}

/// Does the built `Cli` hold exactly what the parser collected?  The local
/// group is present exactly when a path was given; the hosted group
/// exactly when a repository was given.
pub open spec fn spec_cli_matches(cli: Cli, st: ArgSt) -> bool {
    &&& cli.verbose == st.verbose
    &&& (match st.sub {
        None => cli.command is None,
        Some(SubSel::SubServer) => cli.command matches Some(c) && c is Server,
        Some(SubSel::SubClient) => (cli.command matches Some(c) && c matches Command::Client(m)
            && {
            &&& (match st.path {
                Some(p) => m.local matches Some(l) && l.path matches Some(q) && q@ == p,
                None => m.local is None,
            })
            &&& (match st.repo {
                Some(rp) => m.github matches Some(g) && {
                    &&& g.repo@ == rp
                    &&& (match st.branch_name {
                        Some(bn) => g.branch_id.branch_name matches Some(x) && x@ == bn,
                        None => g.branch_id.branch_name is None,
                    })
                    &&& g.branch_id.pr_number == st.pr_number
                },
                None => m.github is None,
            })
            &&& (match st.metadata {
                Some(md) => m.metadata matches Some(x) && x@ == md,
                None => m.metadata is None,
            })
        }),
    })
}

} // verus!

verus! {

/// Is `s` exactly `lit`?
fn str_eq(s: &str, lit: &str) -> (r: bool)
    ensures
        r == (s@ == lit@),
{
    let n = s.unicode_len();
    let m = lit.unicode_len();
    if n != m {
        return false;
    }
    let mut j: usize = 0;
    while j < n
        invariant
            j <= n,
            n == s@.len(),
            n == lit@.len(),
            forall|t: int| 0 <= t < j ==> s@[t] == lit@[t],
        decreases n - j,
    {
        if s.get_char(j) != lit.get_char(j) {
            return false;
        }
        j += 1;
    }
    proof {
        assert(s@ =~= lit@);
    }
    true
}

/// Is `t` a counted verbosity flag, mirroring [`spec_is_verbose_flag`]?
fn is_verbose_flag(t: &str) -> (r: bool)
    ensures
        r == spec_is_verbose_flag(t@),
{
    let n = t.unicode_len();
    if n < 2 {
        return false;
    }
    if t.get_char(0) != '-' {
        return false;
    }
    let mut j: usize = 1;
    while j < n
        invariant
            1 <= j <= n,
            n == t@.len(),
            forall|k: int| 1 <= k < j ==> t@[k] == 'v',
        decreases n - j,
    {
        if t.get_char(j) != 'v' {
            return false;
        }
        j += 1;
    }
    true
}

/// `t` as a decimal number, mirroring [`spec_parse_u32`].
fn parse_u32_token(t: &str) -> (r: Option<u32>)
    ensures
        r == spec_parse_u32(t@),
{
    let n = t.unicode_len();
    match read_num(t, 0) {
        Some((v, j)) => if j == n {
            Some(v)
        } else {
            None
        },
        None => None,
    }
}

/// Verbosity raised by `k`, saturating at the top.
fn verbose_add(v: u8, k: usize) -> (r: u8)
    ensures
        r == spec_verbose_add(v, k as int),
{
    if k <= 255 - (v as usize) {
        (v as usize + k) as u8
    } else {
        255
    }
}

/// What the parser has collected, over strings.
pub struct ArgState {
    pub verbose: u8,
    pub sub: Option<SubSel>,
    pub path: Option<String>,
    pub repo: Option<String>,
    pub branch_name: Option<String>,
    pub pr_number: Option<u32>,
    pub metadata: Option<String>,
}

impl View for ArgState {
    type V = ArgSt;

    open spec fn view(&self) -> ArgSt {
        ArgSt {
            verbose: self.verbose,
            sub: self.sub,
            path: match self.path {
                Some(p) => Some(p@),
                None => None,
            },
            repo: match self.repo {
                Some(p) => Some(p@),
                None => None,
            },
            branch_name: match self.branch_name {
                Some(p) => Some(p@),
                None => None,
            },
            pr_number: self.pr_number,
            metadata: match self.metadata {
                Some(p) => Some(p@),
                None => None,
            },
        }
    }
}

impl Cli {
    /// Parses a whole command line, program name first: accepts and
    /// collects exactly what [`spec_parse_cli`] says, token for token, and
    /// refuses with exactly the error it names.
    pub fn try_parse_from(args: Vec<String>) -> (r: Result<Cli, ArgError>)
        ensures
            ({
                let argv = args@.map_values(|s: String| s@);
                &&& (r is Ok <==> spec_parse_cli(argv) is Ok)
                &&& (r matches Err(e) ==> spec_parse_cli(argv) == Err::<ArgSt, ArgError>(e))
                &&& (r matches Ok(cli) ==> spec_cli_matches(cli, spec_parse_cli(argv)->Ok_0))
            }),
    {
        let ghost argv = args@.map_values(|s: String| s@);
        let ghost toks = if argv.len() == 0 {
            argv
        } else {
            argv.drop_first()
        };
        let mut st = ArgState {
            verbose: 0,
            sub: None,
            path: None,
            repo: None,
            branch_name: None,
            pr_number: None,
            metadata: None,
        };
        let n = args.len();
        let mut i: usize = 1;
        proof {
            assert(st@ == spec_init_args());
            if argv.len() > 0 {
                assert(toks.skip(0) =~= toks);
            }
        }
        while i < n
            invariant
                1 <= i <= n || (n == 0 && i == 1),
                n == args.len(),
                argv == args@.map_values(|s: String| s@),
                toks == (if argv.len() == 0 {
                    argv
                } else {
                    argv.drop_first()
                }),
                n == 0 ==> st@ == spec_init_args(),
                n > 0 ==> spec_run_args(st@, toks.skip(i - 1)) == spec_run_args(
                    spec_init_args(),
                    toks,
                ),
            decreases n - i,
        {
            let ghost trem = toks.skip(i - 1);
            let ghost st0 = st@;
            let t = &args[i];
            proof {
                assert(trem[0] == toks[i - 1]);
                assert(toks[i - 1] == argv[i as int]);
                assert(argv[i as int] == args@[i as int]@);
                assert(trem.drop_first() =~= toks.skip(i as int));
            }
            if is_verbose_flag(t.as_str()) {
                let c = t.as_str().unicode_len() - 1;
                st.verbose = verbose_add(st.verbose, c);
                proof {
                    assert(spec_run_args(st0, trem) == spec_run_args(st@, trem.drop_first()));
                }
                i += 1;
            } else if str_eq(t.as_str(), "--verbose") {
                st.verbose = verbose_add(st.verbose, 1);
                proof {
                    assert(spec_run_args(st0, trem) == spec_run_args(st@, trem.drop_first()));
                }
                i += 1;
            } else {
                let is_path = str_eq(t.as_str(), "--path") || str_eq(t.as_str(), "-C");
                let is_repo = str_eq(t.as_str(), "--repo") || str_eq(t.as_str(), "-r");
                let is_branch = str_eq(t.as_str(), "--branch-name") || str_eq(t.as_str(), "-b");
                let is_pr = str_eq(t.as_str(), "--pr-number") || str_eq(t.as_str(), "-n");
                if is_path || is_repo || is_branch || is_pr {
                    let in_client = match st.sub {
                        Some(SubSel::SubClient) => true,
                        _ => false,
                    };
                    if !in_client {
                        return Err(ArgError::UnknownArgument);
                    }
                    if i + 1 == n {
                        assert(trem.len() == 1);
                        return Err(ArgError::MissingValue);
                    }
                    let v = &args[i + 1];
                    proof {
                        assert(trem[1] == toks[i as int]);
                        assert(toks[i as int] == argv[i + 1]);
                        assert(argv[i + 1] == args@[i + 1]@);
                        assert(trem.drop_first().drop_first() =~= trem.skip(2));
                        assert(trem.skip(2) =~= toks.skip(i + 1));
                    }
                    if is_path {
                        if st.path.is_some() {
                            return Err(ArgError::DuplicateArgument);
                        }
                        st.path = Some(v.clone());
                    } else if is_repo {
                        if st.repo.is_some() {
                            return Err(ArgError::DuplicateArgument);
                        }
                        match parse_repo(v.as_str()) {
                            Err(e) => {
                                return Err(e);
                            },
                            Ok(rp) => {
                                st.repo = Some(rp);
                            },
                        }
                    } else if is_branch {
                        if st.branch_name.is_some() {
                            return Err(ArgError::DuplicateArgument);
                        }
                        st.branch_name = Some(v.clone());
                    } else {
                        if st.pr_number.is_some() {
                            return Err(ArgError::DuplicateArgument);
                        }
                        match parse_u32_token(v.as_str()) {
                            None => {
                                return Err(ArgError::InvalidNumber);
                            },
                            Some(num) => {
                                st.pr_number = Some(num);
                            },
                        }
                    }
                    proof {
                        assert(spec_run_args(st0, trem) == spec_run_args(st@, trem.skip(2)));
                    }
                    i += 2;
                } else {
                    let dash = t.as_str().unicode_len() > 0 && t.as_str().get_char(0) == '-';
                    if dash {
                        return Err(ArgError::UnknownArgument);
                    }
                    match st.sub {
                        None => {
                            if str_eq(t.as_str(), "client") {
                                st.sub = Some(SubSel::SubClient);
                            } else if str_eq(t.as_str(), "server") {
                                st.sub = Some(SubSel::SubServer);
                            } else {
                                return Err(ArgError::UnknownArgument);
                            }
                        },
                        Some(SubSel::SubServer) => {
                            return Err(ArgError::UnexpectedArgument);
                        },
                        Some(SubSel::SubClient) => {
                            if st.metadata.is_some() {
                                return Err(ArgError::UnexpectedArgument);
                            }
                            st.metadata = Some(t.clone());
                        },
                    }
                    proof {
                        assert(spec_run_args(st0, trem) == spec_run_args(st@, trem.drop_first()));
                    }
                    i += 1;
                }
            }
        }
        proof {
            if n > 0 {
                assert(toks.skip(i - 1).len() == 0);
            }
            assert(spec_run_args(spec_init_args(), toks) == Ok::<ArgSt, ArgError>(st@));
        }
        if st.path.is_some() && (st.repo.is_some() || st.branch_name.is_some()
            || st.pr_number.is_some()) {
            return Err(ArgError::Conflict);
        }
        if st.branch_name.is_some() && st.pr_number.is_some() {
            return Err(ArgError::Conflict);
        }
        if (st.branch_name.is_some() || st.pr_number.is_some()) && st.repo.is_none() {
            return Err(ArgError::MissingRequirement);
        }
        let ArgState { verbose, sub, path, repo, branch_name, pr_number, metadata } = st;
        let command = match sub {
            None => None,
            Some(SubSel::SubServer) => Some(Command::Server),
            Some(SubSel::SubClient) => {
                let local = match path {
                    Some(p) => Some(LocalClientArgs { path: Some(p) }),
                    None => None,
                };
                let github = match repo {
                    Some(rp) => Some(
                        GithubClientArgs {
                            repo: rp,
                            branch_id: GithubBranchId { branch_name, pr_number },
                        },
                    ),
                    None => None,
                };
                Some(Command::Client(ClientMode { local, github, metadata }))
            },
        };
        Ok(Cli { verbose, command })
    }
}

} // verus!

verus! {

/// How much the process logs.
#[derive(Clone, Copy, Debug, PartialEq, Eq, Structural)]
pub enum LogLevel {
    Off,
    Warn,
    Info,
    Debug,
}

/// The log level a verbosity count selects: silent by default, then
/// warnings, then information, then everything.
pub fn log_level(verbose: u8) -> (r: LogLevel)
    ensures
        verbose == 0 ==> r == LogLevel::Off,
        verbose == 1 ==> r == LogLevel::Warn,
        verbose == 2 ==> r == LogLevel::Info,
        verbose >= 3 ==> r == LogLevel::Debug,
{
    if verbose == 0 {
        LogLevel::Off
    } else if verbose == 1 {
        LogLevel::Warn
    } else if verbose == 2 {
        LogLevel::Info
    } else {
        LogLevel::Debug
    }
}

} // verus!
