//! Unified-diff model and parser.
//!
//! A submission's diff text is parsed into a `PatchSet`: an ordered list of
//! files, each with its source and target names and an ordered list of
//! hunks, each hunk an ordered list of lines tagged added, removed or
//! context.  The grammar is the unified diff format: a file starts with a
//! `--- ` line immediately followed by a `+++ ` line; a hunk starts with a
//! `@@ -start,len +start,len @@` header and holds exactly as many source
//! and target lines as the header announces; lines between files that are
//! not headers (`diff --git`, `index`, mode lines) are skipped.
//!
//! The spec functions in this module are the grammar; the executable parser
//! is proved to return exactly what they denote.

use vstd::prelude::*;

verus! {

/// How one line of a hunk relates the source to the target.
#[derive(Clone, Copy, Debug, PartialEq, Eq, Structural)]
pub enum LineKind {
    Added,
    Removed,
    Context,
}

/// One line of a hunk: its tag and its text (without the leading marker).
#[derive(Clone, Debug, PartialEq)]
pub struct DiffLine {
    pub kind: LineKind,
    pub value: String,
}

/// Mathematical content of a `DiffLine`.
pub struct DiffLineView {
    pub kind: LineKind,
    pub value: Seq<char>,
}

impl View for DiffLine {
    type V = DiffLineView;

    open spec fn view(&self) -> DiffLineView {
        DiffLineView { kind: self.kind, value: self.value@ }
    }
}

/// A contiguous block of tagged lines, with the ranges its header announced.
#[derive(Clone, Debug, PartialEq)]
pub struct Hunk {
    pub source_start: u32,
    pub source_len: u32,
    pub target_start: u32,
    pub target_len: u32,
    pub lines: Vec<DiffLine>,
}

/// Mathematical content of a `Hunk`.
pub struct HunkView {
    pub source_start: u32,
    pub source_len: u32,
    pub target_start: u32,
    pub target_len: u32,
    pub lines: Seq<DiffLineView>,
}

impl View for Hunk {
    type V = HunkView;

    open spec fn view(&self) -> HunkView {
        HunkView {
            source_start: self.source_start,
            source_len: self.source_len,
            target_start: self.target_start,
            target_len: self.target_len,
            lines: self.lines@.map_values(|l: DiffLine| l@),
        }
    }
}

/// One file of a patch set: its names as they stand after `--- ` and
/// `+++ `, and its hunks in order.
#[derive(Clone, Debug, PartialEq)]
pub struct PatchedFile {
    pub source_file: String,
    pub target_file: String,
    pub hunks: Vec<Hunk>,
}

/// Mathematical content of a `PatchedFile`.
pub struct PatchedFileView {
    pub source_file: Seq<char>,
    pub target_file: Seq<char>,
    pub hunks: Seq<HunkView>,
}

impl View for PatchedFile {
    type V = PatchedFileView;

    open spec fn view(&self) -> PatchedFileView {
        PatchedFileView {
            source_file: self.source_file@,
            target_file: self.target_file@,
            hunks: self.hunks@.map_values(|h: Hunk| h@),
        }
    }
}

/// A parsed diff: files in the order they appear.
#[derive(Clone, Debug, PartialEq)]
pub struct PatchSet {
    pub files: Vec<PatchedFile>,
}

/// Mathematical content of a `PatchSet`.
pub struct PatchSetView {
    pub files: Seq<PatchedFileView>,
}

impl View for PatchSet {
    type V = PatchSetView;

    open spec fn view(&self) -> PatchSetView {
        PatchSetView { files: self.files@.map_values(|f: PatchedFile| f@) }
    }
}

/// Failure of the diff parser: the text does not follow the grammar.
#[derive(Clone, Copy, Debug, PartialEq, Eq, Structural)]
pub enum DiffError {
    MalformedPatch,
}

// ---------------------------------------------------------------------------
// the grammar, as spec functions
// ---------------------------------------------------------------------------

/// Does `s` start with `p`?
pub open spec fn spec_starts_with(s: Seq<char>, p: Seq<char>) -> bool {
    s.len() >= p.len() && s.subrange(0, p.len() as int) == p
}

/// Is `c` a decimal digit?
pub open spec fn spec_is_digit(c: char) -> bool {
    48 <= c as u32 <= 57
}

/// Value of a decimal digit.
pub open spec fn spec_digit_val(c: char) -> u32 {
    (c as u32 - 48) as u32
}

/// Reads decimal digits from `s` starting at `i` into the accumulator
/// `acc`: the value and the position after the digits, or `None` when a
/// digit would overflow the value.
pub open spec fn spec_read_num_from(s: Seq<char>, i: int, acc: u32) -> Option<(u32, int)>
    decreases s.len() - i,
    when 0 <= i <= s.len()
{
    if i < s.len() && spec_is_digit(s[i]) {
        if acc <= (0xffff_ffffu32 - 9) / 10 {
            spec_read_num_from(s, i + 1, (acc * 10 + spec_digit_val(s[i])) as u32)
        } else {
            None
        }
    } else {
        Some((acc, i))
    }
}

/// Reads a decimal number (at least one digit) from `s` starting at `i`.
pub open spec fn spec_read_num(s: Seq<char>, i: int) -> Option<(u32, int)> {
    if 0 <= i < s.len() && spec_is_digit(s[i]) {
        spec_read_num_from(s, i, 0)
    } else {
        None
    }
}

/// Reads a range `start[,len]` from `s` at `i`; a missing length reads
/// as 1.
pub open spec fn spec_read_range(s: Seq<char>, i: int) -> Option<(u32, u32, int)> {
    match spec_read_num(s, i) {
        None => None,
        Some((start, j)) => {
            if j < s.len() && s[j] == ',' {
                match spec_read_num(s, j + 1) {
                    None => None,
                    Some((len, k)) => Some((start, len, k)),
                }
            } else {
                Some((start, 1, j))
            }
        },
    }
}

/// Parses a hunk header `@@ -a[,b] +c[,d] @@ ...`: the two ranges, or
/// `None` when the line is not such a header.
pub open spec fn spec_parse_hunk_header(line: Seq<char>) -> Option<(u32, u32, u32, u32)> {
    if !spec_starts_with(line, "@@ -"@) {
        None
    } else {
        match spec_read_range(line, 4) {
            None => None,
            Some((ss, sl, i)) => {
                if i + 2 <= line.len() && line[i] == ' ' && line[i + 1] == '+' {
                    match spec_read_range(line, i + 2) {
                        None => None,
                        Some((ts, tl, j)) => {
                            if j + 3 <= line.len() && line[j] == ' ' && line[j + 1] == '@'
                                && line[j + 2] == '@' {
                                Some((ss, sl, ts, tl))
                            } else {
                                None
                            }
                        },
                    }
                } else {
                    None
                }
            },
        }
    }
}

/// A hunk being collected: its header ranges, the lines so far, and how
/// many source and target lines the header still owes.
pub struct HunkSt {
    pub source_start: u32,
    pub source_len: u32,
    pub target_start: u32,
    pub target_len: u32,
    pub lines: Seq<DiffLineView>,
    pub rem_src: int,
    pub rem_tgt: int,
}

/// A file being collected: `target_file` is `None` between the `--- ` line
/// and its `+++ ` line.
pub struct FileSt {
    pub source_file: Seq<char>,
    pub target_file: Option<Seq<char>>,
    pub hunks: Seq<HunkView>,
}

/// The parser's state between lines.
pub struct ParseSt {
    pub files: Seq<PatchedFileView>,
    pub cur: Option<FileSt>,
    pub hunk: Option<HunkSt>,
}

/// State before any line.
pub open spec fn spec_init_state() -> ParseSt {
    ParseSt { files: Seq::empty(), cur: None, hunk: None }
}

/// Closes a finished hunk into the current file.
pub open spec fn spec_close_hunk(st: ParseSt, h: HunkSt, lines: Seq<DiffLineView>) -> ParseSt {
    let hv = HunkView {
        source_start: h.source_start,
        source_len: h.source_len,
        target_start: h.target_start,
        target_len: h.target_len,
        lines: lines,
    };
    let f = st.cur->Some_0;
    ParseSt {
        files: st.files,
        cur: Some(FileSt { source_file: f.source_file, target_file: f.target_file, hunks: f.hunks.push(hv) }),
        hunk: None,
    }
}

/// Consumes one hunk line with the given tag and count changes.
pub open spec fn spec_hunk_line(st: ParseSt, h: HunkSt, kind: LineKind, value: Seq<char>, ds: int, dt: int) -> ParseSt {
    let lines = h.lines.push(DiffLineView { kind, value });
    let rs = h.rem_src - ds;
    let rt = h.rem_tgt - dt;
    if rs == 0 && rt == 0 {
        spec_close_hunk(st, h, lines)
    } else {
        ParseSt {
            files: st.files,
            cur: st.cur,
            hunk: Some(HunkSt { lines, rem_src: rs, rem_tgt: rt, ..h }),
        }
    }
}

/// One line of input applied to the parser state; `None` is a malformed
/// patch.
pub open spec fn spec_step(st: ParseSt, line: Seq<char>) -> Option<ParseSt> {
    if st.hunk is Some {
        let h = st.hunk->Some_0;
        if line.len() > 0 && line[0] == '\\' {
            // "\ No newline at end of file": annotates, counts for nothing
            Some(st)
        } else if line.len() > 0 && line[0] == '+' && h.rem_tgt > 0 {
            Some(spec_hunk_line(st, h, LineKind::Added, line.drop_first(), 0, 1))
        } else if line.len() > 0 && line[0] == '-' && h.rem_src > 0 {
            Some(spec_hunk_line(st, h, LineKind::Removed, line.drop_first(), 1, 0))
        } else if line.len() > 0 && line[0] == ' ' && h.rem_src > 0 && h.rem_tgt > 0 {
            Some(spec_hunk_line(st, h, LineKind::Context, line.drop_first(), 1, 1))
        } else {
            None
        }
    } else if spec_starts_with(line, "--- "@) {
        if st.cur is Some && st.cur->Some_0.target_file is None {
            None
        } else {
            let files = match st.cur {
                Some(f) => st.files.push(
                    PatchedFileView {
                        source_file: f.source_file,
                        target_file: f.target_file->Some_0,
                        hunks: f.hunks,
                    },
                ),
                None => st.files,
            };
            Some(
                ParseSt {
                    files,
                    cur: Some(
                        FileSt {
                            source_file: line.skip(4),
                            target_file: None,
                            hunks: Seq::empty(),
                        },
                    ),
                    hunk: None,
                },
            )
        }
    } else if spec_starts_with(line, "+++ "@) {
        if st.cur is Some && st.cur->Some_0.target_file is None {
            let f = st.cur->Some_0;
            Some(
                ParseSt {
                    files: st.files,
                    cur: Some(FileSt { target_file: Some(line.skip(4)), ..f }),
                    hunk: None,
                },
            )
        } else {
            None
        }
    } else if spec_starts_with(line, "@@ -"@) {
        if st.cur is Some && st.cur->Some_0.target_file is Some {
            match spec_parse_hunk_header(line) {
                None => None,
                Some((ss, sl, ts, tl)) => {
                    let h = HunkSt {
                        source_start: ss,
                        source_len: sl,
                        target_start: ts,
                        target_len: tl,
                        lines: Seq::empty(),
                        rem_src: sl as int,
                        rem_tgt: tl as int,
                    };
                    if sl == 0 && tl == 0 {
                        Some(spec_close_hunk(ParseSt { hunk: Some(h), ..st }, h, Seq::empty()))
                    } else {
                        Some(ParseSt { files: st.files, cur: st.cur, hunk: Some(h) })
                    }
                },
            }
        } else {
            None
        }
    } else {
        // noise between files (diff/index/mode lines); not allowed while a
        // `--- ` line waits for its `+++ ` line
        if st.cur is Some && st.cur->Some_0.target_file is None {
            None
        } else {
            Some(st)
        }
    }
}

/// End of input: an open hunk or a half-open file header is a malformed
/// patch; the last file is closed.
pub open spec fn spec_finish(st: ParseSt) -> Option<PatchSetView> {
    if st.hunk is Some {
        None
    } else {
        match st.cur {
            Some(f) => {
                if f.target_file is None {
                    None
                } else {
                    Some(
                        PatchSetView {
                            files: st.files.push(
                                PatchedFileView {
                                    source_file: f.source_file,
                                    target_file: f.target_file->Some_0,
                                    hunks: f.hunks,
                                },
                            ),
                        },
                    )
                }
            },
            None => Some(PatchSetView { files: st.files }),
        }
    }
}

/// Position of the end of the line that starts at `i`: the next `'\n'`, or
/// the end of the text.
pub open spec fn spec_line_end(s: Seq<char>, i: int) -> int
    decreases s.len() - i,
    when 0 <= i <= s.len()
{
    if i >= s.len() {
        s.len() as int
    } else if s[i] == '\n' {
        i
    } else {
        spec_line_end(s, i + 1)
    }
}

/// The line end lies between `i` and the end of the text.
pub proof fn lemma_line_end_bounds(s: Seq<char>, i: int)
    requires
        0 <= i <= s.len(),
    ensures
        i <= spec_line_end(s, i) <= s.len(),
    decreases s.len() - i,
{
    if i < s.len() && s[i] != '\n' {
        lemma_line_end_bounds(s, i + 1);
    }
}

/// Runs the parser over `s` from state `st`, one line at a time.
pub open spec fn spec_parse_at(st: ParseSt, s: Seq<char>) -> Option<PatchSetView>
    decreases s.len(),
    via spec_parse_at_decreases
{
    if s.len() == 0 {
        spec_finish(st)
    } else {
        let e = spec_line_end(s, 0);
        let line = s.subrange(0, e);
        let rest = if e == s.len() { Seq::<char>::empty() } else { s.skip(e + 1) };
        match spec_step(st, line) {
            None => None,
            Some(st2) => spec_parse_at(st2, rest),
        }
    }
}

#[via_fn]
proof fn spec_parse_at_decreases(st: ParseSt, s: Seq<char>) {
    if s.len() > 0 {
        lemma_line_end_bounds(s, 0);
    }
}

/// The diff denoted by `s`, or `None` when `s` is not a well-formed patch.
pub open spec fn spec_parse_patch(s: Seq<char>) -> Option<PatchSetView> {
    spec_parse_at(spec_init_state(), s)
}

} // verus!

verus! {

// ---------------------------------------------------------------------------
// the executable parser
// ---------------------------------------------------------------------------

/// Does `line` start with `p`?
fn has_prefix(line: &str, p: &str) -> (r: bool)
    ensures
        r == spec_starts_with(line@, p@),
{
    let n = line.unicode_len();
    let m = p.unicode_len();
    if n < m {
        return false;
    }
    let mut j: usize = 0;
    while j < m
        invariant
            0 <= j <= m,
            m <= n,
            m == p@.len(),
            n == line@.len(),
            forall|t: int| 0 <= t < j ==> line@[t] == p@[t],
        decreases m - j,
    {
        if line.get_char(j) != p.get_char(j) {
            proof {
                assert(line@.subrange(0, m as int)[j as int] != p@[j as int]);
            }
            return false;
        }
        j += 1;
    }
    proof {
        assert(line@.subrange(0, m as int) =~= p@);
    }
    true
}

/// Reads a decimal number (at least one digit) from `line` at `i`,
/// mirroring [`spec_read_num`].
pub(crate) fn read_num(line: &str, i: usize) -> (r: Option<(u32, usize)>)
    requires
        i <= line@.len(),
    ensures
        match r {
            None => spec_read_num(line@, i as int) is None,
            Some((v, j)) => {
                &&& spec_read_num(line@, i as int) == Some((v, j as int))
                &&& i <= j <= line@.len()
            },
        },
{
    let n = line.unicode_len();
    if i >= n {
        return None;
    }
    let c0 = line.get_char(i);
    if !(48 <= c0 as u32 && c0 as u32 <= 57) {
        return None;
    }
    let mut acc: u32 = 0;
    let mut j: usize = i;
    loop
        invariant_except_break
            i <= j <= n,
            n == line@.len(),
            spec_read_num_from(line@, i as int, 0) == spec_read_num_from(line@, j as int, acc),
        ensures
            i <= j <= n,
            n == line@.len(),
            spec_read_num_from(line@, i as int, 0) == spec_read_num_from(line@, j as int, acc),
            j == n || !spec_is_digit(line@[j as int]) || acc > (0xffff_ffffu32 - 9) / 10,
        decreases n - j,
    {
        if j == n {
            break;
        }
        let c = line.get_char(j);
        if !(48 <= c as u32 && c as u32 <= 57) {
            break;
        }
        if acc > (0xffff_ffffu32 - 9) / 10 {
            break;
        }
        acc = acc * 10 + (c as u32 - 48);
        j += 1;
    }
    if j < n {
        let c = line.get_char(j);
        if 48 <= c as u32 && c as u32 <= 57 {
            // a digit remains only when the value overflowed
            return None;
        }
    }
    Some((acc, j))
}

/// Reads a range `start[,len]` from `line` at `i`, mirroring
/// [`spec_read_range`].
fn read_range(line: &str, i: usize) -> (r: Option<(u32, u32, usize)>)
    requires
        i <= line@.len(),
    ensures
        match r {
            None => spec_read_range(line@, i as int) is None,
            Some((start, len, j)) => {
                &&& spec_read_range(line@, i as int) == Some((start, len, j as int))
                &&& i <= j <= line@.len()
            },
        },
{
    let n = line.unicode_len();
    match read_num(line, i) {
        None => None,
        Some((start, j)) => {
            if j < n && line.get_char(j) == ',' {
                match read_num(line, j + 1) {
                    None => None,
                    Some((len, k)) => Some((start, len, k)),
                }
            } else {
                Some((start, 1, j))
            }
        },
    }
}

/// Parses a hunk header, mirroring [`spec_parse_hunk_header`].
fn parse_hunk_header(line: &str) -> (r: Option<(u32, u32, u32, u32)>)
    ensures
        r == spec_parse_hunk_header(line@),
{
    proof {
        reveal_strlit("@@ -");
    }
    if !has_prefix(line, "@@ -") {
        return None;
    }
    let n = line.unicode_len();
    match read_range(line, 4) {
        None => None,
        Some((ss, sl, i)) => {
            if n >= 2 && i <= n - 2 && line.get_char(i) == ' ' && line.get_char(i + 1) == '+' {
                match read_range(line, i + 2) {
                    None => None,
                    Some((ts, tl, j)) => {
                        if n >= 3 && j <= n - 3 && line.get_char(j) == ' ' && line.get_char(j + 1)
                            == '@' && line.get_char(j + 2) == '@' {
                            Some((ss, sl, ts, tl))
                        } else {
                            None
                        }
                    },
                }
            } else {
                None
            }
        },
    }
}

/// A hunk being collected.
pub struct HunkBuild {
    pub source_start: u32,
    pub source_len: u32,
    pub target_start: u32,
    pub target_len: u32,
    pub lines: Vec<DiffLine>,
    pub rem_src: u32,
    pub rem_tgt: u32,
}

impl View for HunkBuild {
    type V = HunkSt;

    open spec fn view(&self) -> HunkSt {
        HunkSt {
            source_start: self.source_start,
            source_len: self.source_len,
            target_start: self.target_start,
            target_len: self.target_len,
            lines: self.lines@.map_values(|l: DiffLine| l@),
            rem_src: self.rem_src as int,
            rem_tgt: self.rem_tgt as int,
        }
    }
}

/// A file being collected.
pub struct FileBuild {
    pub source_file: String,
    pub target_file: Option<String>,
    pub hunks: Vec<Hunk>,
}

impl View for FileBuild {
    type V = FileSt;

    open spec fn view(&self) -> FileSt {
        FileSt {
            source_file: self.source_file@,
            target_file: match self.target_file {
                Some(t) => Some(t@),
                None => None,
            },
            hunks: self.hunks@.map_values(|h: Hunk| h@),
        }
    }
}

/// The parser's state between lines.
pub struct Builder {
    pub files: Vec<PatchedFile>,
    pub cur: Option<FileBuild>,
    pub hunk: Option<HunkBuild>,
}

impl View for Builder {
    type V = ParseSt;

    open spec fn view(&self) -> ParseSt {
        ParseSt {
            files: self.files@.map_values(|f: PatchedFile| f@),
            cur: match self.cur {
                Some(f) => Some(f@),
                None => None,
            },
            hunk: match self.hunk {
                Some(h) => Some(h@),
                None => None,
            },
        }
    }
}

impl Builder {
    /// An open hunk always sits inside a file whose header is complete.
    pub open spec fn wf(&self) -> bool {
        self.hunk is Some ==> (self.cur is Some && self.cur->Some_0.target_file is Some)
    }
}

/// Applies one line to the parser state, mirroring [`spec_step`].
fn parse_step(b: Builder, line: &str) -> (r: Option<Builder>)
    requires
        b.wf(),
    ensures
        match r {
            None => spec_step(b@, line@) is None,
            Some(b2) => spec_step(b@, line@) == Some(b2@) && b2.wf(),
        },
{
    proof {
        reveal_strlit("--- ");
        reveal_strlit("+++ ");
        reveal_strlit("@@ -");
    }
    let n = line.unicode_len();
    let Builder { mut files, mut cur, hunk } = b;
    match hunk {
        Some(h) => {
            if n == 0 {
                return None;
            }
            let c0 = line.get_char(0);
            if c0 == '\\' {
                return Some(Builder { files, cur, hunk: Some(h) });
            }
            let (kind, ds, dt): (LineKind, u32, u32) = if c0 == '+' && h.rem_tgt > 0 {
                (LineKind::Added, 0, 1)
            } else if c0 == '-' && h.rem_src > 0 {
                (LineKind::Removed, 1, 0)
            } else if c0 == ' ' && h.rem_src > 0 && h.rem_tgt > 0 {
                (LineKind::Context, 1, 1)
            } else {
                return None;
            };
            let value = line.substring_char(1, n).to_owned();
            proof {
                assert(value@ =~= line@.drop_first());
            }
            let l = DiffLine { kind, value };
            let ghost old_h = h;
            let mut h = h;
            h.lines.push(l);
            h.rem_src = h.rem_src - ds;
            h.rem_tgt = h.rem_tgt - dt;
            proof {
                assert(h.lines@.map_values(|x: DiffLine| x@) =~= old_h@.lines.push(l@));
            }
            if h.rem_src == 0 && h.rem_tgt == 0 {
                let f = match cur {
                    Some(f) => f,
                    None => {
                        proof {
                            assert(false);
                        }
                        return None;
                    },
                };
                let hunk_done = Hunk {
                    source_start: h.source_start,
                    source_len: h.source_len,
                    target_start: h.target_start,
                    target_len: h.target_len,
                    lines: h.lines,
                };
                let ghost old_f = f;
                let mut f = f;
                f.hunks.push(hunk_done);
                proof {
                    assert(f.hunks@.map_values(|x: Hunk| x@) =~= old_f@.hunks.push(hunk_done@));
                }
                Some(Builder { files, cur: Some(f), hunk: None })
            } else {
                Some(Builder { files, cur, hunk: Some(h) })
            }
        },
        None => {
            if has_prefix(line, "--- ") {
                match cur {
                    Some(f) => {
                        match f.target_file {
                            None => None,
                            Some(t) => {
                                let done = PatchedFile {
                                    source_file: f.source_file,
                                    target_file: t,
                                    hunks: f.hunks,
                                };
                                let ghost old_files = files@;
                                files.push(done);
                                proof {
                                    assert(files@.map_values(|x: PatchedFile| x@)
                                        =~= old_files.map_values(|x: PatchedFile| x@).push(done@));
                                }
                                let source_file = line.substring_char(4, n).to_owned();
                                proof {
                                    assert(source_file@ =~= line@.skip(4));
                                    assert(Seq::<Hunk>::empty().map_values(|x: Hunk| x@)
                                        =~= Seq::<HunkView>::empty());
                                }
                                Some(
                                    Builder {
                                        files,
                                        cur: Some(
                                            FileBuild {
                                                source_file,
                                                target_file: None,
                                                hunks: Vec::new(),
                                            },
                                        ),
                                        hunk: None,
                                    },
                                )
                            },
                        }
                    },
                    None => {
                        let source_file = line.substring_char(4, n).to_owned();
                        proof {
                            assert(source_file@ =~= line@.skip(4));
                            assert(Seq::<Hunk>::empty().map_values(|x: Hunk| x@)
                                =~= Seq::<HunkView>::empty());
                        }
                        Some(
                            Builder {
                                files,
                                cur: Some(
                                    FileBuild { source_file, target_file: None, hunks: Vec::new() },
                                ),
                                hunk: None,
                            },
                        )
                    },
                }
            } else if has_prefix(line, "+++ ") {
                match cur {
                    Some(f) => {
                        match f.target_file {
                            None => {
                                let target_file = line.substring_char(4, n).to_owned();
                                proof {
                                    assert(target_file@ =~= line@.skip(4));
                                }
                                let mut f = f;
                                f.target_file = Some(target_file);
                                Some(Builder { files, cur: Some(f), hunk: None })
                            },
                            Some(_) => None,
                        }
                    },
                    None => None,
                }
            } else if has_prefix(line, "@@ -") {
                let header_ok = match &cur {
                    Some(f) => f.target_file.is_some(),
                    None => false,
                };
                if !header_ok {
                    return None;
                }
                match parse_hunk_header(line) {
                    None => None,
                    Some((ss, sl, ts, tl)) => {
                        if sl == 0 && tl == 0 {
                            let f = match cur {
                                Some(f) => f,
                                None => {
                                    proof {
                                        assert(false);
                                    }
                                    return None;
                                },
                            };
                            let hunk_done = Hunk {
                                source_start: ss,
                                source_len: sl,
                                target_start: ts,
                                target_len: tl,
                                lines: Vec::new(),
                            };
                            let ghost old_f = f;
                            let mut f = f;
                            f.hunks.push(hunk_done);
                            proof {
                                assert(Seq::<DiffLine>::empty().map_values(|x: DiffLine| x@)
                                    =~= Seq::<DiffLineView>::empty());
                                assert(f.hunks@.map_values(|x: Hunk| x@)
                                    =~= old_f@.hunks.push(hunk_done@));
                            }
                            Some(Builder { files, cur: Some(f), hunk: None })
                        } else {
                            let h = HunkBuild {
                                source_start: ss,
                                source_len: sl,
                                target_start: ts,
                                target_len: tl,
                                lines: Vec::new(),
                                rem_src: sl,
                                rem_tgt: tl,
                            };
                            proof {
                                assert(Seq::<DiffLine>::empty().map_values(|x: DiffLine| x@)
                                    =~= Seq::<DiffLineView>::empty());
                            }
                            Some(Builder { files, cur, hunk: Some(h) })
                        }
                    },
                }
            } else {
                let half_open = match &cur {
                    Some(f) => f.target_file.is_none(),
                    None => false,
                };
                if half_open {
                    None
                } else {
                    Some(Builder { files, cur, hunk: None })
                }
            }
        },
    }
}

} // verus!

verus! {

/// If every character from `j` up to `k` is not a newline and `k` is a
/// newline or the end of the text, the line starting at `j` ends at `k`.
proof fn lemma_line_end_at(s: Seq<char>, j: int, k: int)
    requires
        0 <= j <= k <= s.len(),
        forall|t: int| j <= t < k ==> s[t] != '\n',
        k == s.len() || s[k] == '\n',
    ensures
        spec_line_end(s, j) == k,
    decreases k - j,
{
    if j < k {
        lemma_line_end_at(s, j + 1, k);
    }
}

/// Parses `s` as a unified diff: exactly the patch set the grammar denotes,
/// or `MalformedPatch` when `s` does not follow the grammar.
pub fn parse_patch_set(s: &str) -> (r: Result<PatchSet, DiffError>)
    ensures
        r is Ok <==> spec_parse_patch(s@) is Some,
        r matches Ok(ps) ==> spec_parse_patch(s@) == Some(ps@),
        r matches Err(e) ==> e == DiffError::MalformedPatch,
{
    let n = s.unicode_len();
    let mut b = Builder { files: Vec::new(), cur: None, hunk: None };
    proof {
        assert(Seq::<PatchedFile>::empty().map_values(|x: PatchedFile| x@) =~= Seq::<
            PatchedFileView,
        >::empty());
        assert(b@ == spec_init_state());
        assert(s@.skip(0) =~= s@);
    }
    let mut i: usize = 0;
    while i < n
        invariant
            i <= n,
            n == s@.len(),
            b.wf(),
            spec_parse_at(b@, s@.skip(i as int)) == spec_parse_patch(s@),
        decreases n - i,
    {
        let mut e: usize = i;
        loop
            invariant_except_break
                i <= e <= n,
                n == s@.len(),
                forall|t: int| i <= t < e ==> s@[t] != '\n',
            ensures
                i <= e <= n,
                n == s@.len(),
                forall|t: int| i <= t < e ==> s@[t] != '\n',
                e == n || s@[e as int] == '\n',
            decreases n - e,
        {
            if e == n {
                break;
            }
            if s.get_char(e) == '\n' {
                break;
            }
            e += 1;
        }
        let ghost rem = s@.skip(i as int);
        proof {
            assert forall|t: int| 0 <= t < e - i implies rem[t] != '\n' by {
                assert(rem[t] == s@[t + i]);
            }
            if e < n {
                assert(rem[e - i] == s@[e as int]);
            }
            lemma_line_end_at(rem, 0, e - i);
        }
        let line = s.substring_char(i, e);
        proof {
            assert(line@ =~= rem.subrange(0, e - i));
        }
        let b2 = match parse_step(b, line) {
            None => {
                return Err(DiffError::MalformedPatch);
            },
            Some(b2) => b2,
        };
        b = b2;
        proof {
            if e < n {
                assert(rem.skip((e - i) + 1) =~= s@.skip(e + 1));
            } else {
                assert(s@.skip(n as int) =~= Seq::<char>::empty());
            }
        }
        i = if e < n {
            e + 1
        } else {
            n
        };
    }
    proof {
        assert(s@.skip(n as int).len() == 0);
    }
    match b.hunk {
        Some(_) => Err(DiffError::MalformedPatch),
        None => match b.cur {
            Some(f) => match f.target_file {
                None => Err(DiffError::MalformedPatch),
                Some(t) => {
                    let done = PatchedFile {
                        source_file: f.source_file,
                        target_file: t,
                        hunks: f.hunks,
                    };
                    let ghost old_files = b.files@;
                    let mut files = b.files;
                    files.push(done);
                    proof {
                        assert(files@.map_values(|x: PatchedFile| x@) =~= old_files.map_values(
                            |x: PatchedFile| x@,
                        ).push(done@));
                    }
                    Ok(PatchSet { files })
                },
            },
            None => Ok(PatchSet { files: b.files }),
        },
    }
}

} // verus!
