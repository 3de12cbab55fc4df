//! Wire messages and their codec.
//!
//! Two message kinds cross the wire: a submission (`Patch`) carrying the
//! unified diff text and optional metadata, and a decision (`PatchResponse`)
//! carrying a status.  Both are framed in a protocol-buffers-style binary
//! encoding: a field is a one-byte tag followed by a base-128 varint length
//! and the payload bytes (strings), or a varint value (the status).
//!
//! * `Patch`: optional field 1 (tag `0x0a`): metadata, UTF-8 bytes;
//!   field 2 (tag `0x12`): the diff text, UTF-8 bytes.
//! * `PatchResponse`: field 1 (tag `0x08`): the status as a varint.
//!   An unrecognized status value decodes to the `Unknown` placeholder so
//!   that readers tolerate future status values; the broker itself only
//!   ever emits `Accepted` and `Rejected`.

use vstd::prelude::*;
use vstd::utf8::*;
use vstd::arithmetic::div_mod::lemma_fundamental_div_mod;

verus! {

/// Outcome of a review as it appears on the wire.  `Unknown` exists only as
/// a forward-compatibility placeholder: the broker never constructs it when
/// answering a submission.
#[derive(Clone, Copy, Debug, PartialEq, Eq, Structural)]
pub enum Status {
    Unknown,
    Accepted,
    Rejected,
}

/// Numeric wire code of a status.
pub open spec fn spec_status_code(s: Status) -> u64 {
    match s {
        Status::Unknown => 0,
        Status::Accepted => 1,
        Status::Rejected => 2,
    }
}

/// Status denoted by a numeric wire code; codes not assigned yet come back
/// as `Unknown`.
pub open spec fn spec_status_of_code(v: u64) -> Status {
    if v == 1 {
        Status::Accepted
    } else if v == 2 {
        Status::Rejected
    } else {
        Status::Unknown
    }
}

pub fn status_code(s: Status) -> (r: u64)
    ensures
        r == spec_status_code(s),
{
    match s {
        Status::Unknown => 0,
        Status::Accepted => 1,
        Status::Rejected => 2,
    }
}

pub fn status_of_code(v: u64) -> (r: Status)
    ensures
        r == spec_status_of_code(v),
{
    if v == 1 {
        Status::Accepted
    } else if v == 2 {
        Status::Rejected
    } else {
        Status::Unknown
    }
}

/// A submission: the unified diff text and optional free-form metadata.
#[derive(Clone, Debug)]
pub struct Patch {
    pub patch: String,
    pub metadata: Option<String>,
}

/// Mathematical content of a `Patch`: the character sequences behind its
/// strings.
pub struct PatchView {
    pub patch: Seq<char>,
    pub metadata: Option<Seq<char>>,
}

impl View for Patch {
    type V = PatchView;

    open spec fn view(&self) -> PatchView {
        PatchView {
            patch: self.patch@,
            metadata: match self.metadata {
                Some(m) => Some(m@),
                None => None,
            },
        }
    }
}

/// A decision on one submission.
#[derive(Clone, Copy, Debug, PartialEq, Eq, Structural)]
pub struct PatchResponse {
    pub status: Status,
}

/// Failure of the codec: the bytes do not form a message.
#[derive(Clone, Copy, Debug, PartialEq, Eq, Structural)]
pub enum WireError {
    MalformedMessage,
}

// ---------------------------------------------------------------------------
// varints
// ---------------------------------------------------------------------------

/// Base-128 little-endian varint encoding of `n`: seven payload bits per
/// byte, the high bit marking a continuation.
pub open spec fn spec_encode_varint(n: u64) -> Seq<u8>
    decreases n,
{
    if n < 128 {
        seq![n as u8]
    } else {
        seq![(n % 128 + 128) as u8] + spec_encode_varint(n / 128)
    }
}

/// Reads one varint from the front of `b`: the value and the number of bytes
/// consumed, or `None` when the bytes run out or the value would not fit in
/// 64 bits.
pub open spec fn spec_decode_varint(b: Seq<u8>) -> Option<(u64, int)>
    decreases b.len(),
{
    if b.len() == 0 {
        None
    } else if b[0] < 128 {
        Some((b[0] as u64, 1))
    } else {
        match spec_decode_varint(b.drop_first()) {
            None => None,
            Some((v, k)) => {
                if v <= (0xffff_ffff_ffff_ffffu64 - 127) / 128 {
                    Some(((((b[0] - 128) + 128 * (v as int))) as u64, k + 1))
                } else {
                    None
                }
            },
        }
    }
}

/// A varint decodes back to the value it encodes, whatever follows it.
pub proof fn lemma_varint_round_trip(n: u64, rest: Seq<u8>)
    ensures
        spec_decode_varint(spec_encode_varint(n) + rest) == Some(
            (n, spec_encode_varint(n).len() as int),
        ),
    decreases n,
{
    let b = spec_encode_varint(n) + rest;
    if n < 128 {
        assert(b[0] == n as u8);
    } else {
        lemma_varint_round_trip(n / 128, rest);
        assert(b.drop_first() =~= spec_encode_varint(n / 128) + rest);
        assert(b[0] == (n % 128 + 128) as u8);
        lemma_fundamental_div_mod(n as int, 128);
        assert(n / 128 <= (0xffff_ffff_ffff_ffffu64 - 127) / 128) by (nonlinear_arith)
            requires n <= 0xffff_ffff_ffff_ffffu64,
        {}
    }
}

/// Appends the varint encoding of `n` to `out`.
pub fn encode_varint(n: u64, out: &mut Vec<u8>)
    ensures
        final(out)@ == old(out)@ + spec_encode_varint(n),
{
    let ghost start = out@;
    let mut m: u64 = n;
    while m >= 128
        invariant
            start + spec_encode_varint(n) == out@ + spec_encode_varint(m),
        decreases m,
    {
        let ghost before = out@;
        let byte: u8 = (m % 128 + 128) as u8;
        out.push(byte);
        let ghost m_old = m;
        m = m / 128;
        proof {
            assert(spec_encode_varint(m_old) == seq![byte] + spec_encode_varint(m));
            assert(before + spec_encode_varint(m_old) =~= out@ + spec_encode_varint(m));
        }
    }
    let ghost before = out@;
    out.push(m as u8);
    proof {
        assert(spec_encode_varint(m) == seq![m as u8]);
        assert(before + spec_encode_varint(m) =~= out@);
    }
}

/// Reads one varint from `b` starting at `i`, mirroring
/// [`spec_decode_varint`] on the bytes from `i` on.
pub fn read_varint(b: &Vec<u8>, i: usize) -> (r: Option<(u64, usize)>)
    requires
        i <= b.len(),
    ensures
        match r {
            None => spec_decode_varint(b@.skip(i as int)) is None,
            Some((v, k)) => {
                &&& spec_decode_varint(b@.skip(i as int)) == Some((v, k as int))
                &&& i + k <= b.len()
                &&& k >= 1
            },
        },
    decreases b.len() - i,
{
    if i == b.len() {
        assert(b@.skip(i as int).len() == 0);
        return None;
    }
    let byte = b[i];
    assert(b@.skip(i as int)[0] == byte);
    if byte < 128 {
        Some((byte as u64, 1))
    } else {
        assert(b@.skip(i as int).drop_first() =~= b@.skip(i as int + 1));
        match read_varint(b, i + 1) {
            None => None,
            Some((v, k)) => {
                if v <= (0xffff_ffff_ffff_ffffu64 - 127) / 128 {
                    proof {
                        assert(128 * (v as int) <= 0xffff_ffff_ffff_ffffu64 - 127)
                            by (nonlinear_arith)
                            requires v <= (0xffff_ffff_ffff_ffffu64 - 127) / 128,
                        {}
                    }
                    Some(((byte - 128) as u64 + 128 * v, k + 1))
                } else {
                    None
                }
            },
        }
    }
}

} // verus!

verus! {

// ---------------------------------------------------------------------------
// strings on the wire
// ---------------------------------------------------------------------------

/// Relies on `String::from_utf8`: it succeeds exactly on bytes that are
/// valid UTF-8, and the returned string holds exactly the input bytes.
#[verifier::external_body]
fn string_from_utf8(v: Vec<u8>) -> (r: Option<String>)
    ensures
        r is Some <==> valid_utf8(v@),
        r matches Some(s) ==> encode_utf8(s@) == v@,
{
    String::from_utf8(v).ok()
}

/// Copy of the bytes of `b` from `from` (inclusive) to `to` (exclusive).
fn subvec(b: &Vec<u8>, from: usize, to: usize) -> (r: Vec<u8>)
    requires
        from <= to <= b.len(),
    ensures
        r@ == b@.subrange(from as int, to as int),
{
    let mut r: Vec<u8> = Vec::new();
    let mut j: usize = from;
    while j < to
        invariant
            from <= j <= to <= b.len(),
            r@ == b@.subrange(from as int, j as int),
        decreases to - j,
    {
        r.push(b[j]);
        assert(b@.subrange(from as int, j + 1 as int) =~= b@.subrange(from as int, j as int).push(
            b@[j as int],
        ));
        j += 1;
    }
    r
}

/// A length-delimited field: tag byte, varint byte length, payload.
pub open spec fn spec_field(tag: u8, payload: Seq<u8>) -> Seq<u8> {
    seq![tag] + spec_encode_varint(payload.len() as u64) + payload
}

/// Reads a varint length followed by that many bytes of UTF-8 from the front
/// of `b`: the decoded characters and the bytes consumed.
pub open spec fn spec_read_string(b: Seq<u8>) -> Option<(Seq<char>, int)> {
    match spec_decode_varint(b) {
        None => None,
        Some((len, k)) => {
            if k + len <= b.len() {
                let payload = b.subrange(k, k + len as int);
                if valid_utf8(payload) {
                    Some((decode_utf8(payload), k + len))
                } else {
                    None
                }
            } else {
                None
            }
        },
    }
}

/// Reads a string field from `b` starting at `i`, mirroring
/// [`spec_read_string`] on the bytes from `i` on.
fn read_string(b: &Vec<u8>, i: usize) -> (r: Option<(String, usize)>)
    requires
        i <= b.len(),
    ensures
        match r {
            None => spec_read_string(b@.skip(i as int)) is None,
            Some((s, k)) => {
                &&& spec_read_string(b@.skip(i as int)) == Some((s@, k as int))
                &&& i + k <= b.len()
                &&& k >= 1
            },
        },
{
    match read_varint(b, i) {
        None => None,
        Some((len, k)) => {
            if len <= (b.len() - (i + k)) as u64 {
                let len_us = len as usize;
                let payload = subvec(b, i + k, i + k + len_us);
                proof {
                    assert(payload@ =~= b@.skip(i as int).subrange(
                        k as int,
                        k as int + len as int,
                    ));
                }
                match string_from_utf8(payload) {
                    None => None,
                    Some(s) => {
                        proof {
                            encode_utf8_decode_utf8(s@);
                        }
                        Some((s, k + len_us))
                    },
                }
            } else {
                None
            }
        },
    }
}

// ---------------------------------------------------------------------------
// the submission message
// ---------------------------------------------------------------------------

/// Encoding of a submission: optional metadata field, then the diff field.
pub open spec fn spec_encode_patch(p: PatchView) -> Seq<u8> {
    (match p.metadata {
        Some(m) => spec_field(0x0a, encode_utf8(m)),
        None => Seq::<u8>::empty(),
    }) + spec_field(0x12, encode_utf8(p.patch))
}

/// Decodes the part of a submission after the optional metadata field: the
/// diff field, or nothing (an absent diff field reads as the empty string).
pub open spec fn spec_decode_patch_tail(b: Seq<u8>) -> Option<Seq<char>> {
    if b.len() == 0 {
        Some(Seq::<char>::empty())
    } else if b[0] == 0x12 {
        match spec_read_string(b.drop_first()) {
            None => None,
            Some((p, k)) => {
                if 1 + k == b.len() {
                    Some(p)
                } else {
                    None
                }
            },
        }
    } else {
        None
    }
}

/// Decodes a submission, or `None` when the bytes are malformed.
pub open spec fn spec_decode_patch(b: Seq<u8>) -> Option<PatchView> {
    if b.len() > 0 && b[0] == 0x0a {
        match spec_read_string(b.drop_first()) {
            None => None,
            Some((m, k)) => match spec_decode_patch_tail(b.skip(1 + k)) {
                None => None,
                Some(p) => Some(PatchView { patch: p, metadata: Some(m) }),
            },
        }
    } else {
        match spec_decode_patch_tail(b) {
            None => None,
            Some(p) => Some(PatchView { patch: p, metadata: None }),
        }
    }
}

impl Patch {
    /// Encodes this submission for the wire.
    pub fn encode_to_vec(&self) -> (r: Vec<u8>)
        ensures
            r@ == spec_encode_patch(self@),
    {
        let mut out: Vec<u8> = Vec::new();
        match &self.metadata {
            Some(m) => {
                out.push(0x0a);
                let mut bytes = m.as_str().as_bytes_vec();
                encode_varint(bytes.len() as u64, &mut out);
                out.append(&mut bytes);
                proof {
                    assert(out@ =~= spec_field(0x0a, encode_utf8(m@)));
                }
            },
            None => {},
        }
        let ghost head = out@;
        out.push(0x12);
        let mut bytes = self.patch.as_str().as_bytes_vec();
        encode_varint(bytes.len() as u64, &mut out);
        out.append(&mut bytes);
        proof {
            assert(out@ =~= head + spec_field(0x12, encode_utf8(self.patch@)));
            assert(out@ =~= spec_encode_patch(self@));
        }
        out
    }

    /// Decodes a submission from the wire; fails on malformed bytes.
    pub fn decode(b: &Vec<u8>) -> (r: Result<Patch, WireError>)
        ensures
            r is Ok <==> spec_decode_patch(b@) is Some,
            r matches Ok(p) ==> spec_decode_patch(b@) == Some(p@),
            r matches Err(e) ==> e == WireError::MalformedMessage,
    {
        let n = b.len();
        let has_meta = n > 0 && b[0] == 0x0a;
        let (metadata, pos): (Option<String>, usize) = if has_meta {
            proof {
                assert(b@.skip(1) =~= b@.drop_first());
            }
            match read_string(b, 1) {
                None => {
                    return Err(WireError::MalformedMessage);
                },
                Some((m, k)) => (Some(m), 1 + k),
            }
        } else {
            (None, 0)
        };
        let ghost tail = b@.skip(pos as int);
        if pos == n {
            assert(tail.len() == 0);
            Ok(Patch { patch: String::new(), metadata })
        } else if b[pos] == 0x12 {
            assert(tail[0] == 0x12);
            proof {
                assert(tail.drop_first() =~= b@.skip(pos + 1));
            }
            match read_string(b, pos + 1) {
                None => Err(WireError::MalformedMessage),
                Some((p, k)) => {
                    if pos + 1 + k == n {
                        Ok(Patch { patch: p, metadata })
                    } else {
                        Err(WireError::MalformedMessage)
                    }
                },
            }
        } else {
            assert(tail[0] != 0x12 && tail.len() > 0);
            Err(WireError::MalformedMessage)
        }
    }
}

// ---------------------------------------------------------------------------
// the decision message
// ---------------------------------------------------------------------------

/// Encoding of a decision: the status field as a varint.
pub open spec fn spec_encode_response(r: PatchResponse) -> Seq<u8> {
    seq![0x08u8] + spec_encode_varint(spec_status_code(r.status))
}

/// Decodes a decision, or `None` when the bytes are malformed.  An empty
/// message reads as the default `Unknown` status, and so does a status code
/// that is not assigned: readers tolerate future status values.
pub open spec fn spec_decode_response(b: Seq<u8>) -> Option<PatchResponse> {
    if b.len() == 0 {
        Some(PatchResponse { status: Status::Unknown })
    } else if b[0] == 0x08 {
        match spec_decode_varint(b.drop_first()) {
            None => None,
            Some((v, k)) => {
                if 1 + k == b.len() {
                    Some(PatchResponse { status: spec_status_of_code(v) })
                } else {
                    None
                }
            },
        }
    } else {
        None
    }
}

impl PatchResponse {
    /// Encodes this decision for the wire.
    pub fn encode_to_vec(&self) -> (r: Vec<u8>)
        ensures
            r@ == spec_encode_response(*self),
    {
        let mut out: Vec<u8> = Vec::new();
        out.push(0x08);
        encode_varint(status_code(self.status), &mut out);
        proof {
            assert(out@ =~= spec_encode_response(*self));
        }
        out
    }

    /// Decodes a decision from the wire; fails on malformed bytes.
    pub fn decode(b: &Vec<u8>) -> (r: Result<PatchResponse, WireError>)
        ensures
            r is Ok <==> spec_decode_response(b@) is Some,
            r matches Ok(p) ==> spec_decode_response(b@) == Some(p),
            r matches Err(e) ==> e == WireError::MalformedMessage,
    {
        let n = b.len();
        if n == 0 {
            return Ok(PatchResponse { status: Status::Unknown });
        }
        if b[0] == 0x08 {
            proof {
                assert(b@.skip(1) =~= b@.drop_first());
            }
            match read_varint(b, 1) {
                None => Err(WireError::MalformedMessage),
                Some((v, k)) => {
                    if 1 + k == n {
                        Ok(PatchResponse { status: status_of_code(v) })
                    } else {
                        Err(WireError::MalformedMessage)
                    }
                },
            }
        } else {
            Err(WireError::MalformedMessage)
        }
    }
}

// ---------------------------------------------------------------------------
// round trips
// ---------------------------------------------------------------------------

/// A string field decodes back to the characters it encodes, whatever
/// follows it.
proof fn lemma_read_string_round_trip(s: Seq<char>, rest: Seq<u8>)
    requires
        encode_utf8(s).len() <= 0xffff_ffff_ffff_ffffu64,
    ensures
        spec_read_string(
            spec_encode_varint(encode_utf8(s).len() as u64) + encode_utf8(s) + rest,
        ) == Some(
            (
                s,
                spec_encode_varint(encode_utf8(s).len() as u64).len() + encode_utf8(s).len() as int,
            ),
        ),
{
    let len = encode_utf8(s).len() as u64;
    let lv = spec_encode_varint(len);
    let b = lv + encode_utf8(s) + rest;
    lemma_varint_round_trip(len, encode_utf8(s) + rest);
    assert(b =~= lv + (encode_utf8(s) + rest));
    assert(b.subrange(lv.len() as int, lv.len() + len as int) =~= encode_utf8(s));
    encode_utf8_valid_utf8(s);
    encode_utf8_decode_utf8(s);
}

/// Law: a submission survives the codec round trip exactly — decoding what
/// was encoded yields the same diff text and the same metadata.
pub proof fn lemma_patch_round_trip(p: PatchView)
    requires
        encode_utf8(p.patch).len() <= 0xffff_ffff_ffff_ffffu64,
        p.metadata matches Some(m) ==> encode_utf8(m).len() <= 0xffff_ffff_ffff_ffffu64,
    ensures
        spec_decode_patch(spec_encode_patch(p)) == Some(p),
{
    let tail = spec_field(0x12, encode_utf8(p.patch));
    let lv2 = spec_encode_varint(encode_utf8(p.patch).len() as u64);
    assert(tail[0] == 0x12);
    assert(tail.drop_first() =~= lv2 + encode_utf8(p.patch) + Seq::<u8>::empty());
    lemma_read_string_round_trip(p.patch, Seq::<u8>::empty());
    assert(spec_decode_patch_tail(tail) == Some(p.patch));
    match p.metadata {
        None => {
            assert(spec_encode_patch(p) =~= tail);
        },
        Some(m) => {
            let b = spec_encode_patch(p);
            let lv1 = spec_encode_varint(encode_utf8(m).len() as u64);
            assert(b =~= seq![0x0au8] + (lv1 + encode_utf8(m) + tail));
            assert(b[0] == 0x0a);
            assert(b.drop_first() =~= lv1 + encode_utf8(m) + tail);
            lemma_read_string_round_trip(m, tail);
            let consumed = lv1.len() + encode_utf8(m).len() as int;
            assert(b.skip(1 + consumed) =~= tail);
        },
    }
}

/// Law: a decision survives the codec round trip exactly.
pub proof fn lemma_response_round_trip(r: PatchResponse)
    ensures
        spec_decode_response(spec_encode_response(r)) == Some(r),
{
    let b = spec_encode_response(r);
    let code = spec_status_code(r.status);
    lemma_varint_round_trip(code, Seq::<u8>::empty());
    assert(b.drop_first() =~= spec_encode_varint(code) + Seq::<u8>::empty());
    assert(b.drop_first() =~= spec_encode_varint(code));
    assert(b[0] == 0x08);
}

} // verus!
