//! The byte layout of stored records: fixed-width little-endian integers,
//! one-byte flags and length-prefixed UTF-8 text, written one field after
//! another.

use vstd::bytes::*;
use vstd::prelude::*;
use vstd::slice::*;
use vstd::string::StrSliceExecFns;
use vstd::utf8::*;

verus! {

/// The eight bytes of `x`, least significant first.
pub open spec fn u64_wire(x: u64) -> Seq<u8> {
    spec_u64_to_le_bytes(x)
}

/// One byte: 1 for `true`, 0 for `false`.
pub open spec fn flag_wire(b: bool) -> Seq<u8> {
    seq![if b { 1u8 } else { 0u8 }]
}

/// A zero byte for `None`; a one byte and the integer for `Some`.
pub open spec fn maybe_wire(o: Option<u64>) -> Seq<u8> {
    match o {
        None => seq![0u8],
        Some(x) => seq![1u8] + u64_wire(x),
    }
}

/// The length of the UTF-8 form of `t` as an integer field, then that form.
pub open spec fn text_wire(t: Seq<char>) -> Seq<u8> {
    u64_wire(encode_utf8(t).len() as u64) + encode_utf8(t)
}

/// The integer field of `b` that starts at `at`, and where the next field
/// starts; `None` where fewer than eight bytes are left.
pub open spec fn read_u64(b: Seq<u8>, at: int) -> Option<(u64, int)> {
    if 0 <= at && at + 8 <= b.len() {
        Some((spec_u64_from_le_bytes(b.subrange(at, at + 8)), at + 8))
    } else {
        None
    }
}

/// The flag of `b` at `at`; `None` where no byte is left or the byte is
/// neither 0 nor 1.
pub open spec fn read_flag(b: Seq<u8>, at: int) -> Option<(bool, int)> {
    if 0 <= at < b.len() && b[at] <= 1 {
        Some((b[at] == 1, at + 1))
    } else {
        None
    }
}

/// The optional integer of `b` at `at`; `None` where the tag byte is
/// missing or unknown, or the integer after a one byte is cut short.
pub open spec fn read_maybe(b: Seq<u8>, at: int) -> Option<(Option<u64>, int)> {
    match read_flag(b, at) {
        None => None,
        Some((false, next)) => Some((None, next)),
        Some((true, next)) => match read_u64(b, next) {
            None => None,
            Some((x, end)) => Some((Some(x), end)),
        },
    }
}

/// The text field of `b` at `at`; `None` where the length is missing, runs
/// past the end of `b`, or the bytes are not UTF-8.
pub open spec fn read_text(b: Seq<u8>, at: int) -> Option<(Seq<char>, int)> {
    match read_u64(b, at) {
        None => None,
        Some((n, start)) => if start + n <= b.len() && valid_utf8(b.subrange(start, start + n)) {
            Some((decode_utf8(b.subrange(start, start + n)), start + n))
        } else {
            None
        },
    }
}

/// An integer field reads back as the integer that was written.
pub proof fn u64_reads_back(before: Seq<u8>, x: u64, after: Seq<u8>)
    ensures
        u64_wire(x).len() == 8,
        read_u64(before + u64_wire(x) + after, before.len() as int) == Some(
            (x, (before.len() + 8) as int),
        ),
{
    lemma_auto_spec_u64_to_from_le_bytes();
    let all = before + u64_wire(x) + after;
    let at = before.len() as int;
    assert(all.subrange(at, at + 8) =~= u64_wire(x));
}

/// A flag reads back as the flag that was written.
pub proof fn flag_reads_back(before: Seq<u8>, f: bool, after: Seq<u8>)
    ensures
        read_flag(before + flag_wire(f) + after, before.len() as int) == Some(
            (f, (before.len() + 1) as int),
        ),
{
}

/// An optional integer reads back as it was written.
pub proof fn maybe_reads_back(before: Seq<u8>, o: Option<u64>, after: Seq<u8>)
    ensures
        read_maybe(before + maybe_wire(o) + after, before.len() as int) == Some(
            (o, (before.len() + maybe_wire(o).len()) as int),
        ),
{
    let all = before + maybe_wire(o) + after;
    match o {
        None => {},
        Some(x) => {
            let tagged = before + seq![1u8];
            assert(all =~= tagged + u64_wire(x) + after);
            u64_reads_back(tagged, x, after);
        },
    }
}

/// A text whose UTF-8 form has a length that fits the length field reads
/// back as it was written.
pub proof fn text_reads_back(before: Seq<u8>, t: Seq<char>, after: Seq<u8>)
    requires
        encode_utf8(t).len() <= u64::MAX,
    ensures
        text_wire(t).len() == 8 + encode_utf8(t).len(),
        read_text(before + text_wire(t) + after, before.len() as int) == Some(
            (t, (before.len() + text_wire(t).len()) as int),
        ),
{
    let body = encode_utf8(t);
    let n = body.len() as u64;
    let all = before + text_wire(t) + after;
    assert(all =~= before + u64_wire(n) + (body + after));
    u64_reads_back(before, n, body + after);
    let start = (before.len() + 8) as int;
    assert(all.subrange(start, start + n) =~= body);
    encode_utf8_valid_utf8(t);
    encode_utf8_decode_utf8(t);
}

/// Appends the integer field of `x` to `out`.
pub fn put_u64(out: &mut Vec<u8>, x: u64)
    ensures
        final(out)@ == old(out)@ + u64_wire(x),
{
    let mut field = u64_to_le_bytes(x);
    out.append(&mut field);
}

/// Appends the flag `f` to `out`.
pub fn put_flag(out: &mut Vec<u8>, f: bool)
    ensures
        final(out)@ == old(out)@ + flag_wire(f),
{
    out.push(if f { 1u8 } else { 0u8 });
}

/// Appends the optional integer `o` to `out`.
pub fn put_maybe(out: &mut Vec<u8>, o: Option<u64>)
    ensures
        final(out)@ == old(out)@ + maybe_wire(o),
{
    match o {
        None => {
            out.push(0u8);
        },
        Some(x) => {
            out.push(1u8);
            put_u64(out, x);
        },
    }
}

/// Appends the text field of `t` to `out`.
pub fn put_text(out: &mut Vec<u8>, t: &String)
    ensures
        final(out)@ == old(out)@ + text_wire(t@),
{
    let mut body = t.as_str().as_bytes_vec();
    put_u64(out, body.len() as u64);
    out.append(&mut body);
}

/// Reads the integer field of `b` at `at`.
pub fn get_u64(b: &Vec<u8>, at: usize) -> (r: Option<(u64, usize)>)
    ensures
        match r {
            Some((x, next)) => read_u64(b@, at as int) == Some((x, next as int)),
            None => read_u64(b@, at as int) is None,
        },
{
    if b.len() < 8 || at > b.len() - 8 {
        return None;
    }
    let field = slice_subrange(b.as_slice(), at, at + 8);
    Some((u64_from_le_bytes(field), at + 8))
}

/// Reads the flag of `b` at `at`.
pub fn get_flag(b: &Vec<u8>, at: usize) -> (r: Option<(bool, usize)>)
    ensures
        match r {
            Some((f, next)) => read_flag(b@, at as int) == Some((f, next as int)),
            None => read_flag(b@, at as int) is None,
        },
{
    if at >= b.len() || b[at] > 1 {
        return None;
    }
    Some((b[at] == 1, at + 1))
}

/// Reads the optional integer of `b` at `at`.
pub fn get_maybe(b: &Vec<u8>, at: usize) -> (r: Option<(Option<u64>, usize)>)
    ensures
        match r {
            Some((o, next)) => read_maybe(b@, at as int) == Some((o, next as int)),
            None => read_maybe(b@, at as int) is None,
        },
{
    match get_flag(b, at) {
        None => None,
        Some((false, next)) => Some((None, next)),
        Some((true, next)) => match get_u64(b, next) {
            None => None,
            Some((x, end)) => Some((Some(x), end)),
        },
    }
}

/// `String::from_utf8`: the text that `bytes` encode, or `None` where they
/// are not well-formed UTF-8.
#[verifier::external_body]
fn utf8_text(bytes: Vec<u8>) -> (r: Option<String>)
    ensures
        r is Some <==> valid_utf8(bytes@),
        r is Some ==> r->0@ == decode_utf8(bytes@),
{
    String::from_utf8(bytes).ok()
}

/// Reads the text field of `b` at `at`.
pub fn get_text(b: &Vec<u8>, at: usize) -> (r: Option<(String, usize)>)
    ensures
        match r {
            Some((t, next)) => read_text(b@, at as int) == Some((t@, next as int)),
            None => read_text(b@, at as int) is None,
        },
{
    match get_u64(b, at) {
        None => None,
        Some((n, start)) => {
            if n > (b.len() - start) as u64 {
                return None;
            }
            let end = start + n as usize;
            let body = slice_to_vec(slice_subrange(b.as_slice(), start, end));
            match utf8_text(body) {
                None => None,
                Some(t) => Some((t, end)),
            }
        },
    }
}

} // verus!
