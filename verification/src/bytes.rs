//! Text out of bytes.

use vstd::prelude::*;
use vstd::utf8::{decode_utf8, valid_utf8};

verus! {

/// The text that `String::from_utf8_lossy` makes of `bytes`.
pub uninterp spec fn lossy_text(bytes: Seq<u8>) -> Seq<char>;

/// The words in which `std::str::Utf8Error` says where `bytes` stop being UTF-8.
pub uninterp spec fn utf8_error_text(bytes: Seq<u8>) -> Seq<char>;

/// `String::from_utf8_lossy`: the text depends on the bytes alone, and is the one that they encode
/// wherever they are UTF-8. What stands in place of the parts that are not is left to the name.
#[verifier::external_body]
pub(crate) fn lossy(bytes: &[u8]) -> (r: String)
    ensures
        r@ == lossy_text(bytes@),
        valid_utf8(bytes@) ==> r@ == decode_utf8(bytes@),
{
    String::from_utf8_lossy(bytes).into_owned()
}

/// `std::str::from_utf8`: succeeds exactly on UTF-8, with the text that the bytes encode. The
/// words of the error depend on the bytes alone.
#[verifier::external_body]
pub(crate) fn utf8(bytes: &[u8]) -> (r: Result<String, String>)
    ensures
        match r {
            Ok(text) => valid_utf8(bytes@) && text@ == decode_utf8(bytes@),
            Err(words) => !valid_utf8(bytes@) && words@ == utf8_error_text(bytes@),
        },
{
    match std::str::from_utf8(bytes) {
        Ok(text) => Ok(text.to_owned()),
        Err(error) => Err(error.to_string()),
    }
}

/// A copy of `bytes[from..to]`.
pub fn copy_range(bytes: &[u8], from: usize, to: usize) -> (r: Vec<u8>)
    requires
        from <= to <= bytes@.len(),
    ensures
        r@ == bytes@.subrange(from as int, to as int),
{
    let mut out: Vec<u8> = Vec::new();
    let mut i: usize = from;
    while i < to
        invariant
            from <= i <= to <= bytes@.len(),
            out@ == bytes@.subrange(from as int, i as int),
        decreases to - i,
    {
        out.push(bytes[i]);
        i = i + 1;
        proof {
            assert(bytes@.subrange(from as int, i as int) =~= bytes@.subrange(
                from as int,
                i - 1,
            ).push(bytes@[i - 1]));
        }
    }
    out
}

/// The UTF-8 bytes of `s`.
pub fn bytes_of(s: &str) -> (r: Vec<u8>)
    ensures
        r@ == vstd::utf8::encode_utf8(s@),
{
    let bytes = s.as_bytes();
    let out = copy_range(bytes, 0, bytes.len());
    proof {
        assert(bytes@.subrange(0, bytes@.len() as int) =~= bytes@);
    }
    out
}

/// The position of the first `b` in `s`, or the length of `s` where there is none.
pub open spec fn first_byte(s: Seq<u8>, b: u8) -> int
    decreases s.len(),
{
    if s.len() == 0 || s[0] == b {
        0
    } else {
        1 + first_byte(s.skip(1), b)
    }
}

/// The parts of `s` between the occurrences of `b`.
pub open spec fn split_bytes(s: Seq<u8>, b: u8) -> Seq<Seq<u8>>
    decreases s.len(),
{
    let i = first_byte(s, b);
    if 0 <= i < s.len() {
        seq![s.take(i)] + split_bytes(s.skip(i + 1), b)
    } else {
        seq![s]
    }
}

proof fn lemma_first_byte(s: Seq<u8>, b: u8, i: int)
    requires
        0 <= i <= s.len(),
        i < s.len() ==> s[i] == b,
        forall|j: int| 0 <= j < i ==> s[j] != b,
    ensures
        first_byte(s, b) == i,
    decreases s.len(),
{
    if i > 0 {
        assert(s[0] != b);
        assert forall|j: int| 0 <= j < i - 1 implies s.skip(1)[j] != b by {
            assert(s.skip(1)[j] == s[j + 1]);
        }
        lemma_first_byte(s.skip(1), b, i - 1);
    }
}

/// What a sequence of byte strings stands for.
pub open spec fn parts_view(parts: Seq<Vec<u8>>) -> Seq<Seq<u8>> {
    parts.map_values(|p: Vec<u8>| p@)
}

/// Splits `s` at every `b`.
pub fn split_at_byte(s: &[u8], b: u8) -> (r: Vec<Vec<u8>>)
    ensures
        parts_view(r@) == split_bytes(s@, b),
{
    let mut out: Vec<Vec<u8>> = Vec::new();
    let mut start: usize = 0;
    let mut i: usize = 0;
    proof {
        assert(s@.skip(0) =~= s@);
        assert(parts_view(out@) + split_bytes(s@, b) =~= split_bytes(s@, b));
    }
    while i < s.len()
        invariant
            start <= i <= s@.len(),
            forall|j: int| start <= j < i ==> s@[j] != b,
            parts_view(out@) + split_bytes(s@.skip(start as int), b) == split_bytes(s@, b),
        decreases s@.len() - i,
    {
        if s[i] == b {
            let part = copy_range(s, start, i);
            let ghost before = parts_view(out@);
            proof {
                let rest = s@.skip(start as int);
                assert forall|j: int| 0 <= j < i - start implies rest[j] != b by {
                    assert(rest[j] == s@[start + j]);
                }
                lemma_first_byte(rest, b, i - start);
                assert(rest.take(i - start) =~= part@);
                assert(rest.skip(i - start + 1) =~= s@.skip(i + 1));
            }
            out.push(part);
            start = i + 1;
            proof {
                assert(parts_view(out@) =~= before.push(part@));
                assert(before.push(part@) + split_bytes(s@.skip(start as int), b) =~= before + (
                seq![part@] + split_bytes(s@.skip(start as int), b)));
            }
        }
        i = i + 1;
    }
    let part = copy_range(s, start, i);
    let ghost before = parts_view(out@);
    proof {
        let rest = s@.skip(start as int);
        assert forall|j: int| 0 <= j < i - start implies rest[j] != b by {
            assert(rest[j] == s@[start + j]);
        }
        lemma_first_byte(rest, b, i - start);
        assert(part@ =~= rest);
    }
    out.push(part);
    proof {
        assert(parts_view(out@) =~= before + seq![part@]);
    }
    out
}

} // verus!
