//! Decoding of the engine's fixed-capacity, NUL-terminated byte fields into
//! text: the bytes up to the first zero byte are decoded best-effort, with a
//! replacement character substituted for invalid sequences. A second variant
//! additionally trims surrounding whitespace, for space-padded serial fields.

use vstd::prelude::*;

verus! {

/// The bytes of `bytes` up to (not including) its first zero byte, or all of
/// them when none is zero.
pub open spec fn nul_prefix(bytes: Seq<u8>) -> Seq<u8>
    decreases bytes.len(),
{
    if bytes.len() == 0 {
        Seq::empty()
    } else if bytes[0] == 0 {
        Seq::empty()
    } else {
        seq![bytes[0]] + nul_prefix(bytes.subrange(1, bytes.len() as int))
    }
}

/// What best-effort UTF-8 decoding yields on a byte sequence.
pub uninterp spec fn lossy_text_of(bytes: Seq<u8>) -> Seq<char>;

/// What trimming surrounding whitespace leaves of a character sequence.
pub uninterp spec fn trimmed_of(s: Seq<char>) -> Seq<char>;

/// Relies on String::from_utf8_lossy: the decoding depends on the bytes
/// alone; valid UTF-8 passes through and invalid sequences become U+FFFD,
/// so an empty input decodes to an empty string.
#[verifier::external_body]
fn utf8_lossy(bytes: &[u8]) -> (r: String)
    ensures
        r@ == lossy_text_of(bytes@),
        bytes@.len() == 0 ==> r@.len() == 0,
{
    String::from_utf8_lossy(bytes).into_owned()
}

/// Relies on str::trim: the result is the input with leading and trailing
/// whitespace removed, and depends on the characters alone; an empty input
/// stays empty.
#[verifier::external_body]
fn trim_str(s: &str) -> (r: String)
    ensures
        r@ == trimmed_of(s@),
        s@.len() == 0 ==> r@.len() == 0,
{
    s.trim().to_owned()
}

proof fn lemma_nul_prefix_char(s: Seq<u8>, i: int)
    requires
        0 <= i <= s.len(),
        forall|j: int| 0 <= j < i ==> s[j] != 0,
        i < s.len() ==> s[i] == 0,
    ensures
        nul_prefix(s) == s.subrange(0, i),
    decreases s.len(),
{
    if s.len() == 0 {
        assert(nul_prefix(s) =~= s.subrange(0, i));
    } else if i == 0 {
        assert(s[0] == 0);
        assert(nul_prefix(s) =~= s.subrange(0, 0));
    } else {
        assert(s[0] != 0);
        let t = s.subrange(1, s.len() as int);
        assert(forall|j: int| 0 <= j < i - 1 ==> t[j] != 0) by {
            assert(forall|j: int| 0 <= j < i - 1 ==> t[j] == s[j + 1]);
        }
        assert(i - 1 < t.len() ==> t[i - 1] == 0) by {
            if i - 1 < t.len() {
                assert(t[i - 1] == s[i]);
            }
        }
        lemma_nul_prefix_char(t, i - 1);
        assert(nul_prefix(s) =~= s.subrange(0, i));
    }
}

/// The field's bytes up to its first zero byte, or the whole field when it
/// holds none.
fn nul_terminated_prefix(field: &[u8]) -> (r: Vec<u8>)
    ensures
        r@ == nul_prefix(field@),
{
    let mut r: Vec<u8> = Vec::new();
    let mut i: usize = 0;
    while i < field.len() && field[i] != 0
        invariant
            0 <= i <= field@.len(),
            r@ == field@.subrange(0, i as int),
            forall|j: int| 0 <= j < i ==> field@[j] != 0,
        decreases field@.len() - i,
    {
        let b = field[i];
        r.push(b);
        assert(r@ =~= field@.subrange(0, i + 1));
        i = i + 1;
    }
    proof {
        lemma_nul_prefix_char(field@, i as int);
    }
    r
}

/// Decodes a fixed-capacity NUL-terminated byte field: the bytes up to the
/// first zero byte, decoded best-effort to text.
pub fn decode_text(field: &[u8]) -> (r: String)
    ensures
        r@ == lossy_text_of(nul_prefix(field@)),
{
    let prefix = nul_terminated_prefix(field);
    utf8_lossy(prefix.as_slice())
}

/// Like `decode_text`, with surrounding whitespace additionally stripped;
/// meant for serial-number fields, which the engine pads with spaces.
pub fn decode_text_trimmed(field: &[u8]) -> (r: String)
    ensures
        r@ == trimmed_of(lossy_text_of(nul_prefix(field@))),
{
    let s = decode_text(field);
    trim_str(s.as_str())
}

} // verus!
