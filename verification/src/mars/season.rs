//! The bounded season label of a sample, held in `arrayvec`'s `ArrayString`.

use vstd::prelude::*;
use vstd::utf8::*;
use vstd::string::*;
use arrayvec::ArrayString;

verus! {

broadcast use {is_char_boundary_start_end_of_seq, encode_utf8_decode_utf8, encode_utf8_valid_utf8};

/// `arrayvec::ArrayString<CAP>`, a string of at most `CAP` bytes stored inline;
/// its contents are known only through `season_chars`.
#[verifier::external_type_specification]
#[verifier::external_body]
pub struct ExArrayString<const CAP: usize>(ArrayString<CAP>);

/// What a season label holds: its characters.
pub uninterp spec fn season_chars(s: ArrayString<32>) -> Seq<char>;

/// The number of bytes a season label keeps of its text.
pub const SEASON_CAPACITY: usize = 32;

/// The UTF-8 bytes of a label.
pub open spec fn label_bytes(s: ArrayString<32>) -> Seq<u8> {
    encode_utf8(season_chars(s))
}

/// `ArrayString::<32>::new`: an empty label (a new `ArrayString` holds nothing).
#[verifier::external_body]
fn empty_label() -> (r: ArrayString<32>)
    ensures
        season_chars(r) == Seq::<char>::empty(),
{
    ArrayString::new()
}

/// `ArrayString::capacity`: the capacity `CAP` of the type, here 32 bytes.
#[verifier::external_body]
fn label_capacity(label: &ArrayString<32>) -> (r: usize)
    ensures
        r == 32,
{
    label.capacity()
}

/// `ArrayString::push_str`: appends `s` to the label. It panics when the bytes of
/// `s` do not fit in the capacity left, so that is ruled out; otherwise the label
/// holds its old characters followed by those of `s`.
#[verifier::external_body]
fn push_text(label: &mut ArrayString<32>, s: &str)
    requires
        label_bytes(*old(label)).len() + s.spec_bytes().len() <= 32,
    ensures
        season_chars(*final(label)) == season_chars(*old(label)) + s@,
{
    label.push_str(s)
}

/// The bytes of a season text that its label keeps: the first 32, or all of
/// them when there are fewer.
pub open spec fn kept_bytes(text: Seq<char>) -> Seq<u8> {
    let bytes = encode_utf8(text);
    if bytes.len() <= 32 {
        bytes
    } else {
        bytes.take(32)
    }
}

/// A season text can be cut to a label: it fits, or its 32nd byte ends a character.
pub open spec fn fits_label(text: Seq<char>) -> bool {
    let bytes = encode_utf8(text);
    bytes.len() <= 32 || is_char_boundary(bytes, 32)
}

/// A label keeps at most 32 bytes, and a text of at most 32 bytes whole.
pub proof fn lemma_label_keeps_short_text_whole(text: Seq<char>)
    ensures
        kept_bytes(text).len() <= 32,
        encode_utf8(text).len() <= 32 ==> decode_utf8(kept_bytes(text)) == text,
{
}

/// A label keeps the first bytes of its text, in order: all of them when there
/// are at most 32, else exactly the first 32.
pub proof fn lemma_label_is_a_prefix_of_its_text(text: Seq<char>)
    ensures
        kept_bytes(text).is_prefix_of(encode_utf8(text)),
        kept_bytes(text).len() == (if encode_utf8(text).len() <= 32 { encode_utf8(text).len() } else { 32 }),
{
    assert(kept_bytes(text) =~= encode_utf8(text).take(kept_bytes(text).len() as int));
}

/// Cuts a season text to the label that a sample keeps: its first 32 bytes.
/// A cut inside a character would panic, so the text must end a character at
/// its 32nd byte when it is longer.
pub fn season_label(s: &str) -> (r: ArrayString<32>)
    requires
        fits_label(s@),
        s.spec_bytes().len() <= usize::MAX,
    ensures
        label_bytes(r) == kept_bytes(s@),
        season_chars(r) == decode_utf8(kept_bytes(s@)),
        encode_utf8(s@).len() <= 32 ==> season_chars(r) == s@,
        encode_utf8(s@).len() > 32 ==> label_bytes(r) == encode_utf8(s@).take(32),
{
    let mut label: ArrayString<32> = empty_label();
    let cap: usize = label_capacity(&label);
    let n: usize = s.len();
    let cut: usize = if n < cap { n } else { cap };
    proof {
        let bytes = encode_utf8(s@);
        assert(valid_utf8(bytes));
        assert(is_char_boundary(bytes, bytes.len() as int));
    }
    let (head, _rest) = s.split_at(cut);
    proof {
        assert(encode_utf8(Seq::<char>::empty()) =~= Seq::<u8>::empty());
        assert(head.spec_bytes() =~= kept_bytes(s@));
    }
    push_text(&mut label, head);
    proof {
        assert(season_chars(label) =~= head@);
        assert(decode_utf8(encode_utf8(head@)) == head@);
    }
    label
}

} // verus!
