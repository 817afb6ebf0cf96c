//! Text on its way to and from LLVM: null-terminated byte strings one way,
//! UTF-8 the other.

use vstd::prelude::*;
use vstd::utf8::*;

verus! {

/// What stands in `s` before the first occurrence of `stop`; all of `s` where
/// `stop` does not occur.
pub open spec fn before<A>(s: Seq<A>, stop: A) -> Seq<A> {
    match s.index_of_first(stop) {
        Some(index) => s.take(index),
        None => s,
    }
}

/// The bytes that a C reader sees of a Rust string: its UTF-8 encoding up to
/// the first null byte.
pub open spec fn c_text(chars: Seq<char>) -> Seq<u8> {
    before(encode_utf8(chars), 0u8)
}

/// A null-terminated byte string, as LLVM's C interface reads it.
///
/// The view is what a C reader sees: the bytes before the terminator, none of
/// which is null.
#[derive(Debug, PartialEq, Eq)]
pub struct CText {
    bytes: Vec<u8>,
}

impl View for CText {
    type V = Seq<u8>;

    closed spec fn view(&self) -> Seq<u8> {
        self.bytes@.drop_last()
    }
}

impl CText {
    #[verifier::type_invariant]
    spec fn is_terminated(self) -> bool {
        &&& self.bytes@.len() > 0
        &&& self.bytes@.last() == 0
        &&& !self.bytes@.drop_last().contains(0u8)
    }

    /// The bytes with the terminator behind them.
    pub fn as_bytes_with_nul(&self) -> (bytes: &[u8])
        ensures
            bytes@ == self@.push(0u8),
            !self@.contains(0u8),
    {
        proof {
            use_type_invariant(self);
            assert(self.bytes@.drop_last().push(0u8) =~= self.bytes@);
        }
        self.bytes.as_slice()
    }
}

/// Copies `s` into a null-terminated string, up to the first null character
/// that `s` holds itself.
pub fn to_c_str(s: &str) -> (text: CText)
    ensures
        text@ == c_text(s@),
{
    let source = s.as_bytes();
    let mut bytes: Vec<u8> = Vec::new();
    let mut i: usize = 0;
    while i < source.len() && source[i] != 0
        invariant
            i <= source@.len(),
            bytes@ == source@.take(i as int),
            forall|j: int| 0 <= j < i ==> source@[j] != 0,
        decreases source@.len() - i,
    {
        bytes.push(source[i]);
        i = i + 1;
        assert(bytes@ =~= source@.take(i as int));
    }
    proof {
        source@.index_of_first_ensures(0u8);
        assert(bytes@ =~= before(source@, 0u8));
    }
    let ghost content = bytes@;
    bytes.push(0);
    assert(bytes@.drop_last() =~= content);
    CText { bytes }
}

/// A scalar other than zero has no null byte in its encoding.
proof fn lemma_scalar_without_null(c: u32)
    requires
        is_scalar(c),
        c != 0,
    ensures
        !encode_scalar(c).contains(0u8),
{
    assert(has_width_1_encoding(c) ==> (c & 0x7F) as u8 != 0) by {
        assert(c != 0 && c <= 0x7F ==> (c & 0x7F) as u8 != 0) by (bit_vector);
    }
    assert((0xC0 | ((c >> 6) & 0x1F) as u8) != 0) by (bit_vector);
    assert((0xE0 | ((c >> 12) & 0x0F) as u8) != 0) by (bit_vector);
    assert((0xF0 | ((c >> 18) & 0x7) as u8) != 0) by (bit_vector);
    assert((0x80 | (c & 0x3F) as u8) != 0) by (bit_vector);
    assert((0x80 | ((c >> 6) & 0x3F) as u8) != 0) by (bit_vector);
    assert((0x80 | ((c >> 12) & 0x3F) as u8) != 0) by (bit_vector);
}

/// `before` looks at the head first.
proof fn lemma_before_step<A>(head: Seq<A>, tail: Seq<A>, stop: A)
    requires
        !head.contains(stop),
    ensures
        before(head + tail, stop) == head + before(tail, stop),
{
    let s = head + tail;
    s.index_of_first_ensures(stop);
    tail.index_of_first_ensures(stop);
    if tail.contains(stop) {
        let i = tail.index_of_first(stop)->0;
        assert(s[head.len() + i] == stop);
        assert(s.contains(stop));
        let j = s.index_of_first(stop)->0;
        if j < head.len() {
            assert(head[j] == stop);
        } else if j < head.len() + i {
            assert(tail[j - head.len()] == stop);
        }
        assert(j == head.len() + i);
    } else {
        if s.contains(stop) {
            let j = s.index_of_first(stop)->0;
            if j < head.len() {
                assert(head[j] == stop);
            } else {
                assert(tail[j - head.len()] == stop);
            }
        }
    }
    assert(before(s, stop) =~= head + before(tail, stop));
}

/// Cutting a string at its first null character and encoding it gives the
/// bytes that a C reader sees of it, and decoding those gives the cut string
/// back.
pub proof fn law_c_text_cuts_at_null(chars: Seq<char>)
    ensures
        c_text(chars) == encode_utf8(before(chars, '\0')),
        valid_utf8(c_text(chars)),
        decode_utf8(c_text(chars)) == before(chars, '\0'),
    decreases chars.len(),
{
    chars.index_of_first_ensures('\0');
    if chars.len() == 0 {
        encode_utf8(chars).index_of_first_ensures(0u8);
        assert(before(chars, '\0') =~= chars);
        assert(c_text(chars) =~= encode_utf8(chars));
    } else if chars[0] == '\0' {
        let zero: u32 = chars[0] as u32;
        assert((zero & 0x7F) as u8 == 0) by (bit_vector)
            requires
                zero == 0,
        ;
        assert(encode_utf8(chars)[0] == 0u8);
        encode_utf8(chars).index_of_first_ensures(0u8);
        assert(before(chars, '\0') =~= Seq::<char>::empty());
        assert(c_text(chars) =~= Seq::<u8>::empty());
    } else {
        let rest = chars.drop_first();
        law_c_text_cuts_at_null(rest);
        char_is_scalar(chars[0]);
        char_u32_cast(chars[0], chars[0] as u32);
        assert(chars[0] as u32 != 0);
        lemma_scalar_without_null(chars[0] as u32);
        lemma_before_step(encode_scalar(chars[0] as u32), encode_utf8(rest), 0u8);
        lemma_before_step(seq![chars[0]], rest, '\0');
        assert(chars =~= seq![chars[0]] + rest);
        let kept = before(chars, '\0');
        assert(kept.drop_first() =~= before(rest, '\0'));
    }
    encode_utf8_valid_utf8(before(chars, '\0'));
    encode_utf8_decode_utf8(before(chars, '\0'));
}

/// What stands before the first occurrence of something is a beginning that does
/// not hold it, and that goes on with it unless it is all there is.
pub proof fn law_before_ends_at_the_first<A>(s: Seq<A>, stop: A)
    ensures
        before(s, stop).is_prefix_of(s),
        !before(s, stop).contains(stop),
        before(s, stop).len() < s.len() ==> s[before(s, stop).len() as int] == stop,
{
    s.index_of_first_ensures(stop);
}

/// What a C reader sees of a string is a beginning of its UTF-8 encoding that
/// holds no null byte, and that a null byte follows unless it is all there is.
pub proof fn law_c_text_ends_at_the_first_null(chars: Seq<char>)
    ensures
        c_text(chars).is_prefix_of(encode_utf8(chars)),
        !c_text(chars).contains(0u8),
        c_text(chars).len() < encode_utf8(chars).len() ==> encode_utf8(
            chars,
        )[c_text(chars).len() as int] == 0u8,
{
    law_before_ends_at_the_first(encode_utf8(chars), 0u8);
}

/// A string without null characters reaches LLVM whole.
pub proof fn law_c_text_keeps_whole(chars: Seq<char>)
    requires
        !chars.contains('\0'),
    ensures
        c_text(chars) == encode_utf8(chars),
        decode_utf8(c_text(chars)) == chars,
{
    law_c_text_cuts_at_null(chars);
    chars.index_of_first_ensures('\0');
}

/// The text that `String::from_utf8_lossy` gives for these bytes.
pub uninterp spec fn utf8_lossy(bytes: Seq<u8>) -> Seq<char>;

/// Decodes UTF-8 by `std::str::from_utf8`: valid UTF-8 gives the text that it
/// encodes, anything else gives nothing.
#[verifier::external_body]
pub(crate) fn decode_strict(bytes: &Vec<u8>) -> (text: Option<String>)
    ensures
        text is Some <==> valid_utf8(bytes@),
        text matches Some(decoded) ==> decoded@ == decode_utf8(bytes@),
{
    match std::str::from_utf8(bytes) {
        Ok(decoded) => Some(decoded.to_owned()),
        Err(_) => None,
    }
}

/// Decodes UTF-8 by `String::from_utf8_lossy`, which never fails: what it makes
/// of the bytes has the name `utf8_lossy`, and for valid UTF-8 that is the text
/// that the bytes encode.
#[verifier::external_body]
pub(crate) fn decode_lossy(bytes: &Vec<u8>) -> (text: String)
    ensures
        text@ == utf8_lossy(bytes@),
        valid_utf8(bytes@) ==> text@ == decode_utf8(bytes@),
{
    String::from_utf8_lossy(bytes).into_owned()
}

} // verus!
