//! ASCII case and white space of byte and character sequences, and how
//! UTF-8 decoding carries them.
use vstd::prelude::*;
use vstd::utf8::*;

use crate::text::{all_in_class, is_white_space, CharClass};

verus! {

/// The upper-case byte of an ASCII lower-case letter; other bytes stay.
pub open spec fn ascii_upper_byte(b: u8) -> u8 {
    if 97 <= b && b <= 122 {
        (b - 32) as u8
    } else {
        b
    }
}

/// The lower-case byte of an ASCII upper-case letter; other bytes stay.
pub open spec fn ascii_lower_byte(b: u8) -> u8 {
    if 65 <= b && b <= 90 {
        (b + 32) as u8
    } else {
        b
    }
}

/// The upper-case character of an ASCII lower-case letter; other characters stay.
pub open spec fn ascii_upper_char(c: char) -> char {
    if 'a' <= c && c <= 'z' {
        ((c as u32) - 32) as char
    } else {
        c
    }
}

/// The lower-case character of an ASCII upper-case letter; other characters stay.
pub open spec fn ascii_lower_char(c: char) -> char {
    if 'A' <= c && c <= 'Z' {
        ((c as u32) + 32) as char
    } else {
        c
    }
}

/// The bytes with every ASCII letter in upper case, as `to_ascii_uppercase` gives them.
pub open spec fn ascii_uppercase(bytes: Seq<u8>) -> Seq<u8> {
    bytes.map_values(|b: u8| ascii_upper_byte(b))
}

/// The bytes with every ASCII letter in lower case, as `to_ascii_lowercase` gives them.
pub open spec fn ascii_lowercase(bytes: Seq<u8>) -> Seq<u8> {
    bytes.map_values(|b: u8| ascii_lower_byte(b))
}

/// A byte that `u8::is_ascii_whitespace` accepts: space, tab, line feed,
/// form feed or carriage return.
pub open spec fn is_ascii_white_space_byte(b: u8) -> bool {
    b == 0x20 || b == 0x09 || b == 0x0a || b == 0x0c || b == 0x0d
}

/// Every byte of `w` is ASCII white space.
pub open spec fn all_ascii_white_space(w: Seq<u8>) -> bool {
    forall|i: int| 0 <= i < w.len() ==> is_ascii_white_space_byte(#[trigger] w[i])
}

/// A byte map `g` that changes ASCII bytes into ASCII bytes only and keeps
/// every other byte, with `f` the map it makes of the decoded characters.
pub open spec fn ascii_byte_map(g: spec_fn(u8) -> u8, f: spec_fn(char) -> char) -> bool {
    &&& forall|b: u8|
        #![trigger g(b)]
        (0x80 <= b ==> g(b) == b) && (b < 0x80 ==> g(b) < 0x80 && f((b as u32) as char) == (g(
            b,
        ) as u32) as char)
    &&& forall|c: char| #![trigger f(c)] 0x80 <= (c as u32) ==> f(c) == c
}

/// A byte map that keeps every byte that is not ASCII keeps UTF-8 validity,
/// and the decoding of the mapped bytes is the decoding mapped.
pub proof fn lemma_utf8_ascii_map(bytes: Seq<u8>, g: spec_fn(u8) -> u8, f: spec_fn(char) -> char)
    requires
        ascii_byte_map(g, f),
    ensures
        valid_utf8(bytes.map_values(g)) == valid_utf8(bytes),
        valid_utf8(bytes) ==> decode_utf8(bytes.map_values(g)) == decode_utf8(bytes).map_values(f),
    decreases bytes.len(),
{
    let m = bytes.map_values(g);
    if bytes.len() == 0 {
        assert(decode_utf8(bytes).map_values(f) =~= decode_utf8(m));
    } else {
        let b0 = bytes[0];
        assert(m[0] == g(b0));
        if b0 < 0x80 {
            let gb = g(b0);
            assert(gb < 0x80);
            assert(leading_bits_width_1(b0) == b0 as u32) by (bit_vector)
                requires
                    b0 < 0x80,
            ;
            assert(leading_bits_width_1(gb) == gb as u32) by (bit_vector)
                requires
                    gb < 0x80,
            ;
            assert(valid_first_scalar(bytes));
            assert(valid_first_scalar(m));
            assert(pop_first_scalar(m) =~= pop_first_scalar(bytes).map_values(g));
            lemma_utf8_ascii_map(pop_first_scalar(bytes), g, f);
            if valid_utf8(bytes) {
                assert(f((b0 as u32) as char) == (gb as u32) as char);
                assert(decode_utf8(m) =~= decode_utf8(bytes).map_values(f));
            }
        } else {
            assert(m[0] == b0);
            assert forall|i: int| 0 <= i < bytes.len() implies (is_continuation_byte(
                #[trigger] m[i],
            ) == is_continuation_byte(bytes[i])) && (0x80 <= bytes[i] ==> m[i] == bytes[i]) by {
                assert(m[i] == g(bytes[i]));
            }
            if bytes.len() >= 2 {
                assert(is_continuation_byte(m[1]) == is_continuation_byte(bytes[1]));
            }
            if bytes.len() >= 3 {
                assert(is_continuation_byte(m[2]) == is_continuation_byte(bytes[2]));
            }
            if bytes.len() >= 4 {
                assert(is_continuation_byte(m[3]) == is_continuation_byte(bytes[3]));
            }
            assert(valid_leading_and_continuation_bytes_first_codepoint(m)
                == valid_leading_and_continuation_bytes_first_codepoint(bytes));
            if valid_leading_and_continuation_bytes_first_codepoint(bytes) {
                let k = length_of_first_codepoint(bytes);
                assert(forall|i: int| 0 <= i < k ==> #[trigger] m[i] == bytes[i]);
                assert(decode_first_codepoint(m) == decode_first_codepoint(bytes));
                assert(length_of_first_codepoint(m) == k);
            }
            assert(valid_first_scalar(m) == valid_first_scalar(bytes));
            if valid_first_scalar(bytes) {
                assert(pop_first_scalar(m) =~= pop_first_scalar(bytes).map_values(g));
                lemma_utf8_ascii_map(pop_first_scalar(bytes), g, f);
                if valid_utf8(bytes) {
                    let c = decode_first_scalar(bytes) as char;
                    decode_utf8_first_scalar(bytes);
                    assert(take_first_scalar(bytes).len() >= 2);
                    assert(0x80 <= (c as u32));
                    assert(f(c) == c);
                    assert(decode_utf8(m) =~= decode_utf8(bytes).map_values(f));
                }
            }
        }
    }
}

/// Upper-casing ASCII bytes upper-cases the decoded ASCII characters.
pub proof fn lemma_ascii_upper_byte_map()
    ensures
        ascii_byte_map(|b: u8| ascii_upper_byte(b), |c: char| ascii_upper_char(c)),
{
}

/// Lower-casing ASCII bytes lower-cases the decoded ASCII characters.
pub proof fn lemma_ascii_lower_byte_map()
    ensures
        ascii_byte_map(|b: u8| ascii_lower_byte(b), |c: char| ascii_lower_char(c)),
{
}

/// An ASCII byte before valid UTF-8 decodes to its character before the
/// decoded rest; before invalid UTF-8 it leaves it invalid.
proof fn lemma_utf8_ascii_byte_prefix(b: u8, s: Seq<u8>)
    requires
        b < 0x80,
    ensures
        valid_utf8(seq![b] + s) == valid_utf8(s),
        valid_utf8(s) ==> decode_utf8(seq![b] + s) == seq![(b as u32) as char] + decode_utf8(s),
{
    let t = seq![b] + s;
    assert(t[0] == b);
    assert(leading_bits_width_1(b) == b as u32) by (bit_vector)
        requires
            b < 0x80,
    ;
    assert(valid_first_scalar(t));
    assert(pop_first_scalar(t) =~= s);
}

/// ASCII white space before a byte sequence changes neither its validity
/// nor, but for the white space itself, its decoding.
pub proof fn lemma_utf8_white_space_prefix(w: Seq<u8>, s: Seq<u8>)
    requires
        all_ascii_white_space(w),
    ensures
        valid_utf8(w + s) == valid_utf8(s),
        valid_utf8(w) && all_in_class(decode_utf8(w), CharClass::Whitespace),
        valid_utf8(s) ==> decode_utf8(w + s) == decode_utf8(w) + decode_utf8(s),
    decreases w.len(),
{
    if w.len() == 0 {
        assert(w + s =~= s);
        assert(decode_utf8(w) =~= Seq::<char>::empty());
    } else {
        let b = w[0];
        assert(is_ascii_white_space_byte(b));
        let rest = w.drop_first();
        assert(all_ascii_white_space(rest)) by {
            assert forall|i: int| 0 <= i < rest.len() implies is_ascii_white_space_byte(
                #[trigger] rest[i],
            ) by {
                assert(rest[i] == w[i + 1]);
            }
        }
        lemma_utf8_white_space_prefix(rest, s);
        assert(w =~= seq![b] + rest);
        assert(w + s =~= seq![b] + (rest + s));
        lemma_utf8_ascii_byte_prefix(b, rest + s);
        lemma_utf8_ascii_byte_prefix(b, rest);
        let c = (b as u32) as char;
        assert(is_white_space(c));
        let d = decode_utf8(w);
        assert(d =~= seq![c] + decode_utf8(rest));
        assert(all_in_class(d, CharClass::Whitespace)) by {
            assert forall|i: int| 0 <= i < d.len() implies crate::text::in_class(
                CharClass::Whitespace,
                #[trigger] d[i],
            ) by {
                if i > 0 {
                    assert(d[i] == decode_utf8(rest)[i - 1]);
                }
            }
        }
        if valid_utf8(s) {
            assert(decode_utf8(w + s) =~= decode_utf8(w) + decode_utf8(s));
        }
    }
}

/// ASCII white space after a byte sequence changes neither its validity
/// nor, but for the white space itself, its decoding.
pub proof fn lemma_utf8_white_space_suffix(s: Seq<u8>, w: Seq<u8>)
    requires
        all_ascii_white_space(w),
    ensures
        valid_utf8(s + w) == valid_utf8(s),
        valid_utf8(s) ==> decode_utf8(s + w) == decode_utf8(s) + decode_utf8(w),
{
    lemma_utf8_white_space_prefix(w, Seq::<u8>::empty());
    assert(w + Seq::<u8>::empty() =~= w);
    let t = s + w;
    if w.len() == 0 {
        assert(t =~= s);
        assert(decode_utf8(w) =~= Seq::<char>::empty());
        assert(decode_utf8(s) + decode_utf8(w) =~= decode_utf8(s));
    } else {
        if valid_utf8(s) {
            valid_utf8_concat(s, w);
        }
        if valid_utf8(t) {
            assert(t[s.len() as int] == w[0]);
            assert(is_ascii_white_space_byte(w[0]));
            is_char_boundary_iff_not_is_continuation_byte(t, s.len() as int);
            valid_utf8_split(t, s.len() as int);
            decode_utf8_split(t, s.len() as int);
            assert(t.subrange(0, s.len() as int) =~= s);
            assert(t.subrange(s.len() as int, t.len() as int) =~= w);
        }
    }
}

} // verus!
