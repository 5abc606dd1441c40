use vstd::prelude::*;
use vstd::utf8::{decode_utf8, valid_utf8};

use crate::ascii::{
    all_ascii_white_space, ascii_lower_byte, ascii_lower_char, ascii_lowercase, ascii_upper_byte,
    ascii_upper_char, ascii_uppercase, lemma_ascii_lower_byte_map, lemma_ascii_upper_byte_map,
    lemma_utf8_ascii_map, lemma_utf8_white_space_prefix, lemma_utf8_white_space_suffix,
};
use crate::text::{
    chars_of, in_class, is_white_space, leading_in_class, lemma_trim_end_class_map,
    lemma_trim_end_push, lemma_trim_start_class_map, lemma_trim_start_push,
    lemma_trim_surrounding_white_space, trailing_in_class, trim, trim_class, trim_end_class,
    trim_start_class, CharClass,
};

verus! {

/// Longest prefix of a response body, in bytes, that an error message quotes.
pub const BODY_PREVIEW_LIMIT: usize = 512;

/// What `String::from_utf8_lossy` decodes a byte sequence to.
pub uninterp spec fn utf8_lossy(bytes: Seq<u8>) -> Seq<char>;

/// `std::str::from_utf8`: succeeds exactly on valid UTF-8 and then gives
/// the decoded characters.
#[verifier::external_body]
fn str_from_utf8(bytes: &[u8]) -> (r: Option<&str>)
    ensures
        r is Some <==> valid_utf8(bytes@),
        r matches Some(s) ==> s@ == decode_utf8(bytes@),
{
    std::str::from_utf8(bytes).ok()
}

/// `String::from_utf8_lossy`: decodes the bytes, replacing each invalid
/// sequence by U+FFFD. Stated: the result is `utf8_lossy` of the bytes, and
/// on valid UTF-8 it is the plain decoding. The replacement rule itself is
/// not stated.
#[verifier::external_body]
fn string_from_utf8_lossy(bytes: &[u8]) -> (r: String)
    ensures
        r@ == utf8_lossy(bytes@),
        valid_utf8(bytes@) ==> r@ == decode_utf8(bytes@),
{
    String::from_utf8_lossy(bytes).into_owned()
}

/// Whether an HTTP status code is in the success range `200..=299`.
pub open spec fn status_is_success(status: u16) -> bool {
    200 <= status && status <= 299
}

/// Whether an HTTP status code is in the success range `200..=299`.
pub fn is_success(status: u16) -> (r: bool)
    ensures
        r == status_is_success(status),
{
    200 <= status && status <= 299
}

/// The quoted part of a body in an error: its first `BODY_PREVIEW_LIMIT`
/// bytes, decoded leniently, with a marker when the body was cut.
pub open spec fn body_preview(body: Seq<u8>) -> Seq<char> {
    if body.len() > BODY_PREVIEW_LIMIT {
        utf8_lossy(body.take(BODY_PREVIEW_LIMIT as int)) + "...<truncated>"@
    } else {
        utf8_lossy(body)
    }
}

/// The bytes of a body that its preview quotes: its first
/// `BODY_PREVIEW_LIMIT` bytes.
pub open spec fn previewed_bytes(body: Seq<u8>) -> Seq<u8> {
    if body.len() > BODY_PREVIEW_LIMIT {
        body.take(BODY_PREVIEW_LIMIT as int)
    } else {
        body
    }
}

/// The preview of a body whose previewed bytes are valid UTF-8: their
/// text, with the marker when the body was cut.
pub open spec fn plain_preview(body: Seq<u8>) -> Seq<char> {
    if body.len() > BODY_PREVIEW_LIMIT {
        decode_utf8(previewed_bytes(body)) + "...<truncated>"@
    } else {
        decode_utf8(body)
    }
}

/// The preview of a body and its size in bytes.
pub fn summarize_body(body: &[u8]) -> (r: (String, usize))
    ensures
        r.0@ == body_preview(body@),
        valid_utf8(previewed_bytes(body@)) ==> r.0@ == plain_preview(body@),
        r.1 == body@.len(),
{
    let total_size = body.len();
    let preview_size = if total_size < BODY_PREVIEW_LIMIT {
        total_size
    } else {
        BODY_PREVIEW_LIMIT
    };
    let head = vstd::slice::slice_subrange(body, 0, preview_size);
    let mut preview = string_from_utf8_lossy(head);
    if total_size > BODY_PREVIEW_LIMIT {
        preview.append("...<truncated>");
    } else {
        proof {
            assert(body@.subrange(0, preview_size as int) =~= body@);
        }
    }
    (preview, total_size)
}

/// The lower-case code of an ASCII letter; other characters keep their code.
pub open spec fn ascii_lower(c: char) -> u32 {
    if 'A' <= c && c <= 'Z' {
        (c as u32 + 32) as u32
    } else {
        c as u32
    }
}

/// Equality of two texts up to the case of ASCII letters.
pub open spec fn eq_ignore_ascii_case(a: Seq<char>, b: Seq<char>) -> bool {
    a.len() == b.len() && forall|i: int| 0 <= i < a.len() ==> ascii_lower(#[trigger] a[i]) == ascii_lower(b[i])
}

/// `k` is the position of the only colon of `s`.
pub open spec fn single_colon_at(s: Seq<char>, k: int) -> bool {
    0 <= k < s.len() && s[k] == ':' && forall|j: int| 0 <= j < s.len() && j != k ==> #[trigger] s[j] != ':'
}

/// The key of a `key:value` text, without white space and quotes around it.
pub open spec fn legacy_key(inner: Seq<char>, k: int) -> Seq<char> {
    trim_class(trim(inner.take(k)), CharClass::Quote)
}

/// The value of a `key:value` text, without white space, a trailing comma
/// and quotes around it.
pub open spec fn legacy_value(inner: Seq<char>, k: int) -> Seq<char> {
    trim_class(trim(trim_end_class(trim(inner.skip(k + 1)), CharClass::Exactly(','))), CharClass::Quote)
}

/// A text of the form `{Error:true}`: braces around a single `key:value`
/// pair, up to white space, quotes around key and value, one trailing comma
/// and the case of ASCII letters.
pub open spec fn legacy_error_text(text: Seq<char>) -> bool {
    let t = trim(text);
    let inner = trim(t.subrange(1, t.len() - 1));
    &&& t.len() >= 2
    &&& t[0] == '{'
    &&& t.last() == '}'
    &&& exists|k: int| single_colon_at(inner, k)
    &&& eq_ignore_ascii_case(legacy_key(inner, choose|k: int| single_colon_at(inner, k)), "error"@)
    &&& eq_ignore_ascii_case(legacy_value(inner, choose|k: int| single_colon_at(inner, k)), "true"@)
}

/// White space before or after a text does not change whether it is the
/// legacy error answer.
pub proof fn law_legacy_error_ignores_surrounding_white_space(text: Seq<char>, c: char)
    requires
        is_white_space(c),
    ensures
        legacy_error_text(seq![c] + text) == legacy_error_text(text),
        legacy_error_text(text.push(c)) == legacy_error_text(text),
{
    assert((seq![c] + text).drop_first() =~= text);
    assert(trim(seq![c] + text) == trim(text));
    lemma_trim_start_push(text, c, CharClass::Whitespace);
    let u = trim_start_class(text, CharClass::Whitespace);
    if u.len() > 0 {
        lemma_trim_end_push(u, c, CharClass::Whitespace);
    } else {
        assert(seq![c].drop_first() =~= Seq::<char>::empty());
        assert(trim_start_class(seq![c], CharClass::Whitespace) == trim_start_class(
            Seq::<char>::empty(),
            CharClass::Whitespace,
        ));
    }
    assert(trim(text.push(c)) == trim(text));
}

/// A character map that keeps white space, quotes, commas, colons, braces
/// and every other character up to the case of ASCII letters.
pub open spec fn keeps_legacy_form(f: spec_fn(char) -> char) -> bool {
    forall|c: char|
        #![trigger f(c)]
        {
            &&& is_white_space(f(c)) == is_white_space(c)
            &&& (f(c) == ',') == (c == ',')
            &&& (f(c) == '"') == (c == '"')
            &&& (f(c) == '\'') == (c == '\'')
            &&& (f(c) == ':') == (c == ':')
            &&& (f(c) == '{') == (c == '{')
            &&& (f(c) == '}') == (c == '}')
            &&& ascii_lower(f(c)) == ascii_lower(c)
        }
}

/// Trimming a class of the legacy form commutes with such a map.
proof fn lemma_trim_class_map(s: Seq<char>, f: spec_fn(char) -> char, class: CharClass)
    requires
        keeps_legacy_form(f),
        class == CharClass::Whitespace || class == CharClass::Quote || class == CharClass::Exactly(
            ',',
        ),
    ensures
        trim_class(s.map_values(f), class) == trim_class(s, class).map_values(f),
{
    assert forall|c: char| #[trigger] in_class(class, f(c)) == in_class(class, c) by {
        assert(f(c) == f(c));
    }
    lemma_trim_start_class_map(s, f, class);
    lemma_trim_end_class_map(trim_start_class(s, class), f, class);
}

/// A map that keeps the legacy form keeps whether a text is the legacy
/// error answer.
proof fn lemma_legacy_error_text_map(text: Seq<char>, f: spec_fn(char) -> char)
    requires
        keeps_legacy_form(f),
    ensures
        legacy_error_text(text.map_values(f)) == legacy_error_text(text),
{
    let ws = CharClass::Whitespace;
    let mt = text.map_values(f);
    lemma_trim_class_map(text, f, ws);
    let t = trim(text);
    let t2 = trim(mt);
    assert(t2 == t.map_values(f));
    if t.len() >= 2 {
        assert(t2[0] == f(t[0]));
        assert(t2.last() == f(t.last()));
        assert((t2[0] == '{') == (t[0] == '{'));
        assert((t2.last() == '}') == (t.last() == '}'));
        let body = t.subrange(1, t.len() - 1);
        assert(t2.subrange(1, t2.len() - 1) =~= body.map_values(f));
        lemma_trim_class_map(body, f, ws);
        let inner = trim(body);
        let inner2 = trim(t2.subrange(1, t2.len() - 1));
        assert(inner2 == inner.map_values(f));
        assert forall|k: int| single_colon_at(inner2, k) == single_colon_at(inner, k) by {
            if 0 <= k < inner.len() {
                assert(inner2[k] == f(inner[k]));
                if single_colon_at(inner, k) {
                    assert forall|j: int| 0 <= j < inner2.len() && j != k implies #[trigger] inner2[j]
                        != ':' by {
                        assert(inner2[j] == f(inner[j]));
                    }
                }
                if single_colon_at(inner2, k) {
                    assert forall|j: int| 0 <= j < inner.len() && j != k implies #[trigger] inner[j]
                        != ':' by {
                        assert(inner2[j] == f(inner[j]));
                    }
                }
            }
        }
        if exists|k: int| single_colon_at(inner, k) {
            let k = choose|k: int| single_colon_at(inner, k);
            let k2 = choose|k: int| single_colon_at(inner2, k);
            assert(single_colon_at(inner2, k2));
            assert(single_colon_at(inner, k2));
            assert(k2 == k) by {
                if k2 != k {
                    assert(inner[k2] != ':');
                }
            }
            assert(inner2.take(k) =~= inner.take(k).map_values(f));
            assert(inner2.skip(k + 1) =~= inner.skip(k + 1).map_values(f));
            lemma_trim_class_map(inner.take(k), f, ws);
            lemma_trim_class_map(trim(inner.take(k)), f, CharClass::Quote);
            assert(legacy_key(inner2, k) == legacy_key(inner, k).map_values(f));
            let v0 = inner.skip(k + 1);
            lemma_trim_class_map(v0, f, ws);
            lemma_trim_class_map(trim(v0), f, CharClass::Exactly(','));
            let v1 = trim_end_class(trim(v0), CharClass::Exactly(','));
            assert(trim_end_class(trim(v0).map_values(f), CharClass::Exactly(','))
                == v1.map_values(f)) by {
                assert forall|c: char| #[trigger]
                    in_class(CharClass::Exactly(','), f(c)) == in_class(
                        CharClass::Exactly(','),
                        c,
                    ) by {
                    assert(f(c) == f(c));
                }
                lemma_trim_end_class_map(trim(v0), f, CharClass::Exactly(','));
            }
            lemma_trim_class_map(v1, f, ws);
            lemma_trim_class_map(trim(v1), f, CharClass::Quote);
            assert(legacy_value(inner2, k) == legacy_value(inner, k).map_values(f));
            lemma_eq_ignore_ascii_case_map(legacy_key(inner, k), "error"@, f);
            lemma_eq_ignore_ascii_case_map(legacy_value(inner, k), "true"@, f);
        }
    }
}

/// Comparing up to ASCII case does not see a map that keeps ASCII case classes.
proof fn lemma_eq_ignore_ascii_case_map(a: Seq<char>, b: Seq<char>, f: spec_fn(char) -> char)
    requires
        keeps_legacy_form(f),
    ensures
        eq_ignore_ascii_case(a.map_values(f), b) == eq_ignore_ascii_case(a, b),
{
    let ma = a.map_values(f);
    if a.len() == b.len() {
        assert forall|i: int| 0 <= i < a.len() implies ascii_lower(#[trigger] ma[i]) == ascii_lower(
            a[i],
        ) by {
            assert(ma[i] == f(a[i]));
        }
        if eq_ignore_ascii_case(a, b) {
            assert forall|i: int| 0 <= i < ma.len() implies ascii_lower(#[trigger] ma[i])
                == ascii_lower(b[i]) by {
                assert(ascii_lower(a[i]) == ascii_lower(b[i]));
            }
        }
        if eq_ignore_ascii_case(ma, b) {
            assert forall|i: int| 0 <= i < a.len() implies ascii_lower(#[trigger] a[i])
                == ascii_lower(b[i]) by {
                assert(ascii_lower(ma[i]) == ascii_lower(b[i]));
            }
        }
    }
}

/// A body that is the legacy error answer of the service: valid UTF-8 whose
/// text has the form `{Error:true}`.
pub open spec fn legacy_error_payload(body: Seq<u8>) -> bool {
    valid_utf8(body) && legacy_error_text(decode_utf8(body))
}

/// ASCII white space around a body does not change whether it is the
/// legacy error answer.
pub proof fn law_legacy_error_payload_ignores_surrounding_ascii_white_space(
    w1: Seq<u8>,
    body: Seq<u8>,
    w2: Seq<u8>,
)
    requires
        all_ascii_white_space(w1),
        all_ascii_white_space(w2),
    ensures
        legacy_error_payload(w1 + body + w2) == legacy_error_payload(body),
{
    lemma_utf8_white_space_prefix(w1, body + w2);
    lemma_utf8_white_space_suffix(body, w2);
    lemma_utf8_white_space_prefix(w2, Seq::<u8>::empty());
    assert(w1 + body + w2 =~= w1 + (body + w2));
    if valid_utf8(body) {
        let d = decode_utf8(body);
        assert(decode_utf8(w1 + body + w2) =~= decode_utf8(w1) + d + decode_utf8(w2));
        lemma_trim_surrounding_white_space(decode_utf8(w1), d, decode_utf8(w2));
    }
}

/// The case of ASCII letters in a body does not change whether it is the
/// legacy error answer.
pub proof fn law_legacy_error_payload_ignores_ascii_case(body: Seq<u8>)
    ensures
        legacy_error_payload(ascii_uppercase(body)) == legacy_error_payload(body),
        legacy_error_payload(ascii_lowercase(body)) == legacy_error_payload(body),
{
    let gu = |b: u8| ascii_upper_byte(b);
    let fu = |c: char| ascii_upper_char(c);
    let gl = |b: u8| ascii_lower_byte(b);
    let fl = |c: char| ascii_lower_char(c);
    lemma_ascii_upper_byte_map();
    lemma_ascii_lower_byte_map();
    lemma_utf8_ascii_map(body, gu, fu);
    lemma_utf8_ascii_map(body, gl, fl);
    assert(ascii_uppercase(body) == body.map_values(gu));
    assert(ascii_lowercase(body) == body.map_values(gl));
    assert(keeps_legacy_form(fu));
    assert(keeps_legacy_form(fl));
    if valid_utf8(body) {
        lemma_legacy_error_text_map(decode_utf8(body), fu);
        lemma_legacy_error_text_map(decode_utf8(body), fl);
    }
}

/// The lower-case code of an ASCII letter; other characters keep their code.
fn ascii_lower_code(c: char) -> (r: u32)
    ensures
        r == ascii_lower(c),
{
    let code = c as u32;
    if 65 <= code && code <= 90 {
        code + 32
    } else {
        code
    }
}

/// Whether `v[from..to]` equals `word` up to the case of ASCII letters.
fn range_eq_ignore_ascii_case(v: &[char], from: usize, to: usize, word: &[char]) -> (r: bool)
    requires
        from <= to <= v@.len(),
    ensures
        r == eq_ignore_ascii_case(v@.subrange(from as int, to as int), word@),
{
    if to - from != word.len() {
        return false;
    }
    let mut i: usize = 0;
    while i < word.len()
        invariant
            to - from == word@.len(),
            from <= to <= v@.len(),
            i <= word@.len(),
            forall|j: int| 0 <= j < i ==> ascii_lower(v@[from + j]) == ascii_lower(#[trigger] word@[j]),
        decreases word@.len() - i,
    {
        if ascii_lower_code(v[from + i]) != ascii_lower_code(word[i]) {
            proof {
                assert(v@.subrange(from as int, to as int)[i as int] == v@[from + i]);
            }
            return false;
        }
        i = i + 1;
    }
    proof {
        assert forall|j: int| 0 <= j < v@.subrange(from as int, to as int).len() implies ascii_lower(
            #[trigger] v@.subrange(from as int, to as int)[j],
        ) == ascii_lower(word@[j]) by {
            assert(v@.subrange(from as int, to as int)[j] == v@[from + j]);
        }
    }
    true
}

/// The bounds of `trim(v[from..to])` within `v`.
fn trim_range(v: &[char], from: usize, to: usize, class: CharClass) -> (r: (usize, usize))
    requires
        from <= to <= v@.len(),
    ensures
        from <= r.0 <= r.1 <= to,
        trim_class(v@.subrange(from as int, to as int), class) == v@.subrange(r.0 as int, r.1 as int),
{
    let start = leading_in_class(v, from, to, class);
    let end = trailing_in_class(v, start, to, class);
    (start, end)
}

/// Whether a decoded text has the form of the legacy error answer.
fn is_legacy_error_text(v: &[char]) -> (r: bool)
    ensures
        r == legacy_error_text(v@),
{
    let n = v.len();
    proof {
        assert(v@.subrange(0, n as int) =~= v@);
    }
    let (ts, te) = trim_range(v, 0, n, CharClass::Whitespace);
    let ghost t = v@.subrange(ts as int, te as int);
    if te - ts < 2 || v[ts] != '{' || v[te - 1] != '}' {
        return false;
    }
    proof {
        assert(t.subrange(1, t.len() - 1) =~= v@.subrange(ts + 1, te - 1));
    }
    let (is, ie) = trim_range(v, ts + 1, te - 1, CharClass::Whitespace);
    let ghost inner = v@.subrange(is as int, ie as int);
    proof {
        assert(trim(v@) == t);
        assert(trim(t.subrange(1, t.len() - 1)) == inner);
    }
    // Find the colons of the inner text.
    let mut colon: Option<usize> = None;
    let mut i = is;
    while i < ie
        invariant
            is <= i <= ie <= v@.len(),
            inner == v@.subrange(is as int, ie as int),
            trim(trim(v@).subrange(1, trim(v@).len() - 1)) == inner,
            match colon {
                None => forall|j: int| is <= j < i ==> v@[j] != ':',
                Some(k) => is <= k < i && v@[k as int] == ':' && forall|j: int|
                    is <= j < i && j != k ==> v@[j] != ':',
            },
        decreases ie - i,
    {
        if v[i] == ':' {
            match colon {
                None => {
                    colon = Some(i);
                },
                Some(k) => {
                    proof {
                        assert forall|m: int| !single_colon_at(inner, m) by {
                            if single_colon_at(inner, m) {
                                assert(v@[i as int] == ':');
                                assert(inner[k - is] == v@[k as int]);
                                assert(inner[i - is] == v@[i as int]);
                                if m == k - is {
                                    assert(inner[i - is] != ':');
                                } else {
                                    assert(inner[k - is] != ':');
                                }
                            }
                        }
                    }
                    return false;
                },
            }
        }
        i = i + 1;
    }
    let k = match colon {
        None => {
            proof {
                assert forall|m: int| !single_colon_at(inner, m) by {
                    if single_colon_at(inner, m) {
                        assert(inner[m] == v@[is + m]);
                    }
                }
            }
            return false;
        },
        Some(k) => k,
    };
    let ghost kk = k - is;
    proof {
        assert(single_colon_at(inner, kk)) by {
            assert forall|j: int| 0 <= j < inner.len() && j != kk implies #[trigger] inner[j] != ':' by {
                assert(inner[j] == v@[is + j]);
            }
        }
        assert forall|m: int| single_colon_at(inner, m) implies m == kk by {
            assert(inner[kk] == ':');
        }
        assert(inner.take(kk) =~= v@.subrange(is as int, k as int));
        assert(inner.skip(kk + 1) =~= v@.subrange(k + 1, ie as int));
    }
    let (ks, ke) = trim_range(v, is, k, CharClass::Whitespace);
    let (ks2, ke2) = trim_range(v, ks, ke, CharClass::Quote);
    let (vs, ve) = trim_range(v, k + 1, ie, CharClass::Whitespace);
    let ve2 = trailing_in_class(v, vs, ve, CharClass::Exactly(','));
    let (vs3, ve3) = trim_range(v, vs, ve2, CharClass::Whitespace);
    let (vs4, ve4) = trim_range(v, vs3, ve3, CharClass::Quote);
    let error_word = chars_of("error");
    let true_word = chars_of("true");
    let key_ok = range_eq_ignore_ascii_case(v, ks2, ke2, error_word.as_slice());
    let value_ok = range_eq_ignore_ascii_case(v, vs4, ve4, true_word.as_slice());
    key_ok && value_ok
}

/// Whether a response body is the legacy error answer of the service.
pub fn is_legacy_error_payload(body: &[u8]) -> (r: bool)
    ensures
        r == legacy_error_payload(body@),
{
    match str_from_utf8(body) {
        None => false,
        Some(text) => {
            let chars = chars_of(text);
            is_legacy_error_text(chars.as_slice())
        },
    }
}

/// An answer of the service that is not a successful JSON document.
#[derive(Debug, Clone, PartialEq, Eq)]
pub enum ResponseError {
    /// The service answered with a status outside `200..=299`.
    Status { status: u16, body_preview: String, body_size: usize },
    /// The service answered with the legacy `{Error:true}` payload.
    LegacyErrorResponse { payload_preview: String, payload_size: usize },
}

/// Checks a response before its body is parsed: the legacy error payload is
/// recognised first, whatever the status, then a status outside the success
/// range is an error.
pub fn check_response(status: u16, body: &[u8]) -> (r: Result<(), ResponseError>)
    ensures
        legacy_error_payload(body@) ==> (r matches Err(
            ResponseError::LegacyErrorResponse { payload_preview, payload_size },
        ) && payload_preview@ == body_preview(body@) && payload_size == body@.len() && (valid_utf8(
            previewed_bytes(body@),
        ) ==> payload_preview@ == plain_preview(body@))),
        !legacy_error_payload(body@) && !status_is_success(status) ==> (r matches Err(
            ResponseError::Status { status: s, body_preview: p, body_size },
        ) && s == status && p@ == body_preview(body@) && body_size == body@.len() && (valid_utf8(
            previewed_bytes(body@),
        ) ==> p@ == plain_preview(body@))),
        !legacy_error_payload(body@) && status_is_success(status) ==> r is Ok,
{
    if is_legacy_error_payload(body) {
        let (payload_preview, payload_size) = summarize_body(body);
        return Err(ResponseError::LegacyErrorResponse { payload_preview, payload_size });
    }
    if !is_success(status) {
        let (body_preview, body_size) = summarize_body(body);
        return Err(ResponseError::Status { status, body_preview, body_size });
    }
    Ok(())
}

} // verus!
