use vstd::prelude::*;

use crate::text::{
    all_in_class, chars_of, in_class, is_white_space, leading_in_class,
    lemma_trim_end_class_suffix, lemma_trim_start_class_append, lemma_trim_start_class_prefix,
    trailing_in_class, trim_end_class, trim_start_class, CharClass,
};

verus! {

/// Base URL of the API of the Bank of Russia.
pub const DEFAULT_BASE_URL: &'static str = "https://www.cbr.ru/dataservice";

/// The base URL that a configured value stands for: the default when the
/// value is blank, else the value without surrounding white space and
/// without trailing slashes.
pub open spec fn normalized_base_url(s: Seq<char>) -> Seq<char> {
    let t = trim_start_class(s, CharClass::Whitespace);
    if t.len() == 0 {
        DEFAULT_BASE_URL@
    } else {
        trim_end_class(trim_end_class(t, CharClass::Whitespace), CharClass::Exactly('/'))
    }
}

/// The URL of `path` under `base_url`: one slash between them, whatever
/// slashes `path` starts with.
pub open spec fn endpoint_url(base_url: Seq<char>, path: Seq<char>) -> Seq<char> {
    base_url + seq!['/'] + trim_start_class(path, CharClass::Exactly('/'))
}

/// A trim of trailing characters of a class leaves a prefix whose last
/// character, if any, is outside the class.
proof fn lemma_trim_end_prefix(s: Seq<char>, class: CharClass)
    ensures
        trim_end_class(s, class).len() <= s.len(),
        trim_end_class(s, class) == s.take(trim_end_class(s, class).len() as int),
        trim_end_class(s, class).len() > 0 ==> !in_class(class, trim_end_class(s, class).last()),
    decreases s.len(),
{
    if s.len() > 0 && in_class(class, s.last()) {
        lemma_trim_end_prefix(s.drop_last(), class);
        let t = trim_end_class(s.drop_last(), class);
        assert(s.drop_last().take(t.len() as int) =~= s.take(t.len() as int));
    } else {
        assert(s.take(s.len() as int) =~= s);
    }
}

/// A trim of leading characters of a class leaves a text whose first
/// character, if any, is outside the class.
proof fn lemma_trim_start_first(s: Seq<char>, class: CharClass)
    ensures
        trim_start_class(s, class).len() > 0 ==> !in_class(class, trim_start_class(s, class)[0]),
    decreases s.len(),
{
    if s.len() > 0 && in_class(class, s[0]) {
        lemma_trim_start_first(s.drop_first(), class);
    }
}

/// Normalising a base URL twice gives the once-normalised URL, unless the
/// once-normalised URL is empty or ends in white space (as for `"///"` or
/// `"/ /"`, whose trailing slashes are trimmed only after the white space).
pub proof fn law_normalize_base_url_idempotent(s: Seq<char>)
    requires
        normalized_base_url(s).len() > 0,
        !is_white_space(normalized_base_url(s).last()),
    ensures
        normalized_base_url(normalized_base_url(s)) == normalized_base_url(s),
{
    let u = trim_start_class(s, CharClass::Whitespace);
    if u.len() == 0 {
        reveal_strlit("https://www.cbr.ru/dataservice");
        let d = DEFAULT_BASE_URL@;
        assert(!in_class(CharClass::Whitespace, d[0]));
        assert(trim_start_class(d, CharClass::Whitespace) == d);
        assert(trim_end_class(d, CharClass::Whitespace) == d);
        assert(trim_end_class(d, CharClass::Exactly('/')) == d);
    } else {
        let w = trim_end_class(u, CharClass::Whitespace);
        let t = trim_end_class(w, CharClass::Exactly('/'));
        lemma_trim_start_first(s, CharClass::Whitespace);
        lemma_trim_end_prefix(u, CharClass::Whitespace);
        lemma_trim_end_prefix(w, CharClass::Exactly('/'));
        assert(t[0] == w[0]);
        assert(w[0] == u[0]);
        assert(trim_start_class(t, CharClass::Whitespace) == t);
        assert(trim_end_class(t, CharClass::Whitespace) == t);
        assert(trim_end_class(t, CharClass::Exactly('/')) == t);
    }
}

/// White space before or after a configured base URL, a trailing newline
/// among it, does not change the URL it stands for.
pub proof fn law_normalize_base_url_ignores_surrounding_white_space(
    w1: Seq<char>,
    s: Seq<char>,
    w2: Seq<char>,
)
    requires
        all_in_class(w1, CharClass::Whitespace),
        all_in_class(w2, CharClass::Whitespace),
    ensures
        normalized_base_url(w1 + s + w2) == normalized_base_url(s),
        normalized_base_url(s + w2) == normalized_base_url(s),
{
    let ws = CharClass::Whitespace;
    assert(w1 + s + w2 =~= w1 + (s + w2));
    lemma_trim_start_class_prefix(w1, s + w2, ws);
    lemma_trim_start_class_append(s, w2, ws);
    if trim_start_class(s, ws).len() > 0 {
        lemma_trim_end_class_suffix(trim_start_class(s, ws), w2, ws);
    } else {
        lemma_trim_start_class_prefix(w2, Seq::<char>::empty(), ws);
        assert(w2 + Seq::<char>::empty() =~= w2);
    }
}

/// A normalised base URL never starts with white space and never ends with
/// a slash; it is empty only for a value of slashes alone after white space.
pub proof fn law_normalized_base_url_edges(s: Seq<char>)
    ensures
        normalized_base_url(s).len() > 0 ==> !is_white_space(normalized_base_url(s)[0])
            && normalized_base_url(s).last() != '/',
{
    let u = trim_start_class(s, CharClass::Whitespace);
    if u.len() == 0 {
        reveal_strlit("https://www.cbr.ru/dataservice");
    } else {
        let w = trim_end_class(u, CharClass::Whitespace);
        let t = trim_end_class(w, CharClass::Exactly('/'));
        lemma_trim_start_first(s, CharClass::Whitespace);
        lemma_trim_end_prefix(u, CharClass::Whitespace);
        lemma_trim_end_prefix(w, CharClass::Exactly('/'));
        if t.len() > 0 {
            assert(t[0] == w[0]);
            assert(w[0] == u[0]);
        }
    }
}

/// A leading slash of a path changes no URL: `endpoint(b, "/p") == endpoint(b, "p")`.
pub proof fn law_endpoint_leading_slash_optional(base_url: Seq<char>, path: Seq<char>)
    ensures
        endpoint_url(base_url, seq!['/'] + path) == endpoint_url(base_url, path),
{
    let p = seq!['/'] + path;
    assert(p.drop_first() =~= path);
}

/// A path that does not start with a slash is joined to the base URL by one
/// slash, unchanged.
pub proof fn law_endpoint_joins_with_one_slash(base_url: Seq<char>, path: Seq<char>)
    requires
        path.len() == 0 || path[0] != '/',
    ensures
        endpoint_url(base_url, path) == base_url + seq!['/'] + path,
{
}

/// Normalises a configured base URL.
pub fn normalize_base_url(base_url: &str) -> (r: String)
    ensures
        r@ == normalized_base_url(base_url@),
{
    let v = chars_of(base_url);
    let n = v.len();
    proof {
        assert(v@.subrange(0, n as int) =~= base_url@);
    }
    let start = leading_in_class(v.as_slice(), 0, n, CharClass::Whitespace);
    if start == n {
        return String::from_str(DEFAULT_BASE_URL);
    }
    let trimmed_end = trailing_in_class(v.as_slice(), start, n, CharClass::Whitespace);
    let end = trailing_in_class(v.as_slice(), start, trimmed_end, CharClass::Exactly('/'));
    String::from_str(base_url.substring_char(start, end))
}

/// The URL of `path` relative to `base_url`; a leading `/` of `path` is optional.
pub fn endpoint(base_url: &str, path: &str) -> (r: String)
    ensures
        r@ == endpoint_url(base_url@, path@),
{
    let v = chars_of(path);
    let n = v.len();
    proof {
        assert(v@.subrange(0, n as int) =~= path@);
    }
    let start = leading_in_class(v.as_slice(), 0, n, CharClass::Exactly('/'));
    let mut url = String::from_str(base_url);
    url.append("/");
    url.append(path.substring_char(start, n));
    proof {
        reveal_strlit("/");
        assert(url@ =~= endpoint_url(base_url@, path@));
    }
    url
}

} // verus!
