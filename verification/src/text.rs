use vstd::prelude::*;

verus! {

/// Unicode `White_Space`, the property that `char::is_whitespace` tests.
pub open spec fn is_white_space(c: char) -> bool {
    ||| c == ' '
    ||| ('\u{9}' <= c && c <= '\u{d}')
    ||| c == '\u{85}'
    ||| c == '\u{a0}'
    ||| c == '\u{1680}'
    ||| ('\u{2000}' <= c && c <= '\u{200a}')
    ||| c == '\u{2028}'
    ||| c == '\u{2029}'
    ||| c == '\u{202f}'
    ||| c == '\u{205f}'
    ||| c == '\u{3000}'
}

/// Whether `c` is a Unicode white space character.
pub fn is_whitespace(c: char) -> (r: bool)
    ensures
        r == is_white_space(c),
{
    c == ' ' || ('\u{9}' <= c && c <= '\u{d}') || c == '\u{85}' || c == '\u{a0}' || c
        == '\u{1680}' || ('\u{2000}' <= c && c <= '\u{200a}') || c == '\u{2028}' || c
        == '\u{2029}' || c == '\u{202f}' || c == '\u{205f}' || c == '\u{3000}'
}

/// A class of characters that a trim removes.
#[derive(Debug, Clone, Copy)]
pub enum CharClass {
    /// Unicode white space.
    Whitespace,
    /// One given character.
    Exactly(char),
    /// A double or a single quote.
    Quote,
}

/// Whether `c` belongs to the class.
pub open spec fn in_class(class: CharClass, c: char) -> bool {
    match class {
        CharClass::Whitespace => is_white_space(c),
        CharClass::Exactly(x) => c == x,
        CharClass::Quote => c == '"' || c == '\'',
    }
}

impl CharClass {
    /// Whether `c` belongs to the class.
    pub fn contains(self, c: char) -> (r: bool)
        ensures
            r == in_class(self, c),
    {
        match self {
            CharClass::Whitespace => is_whitespace(c),
            CharClass::Exactly(x) => c == x,
            CharClass::Quote => c == '"' || c == '\'',
        }
    }
}

/// `s` without its leading characters of the class.
pub open spec fn trim_start_class(s: Seq<char>, class: CharClass) -> Seq<char>
    decreases s.len(),
{
    if s.len() > 0 && in_class(class, s[0]) {
        trim_start_class(s.drop_first(), class)
    } else {
        s
    }
}

/// `s` without its trailing characters of the class.
pub open spec fn trim_end_class(s: Seq<char>, class: CharClass) -> Seq<char>
    decreases s.len(),
{
    if s.len() > 0 && in_class(class, s.last()) {
        trim_end_class(s.drop_last(), class)
    } else {
        s
    }
}

/// `s` without its leading and trailing characters of the class.
pub open spec fn trim_class(s: Seq<char>, class: CharClass) -> Seq<char> {
    trim_end_class(trim_start_class(s, class), class)
}

/// `s` without leading and trailing white space, as `str::trim` gives it.
pub open spec fn trim(s: Seq<char>) -> Seq<char> {
    trim_class(s, CharClass::Whitespace)
}

/// Appending a character to a text appends it to the text trimmed at its
/// start, unless that trim leaves nothing.
pub proof fn lemma_trim_start_push(s: Seq<char>, c: char, class: CharClass)
    ensures
        trim_start_class(s.push(c), class) == if trim_start_class(s, class).len() > 0 {
            trim_start_class(s, class).push(c)
        } else {
            trim_start_class(seq![c], class)
        },
    decreases s.len(),
{
    if s.len() == 0 {
        assert(s.push(c) =~= seq![c]);
    } else if in_class(class, s[0]) {
        assert(s.push(c).drop_first() =~= s.drop_first().push(c));
        lemma_trim_start_push(s.drop_first(), c, class);
    } else {
        assert(s.push(c)[0] == s[0]);
    }
}

/// A trailing character of the class disappears in a trim of the end.
pub proof fn lemma_trim_end_push(s: Seq<char>, c: char, class: CharClass)
    requires
        in_class(class, c),
    ensures
        trim_end_class(s.push(c), class) == trim_end_class(s, class),
{
    assert(s.push(c).drop_last() =~= s);
}

/// Every character of `w` belongs to the class.
pub open spec fn all_in_class(w: Seq<char>, class: CharClass) -> bool {
    forall|i: int| 0 <= i < w.len() ==> in_class(class, #[trigger] w[i])
}

/// Leading characters of the class disappear in a trim of the start.
pub proof fn lemma_trim_start_class_prefix(w: Seq<char>, s: Seq<char>, class: CharClass)
    requires
        all_in_class(w, class),
    ensures
        trim_start_class(w + s, class) == trim_start_class(s, class),
    decreases w.len(),
{
    if w.len() == 0 {
        assert(w + s =~= s);
    } else {
        assert(in_class(class, w[0]));
        assert((w + s)[0] == w[0]);
        assert((w + s).drop_first() =~= w.drop_first() + s);
        assert(all_in_class(w.drop_first(), class)) by {
            assert forall|i: int| 0 <= i < w.drop_first().len() implies in_class(
                class,
                #[trigger] w.drop_first()[i],
            ) by {
                assert(w.drop_first()[i] == w[i + 1]);
            }
        }
        lemma_trim_start_class_prefix(w.drop_first(), s, class);
    }
}

/// Trailing characters of the class disappear in a trim of the end.
pub proof fn lemma_trim_end_class_suffix(s: Seq<char>, w: Seq<char>, class: CharClass)
    requires
        all_in_class(w, class),
    ensures
        trim_end_class(s + w, class) == trim_end_class(s, class),
    decreases w.len(),
{
    if w.len() == 0 {
        assert(s + w =~= s);
    } else {
        assert(in_class(class, w.last()));
        assert((s + w).last() == w.last());
        assert((s + w).drop_last() =~= s + w.drop_last());
        assert(all_in_class(w.drop_last(), class)) by {
            assert forall|i: int| 0 <= i < w.drop_last().len() implies in_class(
                class,
                #[trigger] w.drop_last()[i],
            ) by {
                assert(w.drop_last()[i] == w[i]);
            }
        }
        lemma_trim_end_class_suffix(s, w.drop_last(), class);
    }
}

/// Appending a text to a text appends it to the text trimmed at its start,
/// unless that trim leaves nothing.
pub proof fn lemma_trim_start_class_append(s: Seq<char>, w: Seq<char>, class: CharClass)
    ensures
        trim_start_class(s + w, class) == if trim_start_class(s, class).len() > 0 {
            trim_start_class(s, class) + w
        } else {
            trim_start_class(w, class)
        },
    decreases s.len(),
{
    if s.len() == 0 {
        assert(s + w =~= w);
    } else {
        assert((s + w)[0] == s[0]);
        if in_class(class, s[0]) {
            assert((s + w).drop_first() =~= s.drop_first() + w);
            lemma_trim_start_class_append(s.drop_first(), w, class);
        }
    }
}

/// White space around a text does not change its trim.
pub proof fn lemma_trim_surrounding_white_space(w1: Seq<char>, s: Seq<char>, w2: Seq<char>)
    requires
        all_in_class(w1, CharClass::Whitespace),
        all_in_class(w2, CharClass::Whitespace),
    ensures
        trim(w1 + s + w2) == trim(s),
{
    let ws = CharClass::Whitespace;
    assert(w1 + s + w2 =~= w1 + (s + w2));
    lemma_trim_start_class_prefix(w1, s + w2, ws);
    lemma_trim_start_class_append(s, w2, ws);
    if trim_start_class(s, ws).len() > 0 {
        lemma_trim_end_class_suffix(trim_start_class(s, ws), w2, ws);
    } else {
        lemma_trim_start_class_prefix(w2, Seq::<char>::empty(), ws);
        assert(w2 + Seq::<char>::empty() =~= w2);
    }
}

/// A trim of the start commutes with a character map that keeps the class
/// of every character.
pub proof fn lemma_trim_start_class_map(s: Seq<char>, f: spec_fn(char) -> char, class: CharClass)
    requires
        forall|c: char| #[trigger] in_class(class, f(c)) == in_class(class, c),
    ensures
        trim_start_class(s.map_values(f), class) == trim_start_class(s, class).map_values(f),
    decreases s.len(),
{
    if s.len() > 0 {
        assert(s.map_values(f)[0] == f(s[0]));
        assert(in_class(class, f(s[0])) == in_class(class, s[0]));
        if in_class(class, s[0]) {
            assert(s.map_values(f).drop_first() =~= s.drop_first().map_values(f));
            lemma_trim_start_class_map(s.drop_first(), f, class);
        }
    } else {
        assert(s.map_values(f) =~= s.map_values(f));
    }
}

/// A trim of the end commutes with a character map that keeps the class of
/// every character.
pub proof fn lemma_trim_end_class_map(s: Seq<char>, f: spec_fn(char) -> char, class: CharClass)
    requires
        forall|c: char| #[trigger] in_class(class, f(c)) == in_class(class, c),
    ensures
        trim_end_class(s.map_values(f), class) == trim_end_class(s, class).map_values(f),
    decreases s.len(),
{
    if s.len() > 0 {
        assert(s.map_values(f).last() == f(s.last()));
        assert(in_class(class, f(s.last())) == in_class(class, s.last()));
        if in_class(class, s.last()) {
            assert(s.map_values(f).drop_last() =~= s.drop_last().map_values(f));
            lemma_trim_end_class_map(s.drop_last(), f, class);
        }
    }
}

/// The number of leading characters of `v[from..to]` that belong to the class.
pub fn leading_in_class(v: &[char], from: usize, to: usize, class: CharClass) -> (r: usize)
    requires
        from <= to <= v@.len(),
    ensures
        from <= r <= to,
        trim_start_class(v@.subrange(from as int, to as int), class) == v@.subrange(
            r as int,
            to as int,
        ),
{
    let mut i = from;
    while i < to && class.contains(v[i])
        invariant
            from <= i <= to <= v@.len(),
            trim_start_class(v@.subrange(from as int, to as int), class) == trim_start_class(
                v@.subrange(i as int, to as int),
                class,
            ),
        decreases to - i,
    {
        proof {
            assert(v@.subrange(i as int, to as int).drop_first() =~= v@.subrange(
                i + 1,
                to as int,
            ));
        }
        i = i + 1;
    }
    i
}

/// The end of `v[from..to]` once the trailing characters of the class are removed.
pub fn trailing_in_class(v: &[char], from: usize, to: usize, class: CharClass) -> (r: usize)
    requires
        from <= to <= v@.len(),
    ensures
        from <= r <= to,
        trim_end_class(v@.subrange(from as int, to as int), class) == v@.subrange(
            from as int,
            r as int,
        ),
{
    let mut j = to;
    while j > from && class.contains(v[j - 1])
        invariant
            from <= j <= to <= v@.len(),
            trim_end_class(v@.subrange(from as int, to as int), class) == trim_end_class(
                v@.subrange(from as int, j as int),
                class,
            ),
        decreases j - from,
    {
        proof {
            assert(v@.subrange(from as int, j as int).drop_last() =~= v@.subrange(
                from as int,
                j - 1,
            ));
        }
        j = j - 1;
    }
    j
}

/// The characters of a string slice.
pub fn chars_of(s: &str) -> (r: Vec<char>)
    ensures
        r@ == s@,
{
    let n = s.unicode_len();
    let mut out: Vec<char> = Vec::new();
    let mut i: usize = 0;
    while i < n
        invariant
            n == s@.len(),
            i <= n,
            out@ == s@.take(i as int),
        decreases n - i,
    {
        out.push(s.get_char(i));
        i = i + 1;
        proof {
            assert(out@ =~= s@.take(i as int));
        }
    }
    proof {
        assert(s@.take(i as int) =~= s@);
    }
    out
}

/// Whether `p` occurs in `s` as a contiguous part, as `str::contains` tests.
pub open spec fn contains_text(s: Seq<char>, p: Seq<char>) -> bool {
    exists|i: int| 0 <= i && i + p.len() <= s.len() && #[trigger] s.subrange(i, i + p.len()) == p
}

/// Whether `v[at..at + p.len()]` equals `p`.
fn matches_at(v: &[char], at: usize, p: &[char]) -> (r: bool)
    requires
        at + p@.len() <= v@.len(),
    ensures
        r == (v@.subrange(at as int, at + p@.len()) == p@),
{
    let n = v.len();
    let mut j: usize = 0;
    while j < p.len()
        invariant
            n == v@.len(),
            at + p@.len() <= v@.len(),
            j <= p@.len(),
            forall|m: int| 0 <= m < j ==> v@[at + m] == p@[m],
        decreases p@.len() - j,
    {
        if v[at + j] != p[j] {
            proof {
                assert(v@.subrange(at as int, at + p@.len())[j as int] != p@[j as int]);
            }
            return false;
        }
        j = j + 1;
    }
    proof {
        assert(v@.subrange(at as int, at + p@.len()) =~= p@);
    }
    true
}

/// Whether `p` occurs in `v`.
pub fn contains_chars(v: &[char], p: &[char]) -> (r: bool)
    ensures
        r == contains_text(v@, p@),
{
    if p.len() > v.len() {
        return false;
    }
    if p.len() == 0 {
        proof {
            assert(v@.subrange(0int, 0int + p@.len()) =~= p@);
        }
        return true;
    }
    let end = v.len() - p.len() + 1;
    let mut i: usize = 0;
    while i < end
        invariant
            end + p@.len() == v@.len() + 1,
            i <= end,
            forall|k: int| 0 <= k < i ==> #[trigger] v@.subrange(k, k + p@.len()) != p@,
        decreases end - i,
    {
        if matches_at(v, i, p) {
            return true;
        }
        i = i + 1;
    }
    false
}

/// Whether two string slices hold the same characters.
pub fn str_eq(a: &str, b: &str) -> (r: bool)
    ensures
        r == (a@ == b@),
{
    let x = chars_of(a);
    let y = chars_of(b);
    if x.len() != y.len() {
        return false;
    }
    proof {
        assert(x@.subrange(0, y@.len() as int) =~= x@);
    }
    matches_at(x.as_slice(), 0, y.as_slice())
}

/// Whether `c` is an ASCII decimal digit.
pub open spec fn is_digit(c: char) -> bool {
    '0' <= c && c <= '9'
}

/// The value of an ASCII decimal digit.
pub open spec fn digit_value(c: char) -> int {
    c as int - '0' as int
}

/// The value of a sequence of decimal digits.
pub open spec fn decimal_value(s: Seq<char>) -> int
    decreases s.len(),
{
    if s.len() == 0 {
        0
    } else {
        10 * decimal_value(s.drop_last()) + digit_value(s.last())
    }
}

/// Whether every character of `s` is a decimal digit.
pub open spec fn all_digits(s: Seq<char>) -> bool {
    forall|i: int| 0 <= i < s.len() ==> is_digit(#[trigger] s[i])
}

/// The length of the sign that may start a number: one for `+` or `-`.
pub open spec fn sign_len(s: Seq<char>) -> int {
    if s.len() > 0 && (s[0] == '-' || s[0] == '+') {
        1
    } else {
        0
    }
}

/// What `str::parse::<i32>` gives: an optional `+` or `-`, then at least one
/// decimal digit and nothing else, whose value fits in `i32`.
pub open spec fn parsed_i32(s: Seq<char>) -> Option<i32> {
    let digits = s.skip(sign_len(s));
    let value = if s.len() > 0 && s[0] == '-' {
        -decimal_value(digits)
    } else {
        decimal_value(digits)
    };
    if digits.len() > 0 && all_digits(digits) && i32::MIN <= value <= i32::MAX {
        Some(value as i32)
    } else {
        None
    }
}

/// A single decimal digit parses to its value.
pub proof fn law_parsed_i32_single_digit(c: char)
    requires
        is_digit(c),
    ensures
        parsed_i32(seq![c]) == Some((c as int - 48) as i32),
{
    let t = seq![c];
    assert(t.skip(0) =~= t);
    assert(t.drop_last() =~= Seq::<char>::empty());
    assert(decimal_value(Seq::<char>::empty()) == 0);
    assert(decimal_value(t) == digit_value(c));
    assert('0' as int == 48);
    assert(all_digits(t));
}

/// A digit appended to an unsigned number multiplies it by ten and adds the
/// digit, while the result fits in `i32`.
pub proof fn law_parsed_i32_append_digit(s: Seq<char>, c: char, n: i32)
    requires
        s.len() > 0,
        is_digit(s[0]),
        parsed_i32(s) == Some(n),
        is_digit(c),
        10 * n + (c as int - 48) <= i32::MAX,
    ensures
        parsed_i32(s.push(c)) == Some((10 * n + (c as int - 48)) as i32),
{
    assert(s.skip(0) =~= s);
    assert(s.push(c).skip(0) =~= s.push(c));
    assert(s.push(c).drop_last() =~= s);
    assert(s.push(c)[0] == s[0]);
    lemma_decimal_nonnegative(s);
}

/// A minus sign before an unsigned number negates it; a plus sign keeps it.
pub proof fn law_parsed_i32_sign(s: Seq<char>, n: i32)
    requires
        s.len() > 0,
        is_digit(s[0]),
        parsed_i32(s) == Some(n),
    ensures
        parsed_i32(seq!['-'] + s) == Some((-n) as i32),
        parsed_i32(seq!['+'] + s) == Some(n),
{
    assert(s.skip(0) =~= s);
    assert((seq!['-'] + s).skip(1) =~= s);
    assert((seq!['+'] + s).skip(1) =~= s);
    lemma_decimal_nonnegative(s);
}

/// A text with a character other than a digit after its sign, or with no
/// digit, parses to nothing.
pub proof fn law_parsed_i32_needs_digits(s: Seq<char>, k: int)
    requires
        sign_len(s) <= k < s.len(),
        !is_digit(s[k]),
    ensures
        parsed_i32(s) is None,
{
    assert(s.skip(sign_len(s))[k - sign_len(s)] == s[k]);
}

/// A longer sequence of digits has at least the value of its prefix.
proof fn lemma_decimal_prefix(s: Seq<char>, i: int, j: int)
    requires
        0 <= i <= j <= s.len(),
        forall|k: int| 0 <= k < s.len() ==> is_digit(#[trigger] s[k]),
    ensures
        decimal_value(s.take(i)) <= decimal_value(s.take(j)),
    decreases j - i,
{
    if i < j {
        lemma_decimal_prefix(s, i, j - 1);
        assert(s.take(j).drop_last() =~= s.take(j - 1));
        assert(decimal_value(s.take(j - 1)) >= 0) by {
            lemma_decimal_nonnegative(s.take(j - 1));
        }
    }
}

/// The value of a sequence of digits is not negative.
proof fn lemma_decimal_nonnegative(s: Seq<char>)
    requires
        forall|k: int| 0 <= k < s.len() ==> is_digit(#[trigger] s[k]),
    ensures
        decimal_value(s) >= 0,
    decreases s.len(),
{
    if s.len() > 0 {
        assert forall|k: int| 0 <= k < s.drop_last().len() implies is_digit(#[trigger] s.drop_last()[k]) by {
            assert(s.drop_last()[k] == s[k]);
        }
        lemma_decimal_nonnegative(s.drop_last());
    }
}

/// Parses a decimal `i32` as `str::parse::<i32>` does.
pub fn parse_i32(text: &str) -> (r: Option<i32>)
    ensures
        r == parsed_i32(text@),
{
    let v = chars_of(text);
    let n = v.len();
    let negative = n > 0 && v[0] == '-';
    let start: usize = if n > 0 && (v[0] == '-' || v[0] == '+') {
        1
    } else {
        0
    };
    let ghost digits = v@.skip(start as int);
    if start == n {
        return None;
    }
    // magnitude of the digits read so far; reading stops once it exceeds 2^31
    let limit: u64 = 2147483648;
    let mut acc: u64 = 0;
    let mut i = start;
    while i < n
        invariant
            start <= i <= n == v@.len(),
            v@ == text@,
            digits == v@.skip(start as int),
            start == sign_len(v@),
            acc as int == decimal_value(digits.take(i - start)),
            limit == 2147483648,
            acc <= limit,
            forall|k: int| 0 <= k < i - start ==> is_digit(#[trigger] digits[k]),
        decreases n - i,
    {
        let c = v[i];
        if !('0' <= c && c <= '9') {
            proof {
                assert(digits[i - start] == v@[i as int]);
                assert(!is_digit(digits[i - start]));
            }
            return None;
        }
        let d = (c as u32 - '0' as u32) as u64;
        proof {
            assert(digits.take(i + 1 - start).drop_last() =~= digits.take(i - start));
            assert(digits[i - start] == c);
        }
        let next = acc * 10 + d;
        if next > limit {
            proof {
                assert(decimal_value(digits.take(i + 1 - start)) == next);
                if all_digits(digits) {
                    lemma_decimal_prefix(digits, i + 1 - start, digits.len() as int);
                    assert(digits.take(digits.len() as int) =~= digits);
                }
            }
            return None;
        }
        acc = next;
        i = i + 1;
    }
    proof {
        assert(digits.take(n - start) =~= digits);
    }
    if negative {
        Some((0 - acc as i64) as i32)
    } else if acc == limit {
        None
    } else {
        Some(acc as i32)
    }
}

} // verus!
