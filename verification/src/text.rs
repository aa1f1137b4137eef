//! Character-level string helpers used by the parsers and builders.
//!
//! Every helper works on the `Seq<char>` view of a string; the spec
//! functions below say what each exec function computes.

use vstd::prelude::*;
use vstd::string::*;

verus! {

// ---------------------------------------------------------------------------
// Specifications
// ---------------------------------------------------------------------------

/// The Unicode `White_Space` property (PropList.txt): tab to carriage
/// return, space, next line, no-break space, ogham space mark, the spaces
/// from en quad to hair space, line and paragraph separators, narrow
/// no-break space, medium mathematical space and ideographic space.
pub open spec fn is_white_space(c: char) -> bool {
    let n = c as u32;
    ||| 0x09 <= n <= 0x0D
    ||| n == 0x20
    ||| n == 0x85
    ||| n == 0xA0
    ||| n == 0x1680
    ||| 0x2000 <= n <= 0x200A
    ||| n == 0x2028
    ||| n == 0x2029
    ||| n == 0x202F
    ||| n == 0x205F
    ||| n == 0x3000
}

/// Every character of `s` is ASCII.
pub open spec fn all_ascii(s: Seq<char>) -> bool {
    forall|i: int| 0 <= i < s.len() ==> (#[trigger] s[i] as u32) < 128
}

/// ASCII lower-casing of a whole string.
pub open spec fn ascii_lowered(s: Seq<char>) -> Seq<char> {
    s.map_values(|c: char| (ascii_lower_code(c) as char))
}

/// `str::to_lowercase` of a text: the ASCII lower-casing on ASCII text, the
/// Unicode lower-case mapping (named `lowercase`) otherwise.
pub open spec fn lowered(s: Seq<char>) -> Seq<char> {
    if all_ascii(s) {
        ascii_lowered(s)
    } else {
        lowercase(s)
    }
}

/// Unicode lower-case mapping of a whole string, as `str::to_lowercase`
/// computes it.
pub uninterp spec fn lowercase(s: Seq<char>) -> Seq<char>;

/// `s` without its longest prefix of characters satisfying `p`.
pub open spec fn drop_leading(s: Seq<char>, p: spec_fn(char) -> bool) -> Seq<char>
    decreases s.len(),
{
    if s.len() > 0 && p(s[0]) {
        drop_leading(s.drop_first(), p)
    } else {
        s
    }
}

/// `s` without its longest suffix of characters satisfying `p`.
pub open spec fn drop_trailing(s: Seq<char>, p: spec_fn(char) -> bool) -> Seq<char>
    decreases s.len(),
{
    if s.len() > 0 && p(s.last()) {
        drop_trailing(s.drop_last(), p)
    } else {
        s
    }
}

/// The predicate "is the character `c`".
pub open spec fn is_char(c: char) -> spec_fn(char) -> bool {
    |x: char| x == c
}

/// The predicate "is white space".
pub open spec fn white() -> spec_fn(char) -> bool {
    |x: char| is_white_space(x)
}

/// `str::trim`: white space removed at both ends.
pub open spec fn trimmed(s: Seq<char>) -> Seq<char> {
    drop_trailing(drop_leading(s, white()), white())
}

/// Every character of `s` is white space.
pub open spec fn all_white(s: Seq<char>) -> bool {
    forall|i: int| 0 <= i < s.len() ==> is_white_space(#[trigger] s[i])
}

/// `str::split(sep)`: the pieces between occurrences of `sep`, empty
/// pieces included (so there is always at least one piece).
pub open spec fn split_on(s: Seq<char>, sep: char) -> Seq<Seq<char>>
    decreases s.len(),
{
    if s.len() == 0 {
        seq![Seq::<char>::empty()]
    } else {
        let prev = split_on(s.drop_last(), sep);
        if s.last() == sep {
            prev.push(Seq::<char>::empty())
        } else {
            prev.update(prev.len() - 1, prev.last().push(s.last()))
        }
    }
}

/// `str::split_whitespace`: the maximal runs of non-white characters.
pub open spec fn words(s: Seq<char>) -> Seq<Seq<char>>
    decreases s.len(),
{
    if s.len() == 0 {
        Seq::<Seq<char>>::empty()
    } else {
        let prev = words(s.drop_last());
        let c = s.last();
        if is_white_space(c) {
            prev
        } else if s.len() >= 2 && !is_white_space(s[s.len() - 2]) {
            prev.update(prev.len() - 1, prev.last().push(c))
        } else {
            prev.push(seq![c])
        }
    }
}

/// `s` starts with `p`.
pub open spec fn has_prefix(s: Seq<char>, p: Seq<char>) -> bool {
    p.len() <= s.len() && s.take(p.len() as int) == p
}

/// ASCII lower-casing of one character, as a code point.
pub open spec fn ascii_lower_code(c: char) -> u32 {
    let n = c as u32;
    if 65 <= n && n <= 90 {
        (n + 32) as u32
    } else {
        n
    }
}

/// `str::eq_ignore_ascii_case`.
pub open spec fn same_ignoring_ascii_case(a: Seq<char>, b: Seq<char>) -> bool {
    &&& a.len() == b.len()
    &&& forall|i: int| 0 <= i < a.len() ==> ascii_lower_code(#[trigger] a[i]) == ascii_lower_code(b[i])
}

/// The ASCII digit for `d` (`0 <= d < 10`).
pub open spec fn digit_char(d: int) -> char {
    (d + 48) as char
}

/// Decimal notation of a natural number, without leading zeros.
pub open spec fn decimal(n: nat) -> Seq<char>
    decreases n,
{
    if n < 10 {
        seq![digit_char(n as int)]
    } else {
        decimal(n / 10).push(digit_char((n % 10) as int))
    }
}

/// Decimal notation of an integer, with a leading `-` when negative.
pub open spec fn signed_decimal(n: int) -> Seq<char> {
    if n < 0 {
        seq!['-'] + decimal((-n) as nat)
    } else {
        decimal(n as nat)
    }
}

pub open spec fn is_digit(c: char) -> bool {
    '0' <= c && c <= '9'
}

pub open spec fn all_digits(d: Seq<char>) -> bool {
    forall|i: int| 0 <= i < d.len() ==> is_digit(#[trigger] d[i])
}

/// The value of a string of decimal digits.
pub open spec fn digits_value(d: Seq<char>) -> int
    decreases d.len(),
{
    if d.len() == 0 {
        0
    } else {
        digits_value(d.drop_last()) * 10 + (d.last() as int - 48)
    }
}

/// The integer that Rust's `FromStr` for integer types reads from `s`,
/// before the range check: an optional `+` (or `-` for signed types)
/// followed by at least one ASCII digit.
pub open spec fn int_literal(s: Seq<char>, signed: bool) -> Option<int> {
    if s.len() == 0 {
        None
    } else {
        let neg = signed && s[0] == '-';
        let d = if s[0] == '+' || neg {
            s.drop_first()
        } else {
            s
        };
        if d.len() > 0 && all_digits(d) {
            Some(
                if neg {
                    -digits_value(d)
                } else {
                    digits_value(d)
                },
            )
        } else {
            None
        }
    }
}

/// `int_literal`, kept only when it lies in `lo..=hi`.
pub open spec fn int_literal_in(s: Seq<char>, signed: bool, lo: int, hi: int) -> Option<int> {
    match int_literal(s, signed) {
        Some(v) => if lo <= v && v <= hi {
            Some(v)
        } else {
            None
        },
        None => None,
    }
}

/// The views of a vector of strings.
pub open spec fn views(v: Seq<String>) -> Seq<Seq<char>> {
    v.map_values(|x: String| x@)
}

/// The pieces joined with `sep` between them.
pub open spec fn joined(pieces: Seq<Seq<char>>, sep: Seq<char>) -> Seq<char>
    decreases pieces.len(),
{
    if pieces.len() == 0 {
        Seq::<char>::empty()
    } else if pieces.len() == 1 {
        pieces[0]
    } else {
        joined(pieces.drop_last(), sep) + sep + pieces.last()
    }
}

// ---------------------------------------------------------------------------
// Lemmas
// ---------------------------------------------------------------------------

pub proof fn lemma_drop_leading_skip(s: Seq<char>, p: spec_fn(char) -> bool, k: int)
    requires
        0 <= k <= s.len(),
        forall|i: int| 0 <= i < k ==> p(#[trigger] s[i]),
    ensures
        drop_leading(s, p) == drop_leading(s.subrange(k, s.len() as int), p),
    decreases k,
{
    if k == 0 {
        assert(s.subrange(0, s.len() as int) =~= s);
    } else {
        assert(p(s[0]));
        let t = s.drop_first();
        assert forall|i: int| 0 <= i < k - 1 implies p(#[trigger] t[i]) by {
            assert(t[i] == s[i + 1]);
        }
        lemma_drop_leading_skip(t, p, k - 1);
        assert(t.subrange(k - 1, t.len() as int) =~= s.subrange(k, s.len() as int));
    }
}

pub proof fn lemma_drop_trailing_skip(s: Seq<char>, p: spec_fn(char) -> bool, k: int)
    requires
        0 <= k <= s.len(),
        forall|i: int| k <= i < s.len() ==> p(#[trigger] s[i]),
    ensures
        drop_trailing(s, p) == drop_trailing(s.subrange(0, k), p),
    decreases s.len() - k,
{
    if k == s.len() {
        assert(s.subrange(0, k) =~= s);
    } else {
        assert(p(s.last()));
        let t = s.drop_last();
        assert forall|i: int| k <= i < t.len() implies p(#[trigger] t[i]) by {
            assert(t[i] == s[i]);
        }
        lemma_drop_trailing_skip(t, p, k);
        assert(t.subrange(0, k) =~= s.subrange(0, k));
    }
}

pub proof fn lemma_drop_trailing_all(s: Seq<char>, p: spec_fn(char) -> bool)
    requires
        forall|i: int| 0 <= i < s.len() ==> p(#[trigger] s[i]),
    ensures
        drop_trailing(s, p) == Seq::<char>::empty(),
    decreases s.len(),
{
    if s.len() > 0 {
        let t = s.drop_last();
        assert(p(s[s.len() - 1]));
        assert forall|i: int| 0 <= i < t.len() implies p(#[trigger] t[i]) by {
            assert(t[i] == s[i]);
        }
        lemma_drop_trailing_all(t, p);
    } else {
        assert(s =~= Seq::<char>::empty());
    }
}

pub proof fn lemma_digits_value_nonneg(d: Seq<char>)
    requires
        all_digits(d),
    ensures
        digits_value(d) >= 0,
    decreases d.len(),
{
    if d.len() > 0 {
        let t = d.drop_last();
        assert(is_digit(d[d.len() - 1]));
        assert forall|i: int| 0 <= i < t.len() implies is_digit(#[trigger] t[i]) by {
            assert(t[i] == d[i]);
        }
        lemma_digits_value_nonneg(t);
    }
}

/// The value of a digit string is at least the value of any of its prefixes.
pub proof fn lemma_digits_value_prefix(d: Seq<char>, k: int)
    requires
        all_digits(d),
        0 <= k <= d.len(),
    ensures
        digits_value(d) >= digits_value(d.take(k)),
    decreases d.len() - k,
{
    if k == d.len() {
        assert(d.take(k) =~= d);
    } else {
        let t = d.drop_last();
        assert forall|i: int| 0 <= i < t.len() implies is_digit(#[trigger] t[i]) by {
            assert(t[i] == d[i]);
        }
        assert(is_digit(d[d.len() - 1]));
        lemma_digits_value_prefix(t, k);
        assert(t.take(k) =~= d.take(k));
        lemma_digits_value_nonneg(t);
    }
}

// ---------------------------------------------------------------------------
// Trusted std calls
// ---------------------------------------------------------------------------

/// `String::push`: the string afterwards is the old one followed by `c`.
#[verifier::external_body]
pub(crate) fn push_char(s: &mut String, c: char)
    ensures
        final(s)@ == old(s)@.push(c),
{
    s.push(c);
}

/// Whether `c` has the Unicode `White_Space` property, as
/// `char::is_whitespace` decides it.
pub fn char_is_whitespace(c: char) -> (r: bool)
    ensures
        r == is_white_space(c),
{
    let n = c as u32;
    (0x09 <= n && n <= 0x0D) || n == 0x20 || n == 0x85 || n == 0xA0 || n == 0x1680 || (0x2000 <= n
        && n <= 0x200A) || n == 0x2028 || n == 0x2029 || n == 0x202F || n == 0x205F || n == 0x3000
}

/// `str::to_lowercase`: the Unicode lower-case mapping of `s`. On ASCII
/// text that is the ASCII lower-casing (`A`-`Z` to `a`-`z`, every other
/// character kept), as std documents for `to_lowercase` and
/// `to_ascii_lowercase`; on other text the mapping is named `lowercase` and
/// not written out here.
#[verifier::external_body]
pub(crate) fn to_lowercase(s: &str) -> (r: String)
    ensures
        r@ == lowered(s@),
        !all_ascii(s@) ==> r@ == lowercase(s@),
{
    s.to_lowercase()
}

// ---------------------------------------------------------------------------
// Exec helpers
// ---------------------------------------------------------------------------

/// The characters of `s`, as a vector.
pub fn chars_of(s: &str) -> (v: Vec<char>)
    ensures
        v@ == s@,
{
    let mut v: Vec<char> = Vec::new();
    for c in it: s.chars()
        invariant
            v@ == it.seq().take(it.index() as int),
            it.seq() == s@,
    {
        v.push(c);
    }
    assert(s@.take(s@.len() as int) =~= s@);
    v
}

/// A string holding exactly the characters of `v`.
pub fn string_of_chars(v: &Vec<char>) -> (s: String)
    ensures
        s@ == v@,
{
    let mut s = String::new();
    let n = v.len();
    for i in 0..n
        invariant
            n == v.len(),
            s@ == v@.take(i as int),
    {
        push_char(&mut s, v[i]);
        assert(v@.take(i + 1) =~= v@.take(i as int).push(v@[i as int]));
    }
    assert(v@.take(n as int) =~= v@);
    s
}

/// Two strings have the same characters.
pub fn str_eq(a: &str, b: &str) -> (r: bool)
    ensures
        r == (a@ == b@),
{
    a.to_owned() == b.to_owned()
}

/// `str::starts_with` for a string prefix.
pub fn starts_with(s: &str, p: &str) -> (r: bool)
    ensures
        r == has_prefix(s@, p@),
{
    let n = s.unicode_len();
    let m = p.unicode_len();
    if m > n {
        false
    } else {
        str_eq(s.substring_char(0, m), p)
    }
}

/// `str::strip_prefix` for a string prefix.
pub fn strip_prefix<'a>(s: &'a str, p: &str) -> (r: Option<&'a str>)
    ensures
        r is Some <==> has_prefix(s@, p@),
        r matches Some(rest) ==> s@ == p@ + rest@,
{
    if starts_with(s, p) {
        let rest = s.substring_char(p.unicode_len(), s.unicode_len());
        assert(s@ =~= s@.take(p@.len() as int) + rest@);
        Some(rest)
    } else {
        None
    }
}

/// `str::trim_start_matches(c)` for one character.
pub fn trim_start_char(s: &str, c: char) -> (r: &str)
    ensures
        r@ == drop_leading(s@, is_char(c)),
{
    let v = chars_of(s);
    let n = v.len();
    let mut k: usize = 0;
    while k < n && v[k] == c
        invariant
            k <= n,
            n == v@.len(),
            v@ == s@,
            forall|i: int| 0 <= i < k ==> s@[i] == c,
        decreases n - k,
    {
        k = k + 1;
    }
    let r = s.substring_char(k, n);
    proof {
        let p = is_char(c);
        assert forall|i: int| 0 <= i < k implies p(#[trigger] s@[i]) by {}
        lemma_drop_leading_skip(s@, p, k as int);
        let t = s@.subrange(k as int, n as int);
        if t.len() > 0 {
            assert(t[0] == s@[k as int]);
        }
    }
    r
}

/// `str::trim_end_matches(c)` for one character.
pub fn trim_end_char(s: &str, c: char) -> (r: &str)
    ensures
        r@ == drop_trailing(s@, is_char(c)),
{
    let v = chars_of(s);
    let n = v.len();
    let mut k: usize = n;
    while k > 0 && v[k - 1] == c
        invariant
            k <= n,
            n == v@.len(),
            v@ == s@,
            forall|i: int| k <= i < n ==> s@[i] == c,
        decreases k,
    {
        k = k - 1;
    }
    let r = s.substring_char(0, k);
    proof {
        let p = is_char(c);
        assert forall|i: int| k <= i < s@.len() implies p(#[trigger] s@[i]) by {}
        lemma_drop_trailing_skip(s@, p, k as int);
        let t = s@.subrange(0, k as int);
        if t.len() > 0 {
            assert(t.last() == s@[k - 1]);
        }
    }
    r
}

/// `str::trim`: white space removed at both ends.
pub fn trim(s: &str) -> (r: &str)
    ensures
        r@ == trimmed(s@),
        r@.len() == 0 <==> all_white(s@),
{
    let v = chars_of(s);
    let n = v.len();
    let mut k: usize = 0;
    while k < n && char_is_whitespace(v[k])
        invariant
            k <= n,
            n == v@.len(),
            v@ == s@,
            forall|i: int| 0 <= i < k ==> is_white_space(#[trigger] s@[i]),
        decreases n - k,
    {
        k = k + 1;
    }
    let mut e: usize = n;
    while e > k && char_is_whitespace(v[e - 1])
        invariant
            k <= e <= n,
            n == v@.len(),
            v@ == s@,
            forall|i: int| e <= i < n ==> is_white_space(#[trigger] s@[i]),
        decreases e,
    {
        e = e - 1;
    }
    let r = s.substring_char(k, e);
    proof {
        let p = white();
        assert forall|i: int| 0 <= i < k implies p(#[trigger] s@[i]) by {}
        lemma_drop_leading_skip(s@, p, k as int);
        let t = s@.subrange(k as int, n as int);
        if t.len() > 0 && k < e {
            assert(t[0] == s@[k as int]);
        }
        if k == e {
            if k < n {
                assert(t[0] == s@[k as int]);
            }
            assert(drop_leading(t, p) == t);
            assert forall|i: int| 0 <= i < t.len() implies p(#[trigger] t[i]) by {
                assert(t[i] == s@[k + i]);
            }
            lemma_drop_trailing_all(t, p);
            assert(r@ =~= Seq::<char>::empty());
            assert forall|i: int| 0 <= i < s@.len() implies is_white_space(#[trigger] s@[i]) by {
                if i >= k {
                    assert(is_white_space(s@[i]));
                }
            }
        } else {
            assert(!is_white_space(s@[k as int]));
            assert(drop_leading(t, p) == t);
            assert forall|i: int| e - k <= i < t.len() implies p(#[trigger] t[i]) by {
                assert(t[i] == s@[k + i]);
            }
            lemma_drop_trailing_skip(t, p, e - k);
            let u = t.subrange(0, e - k);
            assert(u =~= s@.subrange(k as int, e as int));
            assert(u.last() == s@[e - 1]);
        }
    }
    r
}

/// Every character of `s` is white space (`s.trim().is_empty()`).
pub fn is_blank(s: &str) -> (r: bool)
    ensures
        r == all_white(s@),
        r == (trimmed(s@).len() == 0),
{
    trim(s).is_empty()
}

/// ASCII lower-casing of one character's code point.
pub fn ascii_lower(c: char) -> (r: u32)
    ensures
        r == ascii_lower_code(c),
{
    let n = c as u32;
    if 65 <= n && n <= 90 {
        n + 32
    } else {
        n
    }
}

/// `str::eq_ignore_ascii_case`.
pub fn eq_ignore_ascii_case(a: &str, b: &str) -> (r: bool)
    ensures
        r == same_ignoring_ascii_case(a@, b@),
{
    let va = chars_of(a);
    let vb = chars_of(b);
    if va.len() != vb.len() {
        return false;
    }
    let n = va.len();
    for i in 0..n
        invariant
            n == va@.len(),
            n == vb@.len(),
            va@ == a@,
            vb@ == b@,
            forall|j: int| 0 <= j < i ==> ascii_lower_code(#[trigger] a@[j]) == ascii_lower_code(b@[j]),
    {
        if ascii_lower(va[i]) != ascii_lower(vb[i]) {
            return false;
        }
    }
    true
}


/// `str::split(sep)` for one separator character.
pub fn split_char(s: &str, sep: char) -> (r: Vec<String>)
    ensures
        views(r@) == split_on(s@, sep),
{
    let v = chars_of(s);
    let n = v.len();
    let mut pieces: Vec<String> = Vec::new();
    let mut cur = String::new();
    for i in 0..n
        invariant
            n == v@.len(),
            v@ == s@,
            views(pieces@).push(cur@) == split_on(s@.take(i as int), sep),
    {
        let c = v[i];
        proof {
            assert(s@.take(i + 1).drop_last() =~= s@.take(i as int));
            assert(s@.take(i + 1).last() == c);
        }
        if c == sep {
            let done = cur;
            pieces.push(done);
            cur = String::new();
            proof {
                assert(views(pieces@) =~= views(pieces@.drop_last()).push(done@));
            }
        } else {
            let ghost before = views(pieces@).push(cur@);
            push_char(&mut cur, c);
            proof {
                assert(views(pieces@).push(cur@) =~= before.update(before.len() - 1, before.last().push(c)));
            }
        }
    }
    let last = cur;
    pieces.push(last);
    proof {
        assert(views(pieces@) =~= views(pieces@.drop_last()).push(last@));
        assert(s@.take(n as int) =~= s@);
    }
    pieces
}

/// `str::split_whitespace`.
pub fn split_whitespace(s: &str) -> (r: Vec<String>)
    ensures
        views(r@) == words(s@),
{
    let v = chars_of(s);
    let n = v.len();
    let mut pieces: Vec<String> = Vec::new();
    let mut cur = String::new();
    let mut in_word = false;
    for i in 0..n
        invariant
            n == v@.len(),
            v@ == s@,
            in_word == (i > 0 && !is_white_space(s@[i - 1])),
            in_word ==> views(pieces@).push(cur@) == words(s@.take(i as int)),
            !in_word ==> views(pieces@) == words(s@.take(i as int)),
    {
        let c = v[i];
        proof {
            assert(s@.take(i + 1).drop_last() =~= s@.take(i as int));
            assert(s@.take(i + 1).last() == c);
            if i >= 1 {
                assert(s@.take(i + 1)[i - 1] == s@[i - 1]);
            }
        }
        if char_is_whitespace(c) {
            if in_word {
                let done = cur;
                pieces.push(done);
                cur = String::new();
                proof {
                    assert(views(pieces@) =~= views(pieces@.drop_last()).push(done@));
                }
            }
            in_word = false;
        } else {
            if in_word {
                let ghost before = views(pieces@).push(cur@);
                push_char(&mut cur, c);
                proof {
                    assert(views(pieces@).push(cur@) =~= before.update(before.len() - 1, before.last().push(c)));
                }
            } else {
                cur = String::new();
                push_char(&mut cur, c);
                proof {
                    assert(cur@ =~= seq![c]);
                }
            }
            in_word = true;
        }
    }
    if in_word {
        let last = cur;
        pieces.push(last);
        proof {
            assert(views(pieces@) =~= views(pieces@.drop_last()).push(last@));
        }
    }
    proof {
        assert(s@.take(n as int) =~= s@);
    }
    pieces
}

/// The ASCII digit for `d`.
pub fn digit_to_char(d: u64) -> (c: char)
    requires
        d < 10,
    ensures
        c == digit_char(d as int),
{
    match d {
        0 => '0',
        1 => '1',
        2 => '2',
        3 => '3',
        4 => '4',
        5 => '5',
        6 => '6',
        7 => '7',
        8 => '8',
        _ => '9',
    }
}

/// Appends the decimal notation of `n`.
pub fn push_decimal(out: &mut String, n: u64)
    ensures
        final(out)@ == old(out)@ + decimal(n as nat),
    decreases n,
{
    if n >= 10 {
        push_decimal(out, n / 10);
    }
    push_char(out, digit_to_char(n % 10));
    proof {
        if n < 10 {
            assert(old(out)@ + decimal(n as nat) =~= old(out)@.push(digit_char(n as int)));
        } else {
            assert((old(out)@ + decimal((n / 10) as nat)).push(digit_char((n % 10) as int)) =~= old(out)@ + decimal(n as nat));
        }
    }
}

/// Appends the decimal notation of a signed integer.
pub fn push_signed_decimal(out: &mut String, n: i64)
    ensures
        final(out)@ == old(out)@ + signed_decimal(n as int),
{
    if n < 0 {
        push_char(out, '-');
        let m: u64 = if n == i64::MIN { 9223372036854775808u64 } else { (-n) as u64 };
        push_decimal(out, m);
        proof {
            assert(old(out)@.push('-') + decimal(m as nat) =~= old(out)@ + (seq!['-'] + decimal((-n) as nat)));
        }
    } else {
        push_decimal(out, n as u64);
    }
}

/// Decimal notation of an unsigned number (`to_string`).
pub fn u64_text(n: u64) -> (r: String)
    ensures
        r@ == decimal(n as nat),
{
    let mut s = String::new();
    push_decimal(&mut s, n);
    proof {
        assert(Seq::<char>::empty() + decimal(n as nat) =~= decimal(n as nat));
    }
    s
}

/// Decimal notation of a signed number (`to_string`).
pub fn i64_text(n: i64) -> (r: String)
    ensures
        r@ == signed_decimal(n as int),
{
    let mut s = String::new();
    push_signed_decimal(&mut s, n);
    proof {
        assert(Seq::<char>::empty() + signed_decimal(n as int) =~= signed_decimal(n as int));
    }
    s
}

/// The sign and the digit part that `int_literal` reads from `s`.
pub open spec fn literal_parts(s: Seq<char>, signed: bool) -> (bool, Seq<char>) {
    let neg = signed && s[0] == '-';
    (neg, if s[0] == '+' || neg { s.drop_first() } else { s })
}

proof fn lemma_literal_bad_digit(s: Seq<char>, signed: bool, j: int, lo: int, hi: int)
    requires
        s.len() > 0,
        0 <= j < literal_parts(s, signed).1.len(),
        !is_digit(literal_parts(s, signed).1[j]),
    ensures
        int_literal_in(s, signed, lo, hi) is None,
{
}

proof fn lemma_literal_too_big(s: Seq<char>, signed: bool, k: int, lo: int, hi: int)
    requires
        s.len() > 0,
        lo <= 0 <= hi,
        0 <= k <= literal_parts(s, signed).1.len(),
        all_digits(literal_parts(s, signed).1.take(k)),
        digits_value(literal_parts(s, signed).1.take(k)) > (if literal_parts(s, signed).0 {
            -lo
        } else {
            hi
        }),
    ensures
        int_literal_in(s, signed, lo, hi) is None,
{
    let d = literal_parts(s, signed).1;
    if all_digits(d) {
        lemma_digits_value_prefix(d, k);
    }
}

proof fn lemma_digits_step(d: Seq<char>, k: int)
    requires
        0 <= k < d.len(),
        all_digits(d.take(k)),
        is_digit(d[k]),
    ensures
        all_digits(d.take(k + 1)),
        digits_value(d.take(k + 1)) == digits_value(d.take(k)) * 10 + (d[k] as int - 48),
{
    let t = d.take(k + 1);
    assert(t.drop_last() =~= d.take(k));
    assert forall|j: int| 0 <= j < t.len() implies is_digit(#[trigger] t[j]) by {
        if j < k {
            assert(t[j] == d.take(k)[j]);
        }
    }
}

/// Reads an integer the way Rust's `FromStr` does, and keeps it only when
/// it lies in `lo..=hi`.
pub fn parse_int_in(s: &str, signed: bool, lo: i128, hi: i128) -> (r: Option<i128>)
    requires
        -18446744073709551616 <= lo <= 0 <= hi <= 18446744073709551616,
    ensures
        r matches Some(v) ==> int_literal_in(s@, signed, lo as int, hi as int) == Some(v as int),
        r is None ==> int_literal_in(s@, signed, lo as int, hi as int) is None,
{
    let v = chars_of(s);
    let n = v.len();
    if n == 0 {
        return None;
    }
    let neg = signed && v[0] == '-';
    let start: usize = if v[0] == '+' || neg { 1 } else { 0 };
    let ghost d = literal_parts(s@, signed).1;
    proof {
        assert(d =~= s@.subrange(start as int, n as int));
    }
    if start == n {
        return None;
    }
    let bound: i128 = if neg { -lo } else { hi };
    let mut acc: i128 = 0;
    let mut i: usize = start;
    while i < n
        invariant
            start <= i <= n,
            n == v@.len(),
            v@ == s@,
            s@.len() > 0,
            d == literal_parts(s@, signed).1,
            neg == literal_parts(s@, signed).0,
            start + d.len() == n,
            forall|j: int| 0 <= j < d.len() ==> d[j] == s@[start + j],
            bound == (if neg { -lo } else { hi as int }),
            -18446744073709551616 <= lo <= 0 <= hi <= 18446744073709551616,
            0 <= acc <= bound,
            all_digits(d.take(i - start)),
            acc == digits_value(d.take(i - start)),
        decreases n - i,
    {
        let c = v[i];
        if !('0' <= c && c <= '9') {
            proof {
                lemma_literal_bad_digit(s@, signed, i - start, lo as int, hi as int);
            }
            return None;
        }
        proof {
            lemma_digits_step(d, i - start);
        }
        let dv: i128 = (c as u32 as i128) - 48;
        acc = acc * 10 + dv;
        if acc > bound {
            proof {
                lemma_literal_too_big(s@, signed, i + 1 - start, lo as int, hi as int);
            }
            return None;
        }
        i = i + 1;
    }
    proof {
        assert(d.take(n - start) =~= d);
    }
    if neg {
        Some(-acc)
    } else {
        Some(acc)
    }
}

/// `str::parse::<i64>().ok()`.
pub fn parse_i64(s: &str) -> (r: Option<i64>)
    ensures
        r matches Some(v) ==> int_literal_in(s@, true, i64::MIN as int, i64::MAX as int) == Some(v as int),
        r is None ==> int_literal_in(s@, true, i64::MIN as int, i64::MAX as int) is None,
{
    match parse_int_in(s, true, i64::MIN as i128, i64::MAX as i128) {
        Some(v) => Some(v as i64),
        None => None,
    }
}

/// `str::parse::<i32>().ok()`.
pub fn parse_i32(s: &str) -> (r: Option<i32>)
    ensures
        r matches Some(v) ==> int_literal_in(s@, true, i32::MIN as int, i32::MAX as int) == Some(v as int),
        r is None ==> int_literal_in(s@, true, i32::MIN as int, i32::MAX as int) is None,
{
    match parse_int_in(s, true, i32::MIN as i128, i32::MAX as i128) {
        Some(v) => Some(v as i32),
        None => None,
    }
}

/// `str::parse::<u64>().ok()`.
pub fn parse_u64(s: &str) -> (r: Option<u64>)
    ensures
        r matches Some(v) ==> int_literal_in(s@, false, 0, u64::MAX as int) == Some(v as int),
        r is None ==> int_literal_in(s@, false, 0, u64::MAX as int) is None,
{
    match parse_int_in(s, false, 0, u64::MAX as i128) {
        Some(v) => Some(v as u64),
        None => None,
    }
}

/// `str::parse::<usize>().ok()`.
pub fn parse_usize(s: &str) -> (r: Option<usize>)
    ensures
        r matches Some(v) ==> int_literal_in(s@, false, 0, usize::MAX as int) == Some(v as int),
        r is None ==> int_literal_in(s@, false, 0, usize::MAX as int) is None,
{
    match parse_int_in(s, false, 0, usize::MAX as i128) {
        Some(v) => Some(v as usize),
        None => None,
    }
}

} // verus!
