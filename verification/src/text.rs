//! Text primitives over `Seq<char>`: whitespace, trimming, splitting, searching
//! and decimal parsing, each stated against a spec function of `Seq<char>`.

use vstd::prelude::*;

verus! {

broadcast use vstd::string::group_string_axioms;

/// Unicode `White_Space`, the property that `char::is_whitespace` tests.
pub open spec fn is_ws(c: char) -> bool {
    let u = c as u32;
    ||| (9 <= u && u <= 13)
    ||| u == 32
    ||| u == 0x85
    ||| u == 0xa0
    ||| u == 0x1680
    ||| (0x2000 <= u && u <= 0x200a)
    ||| u == 0x2028
    ||| u == 0x2029
    ||| u == 0x202f
    ||| u == 0x205f
    ||| u == 0x3000
}

/// Whether `c` is a Unicode whitespace character.
pub fn is_whitespace(c: char) -> (b: bool)
    ensures
        b == is_ws(c),
{
    let u = c as u32;
    (9 <= u && u <= 13) || u == 32 || u == 0x85 || u == 0xa0 || u == 0x1680 || (0x2000 <= u && u
        <= 0x200a) || u == 0x2028 || u == 0x2029 || u == 0x202f || u == 0x205f || u == 0x3000
}

/// A set of characters that trimming removes.
#[derive(Clone, Copy, Debug, PartialEq, Eq)]
pub enum CharClass {
    /// Unicode whitespace.
    Whitespace,
    /// Exactly this character.
    Only(char),
}

pub open spec fn in_class(cl: CharClass, c: char) -> bool {
    match cl {
        CharClass::Whitespace => is_ws(c),
        CharClass::Only(x) => c == x,
    }
}

/// Whether `c` belongs to `cl`.
pub fn class_contains(cl: CharClass, c: char) -> (b: bool)
    ensures
        b == in_class(cl, c),
{
    match cl {
        CharClass::Whitespace => is_whitespace(c),
        CharClass::Only(x) => c == x,
    }
}

/// `s` without its leading characters of class `cl`.
pub open spec fn trim_start(s: Seq<char>, cl: CharClass) -> Seq<char>
    decreases s.len(),
{
    if s.len() > 0 && in_class(cl, s[0]) {
        trim_start(s.drop_first(), cl)
    } else {
        s
    }
}

/// `s` without its trailing characters of class `cl`.
pub open spec fn trim_end(s: Seq<char>, cl: CharClass) -> Seq<char>
    decreases s.len(),
{
    if s.len() > 0 && in_class(cl, s.last()) {
        trim_end(s.drop_last(), cl)
    } else {
        s
    }
}

/// `s` without leading and trailing characters of class `cl` (`str::trim`, `str::trim_matches`).
pub open spec fn trim(s: Seq<char>, cl: CharClass) -> Seq<char> {
    trim_end(trim_start(s, cl), cl)
}

/// `str::trim`: whitespace removed at both ends.
pub open spec fn trim_ws(s: Seq<char>) -> Seq<char> {
    trim(s, CharClass::Whitespace)
}

/// The characters of `s`, in order.
pub fn chars_of(s: &str) -> (v: Vec<char>)
    ensures
        v@ == s@,
{
    let mut v: Vec<char> = Vec::new();
    for c in it: s.chars()
        invariant
            v@ == it.seq().take(it.index() as int),
    {
        v.push(c);
    }
    v
}

/// Bounds `(a, b)` with `cs[a..b]` equal to `cs[lo..hi]` trimmed of class `cl`.
pub fn trim_bounds(cs: &Vec<char>, lo: usize, hi: usize, cl: CharClass) -> (r: (usize, usize))
    requires
        lo <= hi <= cs@.len(),
    ensures
        lo <= r.0 <= r.1 <= hi,
        cs@.subrange(r.0 as int, r.1 as int) == trim(cs@.subrange(lo as int, hi as int), cl),
{
    let mut a = lo;
    while a < hi && class_contains(cl, cs[a])
        invariant
            lo <= a <= hi <= cs@.len(),
            trim_start(cs@.subrange(lo as int, hi as int), cl) == trim_start(
                cs@.subrange(a as int, hi as int),
                cl,
            ),
        decreases hi - a,
    {
        assert(cs@.subrange(a as int, hi as int).drop_first() =~= cs@.subrange(
            a + 1,
            hi as int,
        ));
        a = a + 1;
    }
    let mut b = hi;
    while b > a && class_contains(cl, cs[b - 1])
        invariant
            lo <= a <= b <= hi <= cs@.len(),
            trim(cs@.subrange(lo as int, hi as int), cl) == trim_end(
                cs@.subrange(a as int, b as int),
                cl,
            ),
        decreases b - a,
    {
        assert(cs@.subrange(a as int, b as int).drop_last() =~= cs@.subrange(
            a as int,
            b - 1,
        ));
        b = b - 1;
    }
    (a, b)
}

/// `s` trimmed of class `cl` at both ends.
pub fn trim_class<'a>(s: &'a str, cl: CharClass) -> (r: &'a str)
    ensures
        r@ == trim(s@, cl),
{
    let cs = chars_of(s);
    let (a, b) = trim_bounds(&cs, 0, cs.len(), cl);
    assert(cs@.subrange(0, cs@.len() as int) =~= cs@);
    s.substring_char(a, b)
}

/// `str::trim`.
pub fn trim_str<'a>(s: &'a str) -> (r: &'a str)
    ensures
        r@ == trim_ws(s@),
{
    trim_class(s, CharClass::Whitespace)
}


/// The views of a sequence of string slices.
pub open spec fn views(v: Seq<&str>) -> Seq<Seq<char>> {
    v.map_values(|p: &str| p@)
}

/// `str::split(sep)` with a single-character separator, as a sequence of pieces.
pub open spec fn split(s: Seq<char>, sep: char) -> Seq<Seq<char>>
    decreases s.len(),
{
    if s.len() == 0 {
        seq![Seq::<char>::empty()]
    } else {
        let prev = split(s.drop_last(), sep);
        if s.last() == sep {
            prev.push(Seq::<char>::empty())
        } else {
            prev.update(prev.len() - 1, prev.last().push(s.last()))
        }
    }
}

/// `str::split(sep)`: the pieces of `s` between occurrences of `sep`.
pub fn split_char<'a>(s: &'a str, sep: char) -> (r: Vec<&'a str>)
    ensures
        views(r@) == split(s@, sep),
{
    let cs = chars_of(s);
    let mut pieces: Vec<&'a str> = Vec::new();
    let mut start: usize = 0;
    let mut i: usize = 0;
    assert(cs@.take(0) =~= Seq::<char>::empty());
    while i < cs.len()
        invariant
            cs@ == s@,
            start <= i <= cs@.len(),
            split(cs@.take(i as int), sep) == views(pieces@).push(
                cs@.subrange(start as int, i as int),
            ),
        decreases cs.len() - i,
    {
        assert(cs@.take(i + 1).drop_last() =~= cs@.take(i as int));
        if cs[i] == sep {
            let piece = s.substring_char(start, i);
            proof {
                assert(views(pieces@.push(piece)) =~= views(pieces@).push(piece@));
                assert(cs@.subrange(i + 1, i + 1) =~= Seq::<char>::empty());
            }
            pieces.push(piece);
            start = i + 1;
        } else {
            assert(cs@.subrange(start as int, i + 1) =~= cs@.subrange(start as int, i as int).push(
                cs@[i as int],
            ));
        }
        i = i + 1;
    }
    let last = s.substring_char(start, cs.len());
    proof {
        assert(cs@.take(cs@.len() as int) =~= cs@);
        assert(views(pieces@.push(last)) =~= views(pieces@).push(last@));
    }
    pieces.push(last);
    pieces
}

/// `str::split_whitespace`: the maximal runs of non-whitespace characters of `s`.
pub open spec fn words(s: Seq<char>) -> Seq<Seq<char>>
    decreases s.len(),
{
    if s.len() == 0 {
        Seq::<Seq<char>>::empty()
    } else {
        let prev = words(s.drop_last());
        let c = s.last();
        if is_ws(c) {
            prev
        } else if s.len() >= 2 && !is_ws(s[s.len() - 2]) {
            prev.update(prev.len() - 1, prev.last().push(c))
        } else {
            prev.push(seq![c])
        }
    }
}

/// `str::split_whitespace`.
pub fn split_ws<'a>(s: &'a str) -> (r: Vec<&'a str>)
    ensures
        views(r@) == words(s@),
{
    let cs = chars_of(s);
    let mut pieces: Vec<&'a str> = Vec::new();
    let mut start: usize = 0;
    let mut in_word = false;
    let mut i: usize = 0;
    assert(cs@.take(0) =~= Seq::<char>::empty());
    while i < cs.len()
        invariant
            cs@ == s@,
            start <= i <= cs@.len(),
            in_word ==> start < i && !is_ws(cs@[i - 1]),
            !in_word ==> (i > 0 ==> is_ws(cs@[i - 1])),
            in_word ==> words(cs@.take(i as int)) == views(pieces@).push(
                cs@.subrange(start as int, i as int),
            ),
            !in_word ==> words(cs@.take(i as int)) == views(pieces@),
        decreases cs.len() - i,
    {
        let c = cs[i];
        let ghost t = cs@.take(i + 1);
        assert(t.drop_last() =~= cs@.take(i as int));
        assert(t.last() == c);
        if is_whitespace(c) {
            if in_word {
                let piece = s.substring_char(start, i);
                assert(views(pieces@.push(piece)) =~= views(pieces@).push(piece@));
                pieces.push(piece);
                in_word = false;
            }
        } else {
            if in_word {
                assert(t[t.len() - 2] == cs@[i - 1]);
                assert(cs@.subrange(start as int, i + 1) =~= cs@.subrange(
                    start as int,
                    i as int,
                ).push(c));
            } else {
                assert(i > 0 ==> t[t.len() - 2] == cs@[i - 1]);
                assert(cs@.subrange(i as int, i + 1) =~= seq![c]);
                start = i;
                in_word = true;
            }
        }
        i = i + 1;
    }
    assert(cs@.take(cs@.len() as int) =~= cs@);
    if in_word {
        let piece = s.substring_char(start, cs.len());
        assert(views(pieces@.push(piece)) =~= views(pieces@).push(piece@));
        pieces.push(piece);
    }
    pieces
}


/// `pat` occurs in `s` at position `i`.
pub open spec fn occurs_at(s: Seq<char>, pat: Seq<char>, i: int) -> bool {
    0 <= i && i + pat.len() <= s.len() && s.subrange(i, i + pat.len()) == pat
}

/// The first position at or after `i` where `pat` occurs in `s`.
pub open spec fn find_from(s: Seq<char>, pat: Seq<char>, i: int) -> Option<int>
    decreases s.len() + 1 - i,
{
    if i < 0 || i + pat.len() > s.len() {
        None
    } else if occurs_at(s, pat, i) {
        Some(i)
    } else {
        find_from(s, pat, i + 1)
    }
}

/// `str::find` with a string pattern: the first position where `pat` occurs in `s`.
pub open spec fn find(s: Seq<char>, pat: Seq<char>) -> Option<int> {
    find_from(s, pat, 0)
}

/// `str::starts_with` with a string pattern.
pub open spec fn starts_with(s: Seq<char>, pat: Seq<char>) -> bool {
    occurs_at(s, pat, 0)
}

/// `str::ends_with` with a string pattern.
pub open spec fn ends_with(s: Seq<char>, pat: Seq<char>) -> bool {
    occurs_at(s, pat, s.len() - pat.len())
}

/// Whether `pat` occurs in `cs` at `i`.
fn occurs_at_exec(cs: &Vec<char>, pat: &Vec<char>, i: usize) -> (b: bool)
    ensures
        b == occurs_at(cs@, pat@, i as int),
{
    if pat.len() > cs.len() || i > cs.len() - pat.len() {
        return false;
    }
    let mut k: usize = 0;
    while k < pat.len()
        invariant
            i + pat.len() <= cs.len(),
            k <= pat.len(),
            forall|j: int| 0 <= j < k ==> cs@[i + j] == pat@[j],
        decreases pat.len() - k,
    {
        if cs[i + k] != pat[k] {
            assert(cs@.subrange(i as int, i + pat@.len())[k as int] != pat@[k as int]);
            return false;
        }
        k = k + 1;
    }
    assert(cs@.subrange(i as int, i + pat@.len()) =~= pat@);
    true
}

/// The first position in `cs` at or after `from` where `pat` occurs.
pub fn find_chars(cs: &Vec<char>, pat: &Vec<char>, from: usize) -> (r: Option<usize>)
    ensures
        match r {
            Some(i) => find_from(cs@, pat@, from as int) == Some(i as int),
            None => find_from(cs@, pat@, from as int) is None,
        },
{
    if pat.len() > cs.len() {
        return None;
    }
    let last = cs.len() - pat.len();
    if from > last {
        return None;
    }
    let mut i = from;
    loop
        invariant
            pat@.len() <= cs@.len(),
            last == cs@.len() - pat@.len(),
            from <= i <= last,
            find_from(cs@, pat@, from as int) == find_from(cs@, pat@, i as int),
        decreases last - i,
    {
        if occurs_at_exec(cs, pat, i) {
            return Some(i);
        }
        if i == last {
            assert(find_from(cs@, pat@, i + 1) is None);
            return None;
        }
        i = i + 1;
    }
}

/// `str::find` with a string pattern.
pub fn find_str(s: &str, pat: &str) -> (r: Option<usize>)
    ensures
        match r {
            Some(i) => find(s@, pat@) == Some(i as int),
            None => find(s@, pat@) is None,
        },
{
    let cs = chars_of(s);
    let ps = chars_of(pat);
    find_chars(&cs, &ps, 0)
}

/// `find_from` finds nothing exactly when `pat` occurs nowhere at or after `i`.
pub proof fn lemma_find_from_none(s: Seq<char>, pat: Seq<char>, i: int)
    requires
        0 <= i,
    ensures
        find_from(s, pat, i) is None <==> forall|j: int| i <= j ==> !occurs_at(s, pat, j),
        find_from(s, pat, i) matches Some(k) ==> i <= k && occurs_at(s, pat, k),
    decreases s.len() + 1 - i,
{
    if i + pat.len() > s.len() {
    } else if occurs_at(s, pat, i) {
    } else {
        lemma_find_from_none(s, pat, i + 1);
        assert forall|j: int| i <= j && !occurs_at(s, pat, i) && (forall|k: int|
            i + 1 <= k ==> !occurs_at(s, pat, k)) implies !occurs_at(s, pat, j) by {
            if j > i {
            }
        }
    }
}

/// `str::contains` with a string pattern.
pub open spec fn contains(s: Seq<char>, pat: Seq<char>) -> bool {
    find(s, pat) is Some
}

/// `str::contains` with a string pattern.
pub fn contains_str(s: &str, pat: &str) -> (b: bool)
    ensures
        b == contains(s@, pat@),
{
    find_str(s, pat).is_some()
}

/// `str::starts_with` with a string pattern.
pub fn starts_with_str(s: &str, pat: &str) -> (b: bool)
    ensures
        b == starts_with(s@, pat@),
{
    let cs = chars_of(s);
    let ps = chars_of(pat);
    occurs_at_exec(&cs, &ps, 0)
}

/// `str::strip_prefix` with a string pattern.
pub fn strip_prefix_str<'a>(s: &'a str, pat: &str) -> (r: Option<&'a str>)
    ensures
        match r {
            Some(rest) => starts_with(s@, pat@) && rest@ == s@.subrange(pat@.len() as int, s@.len() as int),
            None => !starts_with(s@, pat@),
        },
{
    let cs = chars_of(s);
    let ps = chars_of(pat);
    if occurs_at_exec(&cs, &ps, 0) {
        Some(s.substring_char(ps.len(), cs.len()))
    } else {
        None
    }
}

/// Equality of two strings by their characters.
pub fn str_eq(a: &str, b: &str) -> (r: bool)
    ensures
        r == (a@ == b@),
{
    let x = chars_of(a);
    let y = chars_of(b);
    if x.len() != y.len() {
        assert(x@.len() != y@.len());
        return false;
    }
    let mut i: usize = 0;
    while i < x.len()
        invariant
            x@ == a@,
            y@ == b@,
            x@.len() == y@.len(),
            i <= x@.len(),
            forall|j: int| 0 <= j < i ==> x@[j] == y@[j],
        decreases x.len() - i,
    {
        if x[i] != y[i] {
            assert(x@[i as int] != y@[i as int]);
            return false;
        }
        i = i + 1;
    }
    assert(x@ =~= y@);
    true
}

/// `str::trim_end_matches` with a string pattern: every trailing copy of `suffix` removed.
pub open spec fn trim_end_str(s: Seq<char>, suffix: Seq<char>) -> Seq<char>
    decreases s.len(),
{
    if suffix.len() > 0 && ends_with(s, suffix) {
        trim_end_str(s.subrange(0, s.len() - suffix.len()), suffix)
    } else {
        s
    }
}

/// `str::trim_end_matches` with a string pattern.
pub fn trim_end_matches_str<'a>(s: &'a str, suffix: &str) -> (r: &'a str)
    ensures
        r@ == trim_end_str(s@, suffix@),
{
    let cs = chars_of(s);
    let ps = chars_of(suffix);
    let mut end = cs.len();
    assert(cs@.subrange(0, cs@.len() as int) =~= cs@);
    while ps.len() > 0 && ps.len() <= end && occurs_at_exec(&cs, &ps, end - ps.len())
        invariant
            end <= cs@.len(),
            trim_end_str(s@, suffix@) == trim_end_str(cs@.subrange(0, end as int), suffix@),
            cs@ == s@,
            ps@ == suffix@,
        decreases end,
    {
        let ghost t = cs@.subrange(0, end as int);
        assert(t.subrange(end - ps@.len(), end as int) =~= cs@.subrange(end - ps@.len(), end as int));
        assert(t.subrange(0, end - ps@.len()) =~= cs@.subrange(0, end - ps@.len()));
        end = end - ps.len();
    }
    proof {
        let t = cs@.subrange(0, end as int);
        if ps@.len() > 0 && ps@.len() <= end {
            assert(t.subrange(end - ps@.len(), end as int) =~= cs@.subrange(end - ps@.len(), end as int));
        }
        assert(cs@.subrange(0, cs@.len() as int) =~= cs@);
    }
    s.substring_char(0, end)
}


/// An ASCII decimal digit.
pub open spec fn is_digit(c: char) -> bool {
    48 <= (c as u32) && (c as u32) <= 57
}

/// Every character of `d` is an ASCII decimal digit.
pub open spec fn all_digits(d: Seq<char>) -> bool {
    forall|i: int| 0 <= i < d.len() ==> is_digit(#[trigger] d[i])
}

/// The value of a string of decimal digits.
pub open spec fn decimal(d: Seq<char>) -> nat
    decreases d.len(),
{
    if d.len() == 0 {
        0
    } else {
        decimal(d.drop_last()) * 10 + ((d.last() as u32) - 48) as nat
    }
}

/// The value of the digits after an optional leading `+`, if it is at most `max`:
/// `from_str` of an unsigned integer type whose largest value is `max`.
pub open spec fn parse_unsigned(s: Seq<char>, max: nat) -> Option<nat> {
    let d = if s.len() > 0 && s[0] == '+' {
        s.drop_first()
    } else {
        s
    };
    if d.len() > 0 && all_digits(d) && decimal(d) <= max {
        Some(decimal(d))
    } else {
        None
    }
}

/// `from_str` of a signed integer type with range `min..=max`: an optional sign, then digits.
pub open spec fn parse_signed(s: Seq<char>, min: int, max: int) -> Option<int> {
    if s.len() > 0 && s[0] == '-' {
        let d = s.drop_first();
        if d.len() > 0 && all_digits(d) && -decimal(d) >= min {
            Some(-decimal(d))
        } else {
            None
        }
    } else {
        match parse_unsigned(s, max as nat) {
            Some(v) => Some(v as int),
            None => None,
        }
    }
}

/// A prefix of a digit string has a value no larger than the whole.
proof fn lemma_decimal_prefix(d: Seq<char>, j: int)
    requires
        all_digits(d),
        0 <= j <= d.len(),
    ensures
        decimal(d.take(j)) <= decimal(d),
    decreases d.len(),
{
    if j < d.len() {
        assert(all_digits(d.drop_last())) by {
            assert forall|i: int| 0 <= i < d.drop_last().len() implies is_digit(
                #[trigger] d.drop_last()[i],
            ) by {
                assert(d.drop_last()[i] == d[i]);
            }
        }
        assert(d.drop_last().take(j) =~= d.take(j));
        lemma_decimal_prefix(d.drop_last(), j);
    } else {
        assert(d.take(j) =~= d);
    }
}

/// The value of the digits `cs[lo..hi]` if they are all digits, nonempty, and at most `max`.
fn parse_digits(cs: &Vec<char>, lo: usize, hi: usize, max: u64) -> (r: Option<u64>)
    requires
        lo <= hi <= cs@.len(),
    ensures
        ({
            let d = cs@.subrange(lo as int, hi as int);
            match r {
                Some(v) => d.len() > 0 && all_digits(d) && decimal(d) <= max && v == decimal(d),
                None => !(d.len() > 0 && all_digits(d) && decimal(d) <= max),
            }
        }),
{
    let ghost d = cs@.subrange(lo as int, hi as int);
    if lo == hi {
        return None;
    }
    let mut acc: u128 = 0;
    let mut i = lo;
    let mut overflow = false;
    assert(d.take(0) =~= Seq::<char>::empty());
    while i < hi
        invariant
            lo <= i <= hi <= cs@.len(),
            d == cs@.subrange(lo as int, hi as int),
            acc <= max,
            all_digits(d.take(i - lo)),
            !overflow ==> acc == decimal(d.take(i - lo)),
            overflow ==> decimal(d.take(i - lo)) > max,
        decreases hi - i,
    {
        let c = cs[i];
        let u = c as u32;
        if u < 48 || u > 57 {
            assert(d[i - lo] == c);
            assert(!all_digits(d));
            return None;
        }
        let ghost t = d.take(i - lo + 1);
        assert(t.drop_last() =~= d.take(i - lo));
        assert(t.last() == c);
        assert(all_digits(t)) by {
            assert forall|k: int| 0 <= k < t.len() implies is_digit(#[trigger] t[k]) by {
                if k < t.len() - 1 {
                    assert(t[k] == d.take(i - lo)[k]);
                }
            }
        }
        if !overflow {
            let next = acc * 10 + (u - 48) as u128;
            if next > max as u128 {
                overflow = true;
            } else {
                acc = next;
            }
        } else {
            proof {
                lemma_decimal_prefix(t, i - lo);
                assert(t.take(i - lo) =~= d.take(i - lo));
            }
        }
        i = i + 1;
    }
    assert(d.take(hi - lo) =~= d);
    if overflow {
        None
    } else {
        Some(acc as u64)
    }
}

/// `from_str` of an unsigned integer no larger than `max`.
fn parse_unsigned_exec(s: &str, max: u64) -> (r: Option<u64>)
    ensures
        match r {
            Some(v) => parse_unsigned(s@, max as nat) == Some(v as nat),
            None => parse_unsigned(s@, max as nat) is None,
        },
{
    let cs = chars_of(s);
    let lo: usize = if cs.len() > 0 && cs[0] == '+' {
        1
    } else {
        0
    };
    assert(lo == 1 ==> cs@.subrange(1, cs@.len() as int) =~= s@.drop_first());
    assert(lo == 0 ==> cs@.subrange(0, cs@.len() as int) =~= s@);
    parse_digits(&cs, lo, cs.len(), max)
}

/// `u32::from_str`.
pub fn parse_u32(s: &str) -> (r: Option<u32>)
    ensures
        match r {
            Some(v) => parse_unsigned(s@, u32::MAX as nat) == Some(v as nat),
            None => parse_unsigned(s@, u32::MAX as nat) is None,
        },
{
    match parse_unsigned_exec(s, u32::MAX as u64) {
        Some(v) => Some(v as u32),
        None => None,
    }
}

/// `u64::from_str`.
pub fn parse_u64(s: &str) -> (r: Option<u64>)
    ensures
        match r {
            Some(v) => parse_unsigned(s@, u64::MAX as nat) == Some(v as nat),
            None => parse_unsigned(s@, u64::MAX as nat) is None,
        },
{
    parse_unsigned_exec(s, u64::MAX)
}

/// `usize::from_str`.
pub fn parse_usize(s: &str) -> (r: Option<usize>)
    ensures
        match r {
            Some(v) => parse_unsigned(s@, usize::MAX as nat) == Some(v as nat),
            None => parse_unsigned(s@, usize::MAX as nat) is None,
        },
{
    match parse_unsigned_exec(s, usize::MAX as u64) {
        Some(v) => Some(v as usize),
        None => None,
    }
}

/// `i32::from_str`.
pub fn parse_i32(s: &str) -> (r: Option<i32>)
    ensures
        match r {
            Some(v) => parse_signed(s@, i32::MIN as int, i32::MAX as int) == Some(v as int),
            None => parse_signed(s@, i32::MIN as int, i32::MAX as int) is None,
        },
{
    let cs = chars_of(s);
    if cs.len() > 0 && cs[0] == '-' {
        assert(cs@.subrange(1, cs@.len() as int) =~= s@.drop_first());
        match parse_digits(&cs, 1, cs.len(), 2147483648) {
            Some(v) => Some((0 - (v as i64)) as i32),
            None => None,
        }
    } else {
        match parse_unsigned_exec(s, i32::MAX as u64) {
            Some(v) => Some(v as i32),
            None => None,
        }
    }
}

/// `bool::from_str`: exactly `true` or `false`.
pub open spec fn parse_bool(s: Seq<char>) -> Option<bool> {
    if s == "true"@ {
        Some(true)
    } else if s == "false"@ {
        Some(false)
    } else {
        None
    }
}

/// `bool::from_str`.
pub fn parse_bool_str(s: &str) -> (r: Option<bool>)
    ensures
        r == parse_bool(s@),
{
    if str_eq(s, "true") {
        Some(true)
    } else if str_eq(s, "false") {
        Some(false)
    } else {
        None
    }
}


/// The decimal digit character for `d < 10`.
pub open spec fn digit_char(d: nat) -> char {
    ((d + 48) as u32) as char
}

/// The decimal representation of `n`, without leading zeros (`u32::to_string`).
pub open spec fn decimal_text(n: nat) -> Seq<char>
    decreases n,
{
    if n < 10 {
        seq![digit_char(n)]
    } else {
        decimal_text(n / 10).push(digit_char(n % 10))
    }
}

fn digit_str(d: u32) -> (s: &'static str)
    requires
        d < 10,
    ensures
        s@ == seq![digit_char(d as nat)],
{
    proof {
        reveal_strlit("0");
        reveal_strlit("1");
        reveal_strlit("2");
        reveal_strlit("3");
        reveal_strlit("4");
        reveal_strlit("5");
        reveal_strlit("6");
        reveal_strlit("7");
        reveal_strlit("8");
        reveal_strlit("9");
    }
    let s = match d {
        0 => "0",
        1 => "1",
        2 => "2",
        3 => "3",
        4 => "4",
        5 => "5",
        6 => "6",
        7 => "7",
        8 => "8",
        _ => "9",
    };
    assert(s@ =~= seq![digit_char(d as nat)]);
    s
}

/// Append the decimal representation of `n` to `out`.
pub fn push_decimal(out: &mut String, n: u64)
    ensures
        final(out)@ == old(out)@ + decimal_text(n as nat),
    decreases n,
{
    if n >= 10 {
        push_decimal(out, n / 10);
    }
    let d = digit_str((n % 10) as u32);
    out.append(d);
    proof {
        if n >= 10 {
            assert(decimal_text(n as nat) == decimal_text((n / 10) as nat).push(digit_char((n % 10) as nat)));
        }
    }
    assert(out@ =~= old(out)@ + decimal_text(n as nat));
}

/// The decimal representation of `n`.
pub fn decimal_string(n: u64) -> (s: String)
    ensures
        s@ == decimal_text(n as nat),
{
    let mut s = String::new();
    push_decimal(&mut s, n);
    assert(s@ =~= decimal_text(n as nat));
    s
}


/// ASCII lower case of `c` (`char::to_ascii_lowercase`).
pub open spec fn ascii_lower(c: char) -> char {
    if 65 <= (c as u32) && (c as u32) <= 90 {
        ((c as u32) + 32) as char
    } else {
        c
    }
}

/// `str::eq_ignore_ascii_case`.
pub open spec fn eq_ignore_ascii_case(a: Seq<char>, b: Seq<char>) -> bool {
    a.len() == b.len() && forall|i: int| 0 <= i < a.len() ==> ascii_lower(a[i]) == ascii_lower(b[i])
}

fn to_ascii_lower(c: char) -> (r: char)
    ensures
        r == ascii_lower(c),
{
    let u = c as u32;
    if 65 <= u && u <= 90 {
        let l = u + 32;
        assert(l == (c as u32) + 32);
        char_from_ascii(l)
    } else {
        c
    }
}

fn char_from_ascii(u: u32) -> (c: char)
    requires
        u < 128,
    ensures
        c == u as char,
{
    (u as u8) as char
}

/// `str::eq_ignore_ascii_case`.
pub fn eq_ignore_ascii_case_str(a: &str, b: &str) -> (r: bool)
    ensures
        r == eq_ignore_ascii_case(a@, b@),
{
    let x = chars_of(a);
    let y = chars_of(b);
    if x.len() != y.len() {
        return false;
    }
    let mut i: usize = 0;
    while i < x.len()
        invariant
            x@ == a@,
            y@ == b@,
            x@.len() == y@.len(),
            i <= x@.len(),
            forall|j: int| 0 <= j < i ==> ascii_lower(x@[j]) == ascii_lower(y@[j]),
        decreases x.len() - i,
    {
        if to_ascii_lower(x[i]) != to_ascii_lower(y[i]) {
            return false;
        }
        i = i + 1;
    }
    true
}

/// `str::to_ascii_lowercase`.
pub open spec fn to_ascii_lowercase(s: Seq<char>) -> Seq<char> {
    s.map_values(|c: char| ascii_lower(c))
}


/// The concatenation of two strings.
pub fn cat(a: &str, b: &str) -> (r: String)
    ensures
        r@ == a@ + b@,
{
    a.to_string().concat(b)
}

/// The concatenation of three strings.
pub fn cat3(a: &str, b: &str, c: &str) -> (r: String)
    ensures
        r@ == a@ + b@ + c@,
{
    a.to_string().concat(b).concat(c)
}


/// Whether the ASCII-lowercased `hay` contains `needle`.
pub fn contains_lowercased(hay: &str, needle: &str) -> (r: bool)
    ensures
        r == contains(to_ascii_lowercase(hay@), needle@),
{
    let cs = chars_of(hay);
    let mut lower: Vec<char> = Vec::new();
    let mut i: usize = 0;
    while i < cs.len()
        invariant
            cs@ == hay@,
            i <= cs@.len(),
            lower@ == to_ascii_lowercase(cs@.take(i as int)),
        decreases cs.len() - i,
    {
        lower.push(to_ascii_lower(cs[i]));
        assert(to_ascii_lowercase(cs@.take(i + 1)) =~= to_ascii_lowercase(cs@.take(i as int)).push(
            ascii_lower(cs@[i as int]),
        ));
        i = i + 1;
    }
    assert(cs@.take(cs@.len() as int) =~= cs@);
    let ns = chars_of(needle);
    find_chars(&lower, &ns, 0).is_some()
}

/// The decimal representation of a signed integer (`i32::to_string`).
pub open spec fn signed_text(v: int) -> Seq<char> {
    if v < 0 {
        seq!['-'] + decimal_text((-v) as nat)
    } else {
        decimal_text(v as nat)
    }
}

/// The decimal representation of `v`.
pub fn signed_string(v: i32) -> (s: String)
    ensures
        s@ == signed_text(v as int),
{
    proof {
        reveal_strlit("-");
    }
    if v < 0 {
        let m = (0 - (v as i64)) as u64;
        let mut s = "-".to_string();
        push_decimal(&mut s, m);
        assert(s@ =~= signed_text(v as int));
        s
    } else {
        decimal_string(v as u64)
    }
}


/// `p` without a final `\r`.
pub open spec fn strip_cr(p: Seq<char>) -> Seq<char> {
    if p.len() > 0 && p.last() == '\r' {
        p.drop_last()
    } else {
        p
    }
}

/// Each piece without a final `\r`.
pub open spec fn cr_stripped(p: Seq<Seq<char>>) -> Seq<Seq<char>>
    decreases p.len(),
{
    if p.len() == 0 {
        p
    } else {
        cr_stripped(p.drop_last()).push(strip_cr(p.last()))
    }
}

/// `str::lines`: the pieces between `\n`, each without the `\r` of a `\r\n` ending,
/// and no final empty piece after a trailing `\n`.
pub open spec fn lines(s: Seq<char>) -> Seq<Seq<char>> {
    let p = split(s, '\n');
    if p.last().len() == 0 {
        cr_stripped(p.drop_last())
    } else {
        cr_stripped(p.drop_last()).push(p.last())
    }
}

proof fn lemma_split_nonempty(s: Seq<char>, sep: char)
    ensures
        split(s, sep).len() >= 1,
    decreases s.len(),
{
    if s.len() > 0 {
        lemma_split_nonempty(s.drop_last(), sep);
    }
}

/// `str::lines`.
pub fn lines_of<'a>(s: &'a str) -> (r: Vec<&'a str>)
    ensures
        views(r@) == lines(s@),
{
    let pieces = split_char(s, '\n');
    proof {
        lemma_split_nonempty(s@, '\n');
    }
    let ghost p = split(s@, '\n');
    let last = pieces.len() - 1;
    let mut r: Vec<&'a str> = Vec::new();
    let mut i: usize = 0;
    assert(p.drop_last().take(0) =~= Seq::<Seq<char>>::empty());
    while i < last
        invariant
            last == pieces@.len() - 1,
            views(pieces@) == p,
            i <= last,
            views(r@) == cr_stripped(p.drop_last().take(i as int)),
        decreases last - i,
    {
        let piece = pieces[i];
        assert(p[i as int] == piece@);
        let cs = chars_of(piece);
        let line = if cs.len() > 0 && cs[cs.len() - 1] == '\r' {
            assert(piece@.subrange(0, cs@.len() - 1) =~= piece@.drop_last());
            piece.substring_char(0, cs.len() - 1)
        } else {
            piece
        };
        let ghost before = r@;
        r.push(line);
        assert(views(r@) =~= views(before).push(line@));
        assert(p.drop_last().take(i + 1).drop_last() =~= p.drop_last().take(i as int));
        assert(p.drop_last().take(i + 1).last() == p[i as int]);
        i = i + 1;
    }
    assert(p.drop_last().take(last as int) =~= p.drop_last());
    let tail = pieces[last];
    assert(p.last() == tail@);
    if chars_of(tail).len() > 0 {
        let ghost before = r@;
        r.push(tail);
        assert(views(r@) =~= views(before).push(tail@));
    }
    r
}

/// `rep` before each character of `s` and after the last: `str::replace` with an
/// empty pattern.
pub open spec fn interleaved(s: Seq<char>, rep: Seq<char>) -> Seq<char>
    decreases s.len(),
{
    if s.len() == 0 {
        rep
    } else {
        rep + seq![s[0]] + interleaved(s.drop_first(), rep)
    }
}

/// `str::replace`: each occurrence of `pat`, taken from the left without overlap,
/// replaced by `rep`.
pub open spec fn replaced(s: Seq<char>, pat: Seq<char>, rep: Seq<char>) -> Seq<char>
    decreases s.len(),
{
    if pat.len() == 0 {
        interleaved(s, rep)
    } else if s.len() == 0 {
        s
    } else if starts_with(s, pat) {
        rep + replaced(s.skip(pat.len() as int), pat, rep)
    } else {
        seq![s[0]] + replaced(s.drop_first(), pat, rep)
    }
}

/// Replace every occurrence of `pat` in `s` by `rep`.
pub fn replace_all(s: &str, pat: &str, rep: &str) -> (r: String)
    ensures
        r@ == replaced(s@, pat@, rep@),
{
    let cs = chars_of(s);
    let ps = chars_of(pat);
    let mut out = String::new();
    let mut i: usize = 0;
    assert(cs@.skip(0) =~= cs@);
    assert(out@ + replaced(cs@, pat@, rep@) =~= replaced(cs@, pat@, rep@));
    assert(out@ + interleaved(cs@, rep@) =~= interleaved(cs@, rep@));
    if ps.len() == 0 {
        while i < cs.len()
            invariant
                i <= cs@.len(),
                cs@ == s@,
                pat@.len() == 0,
                out@ + interleaved(cs@.skip(i as int), rep@) == interleaved(cs@, rep@),
            decreases cs.len() - i,
        {
            assert(cs@.skip(i as int).drop_first() =~= cs@.skip(i + 1));
            assert(cs@.skip(i as int)[0] == cs@[i as int]);
            out.append(rep);
            out.append(s.substring_char(i, i + 1));
            assert(s@.subrange(i as int, i + 1) =~= seq![cs@[i as int]]);
            i = i + 1;
        }
        assert(cs@.skip(i as int) =~= Seq::<char>::empty());
        out.append(rep);
        assert(cs@.skip(0) =~= cs@);
        return out;
    }
    assert(cs@.skip(0) =~= cs@);
    while i < cs.len()
        invariant
            i <= cs@.len(),
            cs@ == s@,
            ps@ == pat@,
            ps@.len() > 0,
            out@ + replaced(cs@.skip(i as int), pat@, rep@) == replaced(cs@, pat@, rep@),
        decreases cs.len() - i,
    {
        let ghost rest = cs@.skip(i as int);
        if occurs_at_exec(&cs, &ps, i) {
            assert(rest.subrange(0, ps@.len() as int) =~= cs@.subrange(i as int, i + ps@.len()));
            assert(starts_with(rest, pat@));
            assert(rest.skip(ps@.len() as int) =~= cs@.skip(i + ps@.len()));
            out.append(rep);
            i = i + ps.len();
        } else {
            assert(!starts_with(rest, pat@)) by {
                if starts_with(rest, pat@) {
                    assert(rest.subrange(0, ps@.len() as int) =~= cs@.subrange(i as int, i + ps@.len()));
                }
            }
            assert(rest.drop_first() =~= cs@.skip(i + 1));
            assert(rest[0] == cs@[i as int]);
            out.append(s.substring_char(i, i + 1));
            assert(s@.subrange(i as int, i + 1) =~= seq![cs@[i as int]]);
            i = i + 1;
        }
    }
    assert(cs@.skip(i as int) =~= Seq::<char>::empty());
    out
}

/// Every character of `t` is one of `pat`'s.
pub open spec fn only_chars_of(t: Seq<char>, pat: Seq<char>) -> bool {
    forall|k: int| 0 <= k < t.len() ==> pat.contains(#[trigger] t[k])
}

/// No character of `t` is one of `pat`'s.
pub open spec fn no_chars_of(t: Seq<char>, pat: Seq<char>) -> bool {
    forall|k: int| 0 <= k < t.len() ==> !pat.contains(#[trigger] t[k])
}

/// A prefix of the replaced text that uses only the pattern's characters holds no
/// replacement, so it is the same prefix of the original text.
proof fn lemma_replaced_prefix(t: Seq<char>, pat: Seq<char>, rep: Seq<char>, m: int)
    requires
        pat.len() > 0,
        rep.len() > 0,
        no_chars_of(rep, pat),
        0 <= m <= replaced(t, pat, rep).len(),
        only_chars_of(replaced(t, pat, rep).take(m), pat),
    ensures
        m <= t.len(),
        replaced(t, pat, rep).take(m) == t.take(m),
    decreases t.len(),
{
    let r = replaced(t, pat, rep);
    if m == 0 {
        assert(r.take(0) =~= t.take(0));
    } else if t.len() == 0 {
    } else if starts_with(t, pat) {
        let rest = replaced(t.skip(pat.len() as int), pat, rep);
        assert(r == rep + rest);
        assert(r.take(m)[0] == rep[0]);
        assert(!pat.contains(rep[0]));
    } else {
        let rest = replaced(t.drop_first(), pat, rep);
        assert(r == seq![t[0]] + rest);
        assert(rest.take(m - 1) =~= r.take(m).drop_first());
        assert forall|k: int| 0 <= k < rest.take(m - 1).len() implies pat.contains(#[trigger] rest.take(m - 1)[k]) by {
            assert(rest.take(m - 1)[k] == r.take(m)[k + 1]);
        }
        lemma_replaced_prefix(t.drop_first(), pat, rep, m - 1);
        assert(r.take(m) =~= seq![t[0]] + rest.take(m - 1));
        assert(t.take(m) =~= seq![t[0]] + t.drop_first().take(m - 1));
    }
}

/// No occurrence of `pat` anywhere in the replaced text.
proof fn lemma_replaced_no_occurrence(t: Seq<char>, pat: Seq<char>, rep: Seq<char>, i: int)
    requires
        pat.len() > 0,
        rep.len() > 0,
        no_chars_of(rep, pat),
    ensures
        !occurs_at(replaced(t, pat, rep), pat, i),
    decreases t.len(),
{
    let r = replaced(t, pat, rep);
    if occurs_at(r, pat, i) {
        if t.len() == 0 {
        } else if starts_with(t, pat) {
            let rest = replaced(t.skip(pat.len() as int), pat, rep);
            assert(r == rep + rest);
            if i < rep.len() {
                assert(r.subrange(i, i + pat.len())[0] == r[i]);
                assert(r[i] == rep[i]);
                assert(pat.contains(pat[0]));
            } else {
                assert(rest.subrange(i - rep.len(), i - rep.len() + pat.len()) =~= r.subrange(i, i + pat.len()));
                lemma_replaced_no_occurrence(t.skip(pat.len() as int), pat, rep, i - rep.len());
            }
        } else {
            let rest = replaced(t.drop_first(), pat, rep);
            assert(r == seq![t[0]] + rest);
            if i >= 1 {
                assert(rest.subrange(i - 1, i - 1 + pat.len()) =~= r.subrange(i, i + pat.len()));
                lemma_replaced_no_occurrence(t.drop_first(), pat, rep, i - 1);
            } else {
                let m = pat.len() as int;
                assert(r.take(m) =~= r.subrange(0, m));
                assert forall|k: int| 0 <= k < r.take(m).len() implies pat.contains(#[trigger] r.take(m)[k]) by {
                    assert(r.take(m)[k] == pat[k]);
                }
                lemma_replaced_prefix(t, pat, rep, m);
                assert(t.subrange(0, m) =~= t.take(m));
            }
        }
    }
}

/// Replacing a pattern by a text that shares no character with it leaves no occurrence
/// of the pattern: `~` for the home directory in the bug report leaves no home directory.
pub proof fn law_replaced_leaves_no_pattern(s: Seq<char>, pat: Seq<char>, rep: Seq<char>)
    requires
        pat.len() > 0,
        rep.len() > 0,
        no_chars_of(rep, pat),
    ensures
        !contains(replaced(s, pat, rep), pat),
{
    let r = replaced(s, pat, rep);
    lemma_find_from_none(r, pat, 0);
    assert forall|j: int| 0 <= j implies !occurs_at(r, pat, j) by {
        lemma_replaced_no_occurrence(s, pat, rep, j);
    }
}

/// A text without the separator splits into itself.
pub proof fn lemma_split_no_sep(a: Seq<char>, sep: char)
    requires
        !a.contains(sep),
    ensures
        split(a, sep) == seq![a],
    decreases a.len(),
{
    if a.len() > 0 {
        assert(!a.drop_last().contains(sep)) by {
            if a.drop_last().contains(sep) {
                let k = choose|k: int| 0 <= k < a.drop_last().len() && a.drop_last()[k] == sep;
                assert(a[k] == sep);
            }
        }
        lemma_split_no_sep(a.drop_last(), sep);
        assert(a.last() != sep) by {
            assert(a[a.len() - 1] == a.last());
        }
        assert(a.drop_last().push(a.last()) =~= a);
        assert(split(a, sep) =~= seq![a]);
    } else {
        assert(a =~= Seq::<char>::empty());
    }
}

/// A first piece without the separator, then the separator: that piece, then the pieces
/// of the rest.
pub proof fn lemma_split_join(a: Seq<char>, sep: char, b: Seq<char>)
    requires
        !a.contains(sep),
    ensures
        split(a + seq![sep] + b, sep) == seq![a] + split(b, sep),
    decreases b.len(),
{
    let s = a + seq![sep] + b;
    if b.len() == 0 {
        assert(s.drop_last() =~= a);
        lemma_split_no_sep(a, sep);
        assert(split(b, sep) == seq![Seq::<char>::empty()]);
        assert(split(s, sep) =~= seq![a] + split(b, sep));
    } else {
        lemma_split_join(a, sep, b.drop_last());
        assert(s.drop_last() =~= a + seq![sep] + b.drop_last());
        assert(s.last() == b.last());
        let prev = split(b.drop_last(), sep);
        lemma_split_nonempty(b.drop_last(), sep);
        if b.last() == sep {
            assert(split(s, sep) =~= seq![a] + split(b, sep));
        } else {
            assert((seq![a] + prev).last() == prev.last());
            assert(split(s, sep) =~= seq![a] + split(b, sep));
        }
    }
}

/// Trimming a text whose ends are outside the class changes nothing.
pub proof fn lemma_trim_stable(s: Seq<char>, cl: CharClass)
    requires
        s.len() == 0 || (!in_class(cl, s[0]) && !in_class(cl, s.last())),
    ensures
        trim(s, cl) == s,
{
}

/// The first occurrence of a single character.
pub proof fn lemma_find_char(s: Seq<char>, c: char, j: int, i: int)
    requires
        0 <= i <= j < s.len(),
        s[j] == c,
        forall|k: int| 0 <= k < j ==> s[k] != c,
    ensures
        find_from(s, seq![c], i) == Some(j),
    decreases j - i,
{
    if i < j {
        assert(!occurs_at(s, seq![c], i)) by {
            if occurs_at(s, seq![c], i) {
                assert(s.subrange(i, i + 1)[0] == s[i]);
            }
        }
        lemma_find_char(s, c, j, i + 1);
    } else {
        assert(s.subrange(j, j + 1) =~= seq![c]);
    }
}

/// The decimal text of a number is digits, not empty, and reads back as the number.
pub proof fn lemma_decimal_text(n: nat)
    ensures
        decimal_text(n).len() > 0,
        all_digits(decimal_text(n)),
        decimal(decimal_text(n)) == n,
    decreases n,
{
    let t = decimal_text(n);
    let d = n % 10;
    assert((digit_char(d) as u32) == d + 48);
    if n >= 10 {
        lemma_decimal_text(n / 10);
        assert(t.drop_last() =~= decimal_text(n / 10));
        assert(t.last() == digit_char(d));
        assert forall|i: int| 0 <= i < t.len() implies is_digit(#[trigger] t[i]) by {
            if i < t.len() - 1 {
                assert(t[i] == decimal_text(n / 10)[i]);
            }
        }
        assert(decimal(t) == decimal(t.drop_last()) * 10 + ((t.last() as u32) - 48) as nat);
        assert((n / 10) * 10 + n % 10 == n);
    } else {
        assert(t.drop_last() =~= Seq::<char>::empty());
        assert(t.last() == digit_char(n));
        assert(decimal(t) == decimal(t.drop_last()) * 10 + ((t.last() as u32) - 48) as nat);
    }
}

} // verus!
