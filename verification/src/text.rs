//! Character-level helpers on strings.
use vstd::prelude::*;

verus! {

/// `String::push` appends one character at the end.
pub assume_specification[ std::string::String::push ](s: &mut std::string::String, ch: char)
    ensures
        final(s)@ == old(s)@.push(ch),
;

/// `String::push_str` appends a string slice at the end.
pub assume_specification[ std::string::String::push_str ](s: &mut std::string::String, string: &str)
    ensures
        final(s)@ == old(s)@ + string@,
;

/// The characters of a string slice, in order.
pub fn chars_of(s: &str) -> (v: Vec<char>)
    ensures
        v@ == s@,
{
    let mut v: Vec<char> = Vec::new();
    for c in it: s.chars()
        invariant
            v@ == it.seq().take(it.index() as int),
            it.seq() == s@,
    {
        v.push(c);
    }
    v
}

/// An owned copy of a string slice.
pub fn owned(s: &str) -> (r: String)
    ensures
        r@ == s@,
{
    let mut r = String::new();
    r.push_str(s);
    r
}

/// Two string slices hold the same characters.
pub fn same_text(a: &str, b: &str) -> (r: bool)
    ensures
        r == (a@ == b@),
{
    let x = chars_of(a);
    let y = chars_of(b);
    if x.len() != y.len() {
        return false;
    }
    let mut i: usize = 0;
    while i < x.len()
        invariant
            x@ == a@,
            y@ == b@,
            x.len() == y.len(),
            i <= x.len(),
            forall|j: int| 0 <= j < i ==> x@[j] == y@[j],
        decreases x.len() - i,
    {
        if x[i] != y[i] {
            return false;
        }
        i = i + 1;
    }
    assert(a@ =~= b@);
    true
}

/// `prefix` is a prefix of `s`.
pub fn has_prefix(s: &str, prefix: &str) -> (r: bool)
    ensures
        r == prefix@.is_prefix_of(s@),
{
    let x = chars_of(s);
    let p = chars_of(prefix);
    if p.len() > x.len() {
        return false;
    }
    let mut i: usize = 0;
    while i < p.len()
        invariant
            x@ == s@,
            p@ == prefix@,
            p.len() <= x.len(),
            i <= p.len(),
            forall|j: int| 0 <= j < i ==> p@[j] == x@[j],
        decreases p.len() - i,
    {
        if p[i] != x[i] {
            return false;
        }
        i = i + 1;
    }
    true
}

/// `c` is an ASCII letter or digit.
pub open spec fn is_ascii_alnum(c: char) -> bool {
    ('a' <= c && c <= 'z') || ('A' <= c && c <= 'Z') || ('0' <= c && c <= '9')
}

/// `c` with ASCII upper-case letters turned into lower-case ones.
pub open spec fn ascii_lower(c: char) -> char {
    if 'A' <= c && c <= 'Z' {
        ((c as u32) + 32) as char
    } else {
        c
    }
}

/// `s` with its ASCII upper-case letters turned into lower-case ones.
pub open spec fn ascii_lowercase(s: Seq<char>) -> Seq<char> {
    s.map_values(|c: char| ascii_lower(c))
}

/// Whether `c` is an ASCII letter or digit.
pub fn char_is_ascii_alnum(c: char) -> (r: bool)
    ensures
        r == is_ascii_alnum(c),
{
    ('a' <= c && c <= 'z') || ('A' <= c && c <= 'Z') || ('0' <= c && c <= '9')
}

/// `c` in ASCII lower case.
pub fn char_ascii_lower(c: char) -> (r: char)
    ensures
        r == ascii_lower(c),
{
    if 'A' <= c && c <= 'Z' {
        let b = (c as u8) + 32;
        assert(b as char == ((c as u32) + 32) as char);
        b as char
    } else {
        c
    }
}

/// `s` in ASCII lower case.
pub fn to_ascii_lowercase(s: &str) -> (r: String)
    ensures
        r@ == ascii_lowercase(s@),
{
    let v = chars_of(s);
    let mut r = String::new();
    let mut i: usize = 0;
    while i < v.len()
        invariant
            v@ == s@,
            i <= v@.len(),
            r@ == ascii_lowercase(s@).take(i as int),
        decreases v@.len() - i,
    {
        let c = char_ascii_lower(v[i]);
        r.push(c);
        i = i + 1;
        assert(r@ =~= ascii_lowercase(s@).take(i as int));
    }
    assert(r@ =~= ascii_lowercase(s@));
    r
}

/// `needle` occurs in `hay` as a contiguous run of characters.
pub open spec fn occurs_in(needle: Seq<char>, hay: Seq<char>) -> bool {
    exists|i: int| 0 <= i && i + needle.len() <= hay.len() && #[trigger] hay.subrange(i, i + needle.len()) == needle
}

/// Whether `needle` occurs in `hay`.
pub fn contains_text(hay: &str, needle: &str) -> (r: bool)
    ensures
        r == occurs_in(needle@, hay@),
{
    let h = chars_of(hay);
    let n = chars_of(needle);
    if n.len() > h.len() {
        proof {
            assert forall|i: int| 0 <= i && i + needle@.len() <= hay@.len() implies
                #[trigger] hay@.subrange(i, i + needle@.len()) != needle@ by {}
        }
        return false;
    }
    let last = h.len() - n.len();
    let mut i: usize = 0;
    while i <= last
        invariant
            h@ == hay@,
            n@ == needle@,
            n.len() <= h.len(),
            last == h.len() - n.len(),
            i <= last + 1,
            forall|p: int| 0 <= p < i ==> #[trigger] hay@.subrange(p, p + needle@.len()) != needle@,
        decreases last + 1 - i,
    {
        let mut j: usize = 0;
        let mut matched = true;
        while j < n.len()
            invariant
                h@ == hay@,
                n@ == needle@,
                i + n.len() <= h.len(),
                j <= n.len(),
                matched ==> forall|q: int| 0 <= q < j ==> h@[i + q] == n@[q],
                !matched ==> hay@.subrange(i as int, i + needle@.len()) != needle@,
            decreases n.len() - j,
        {
            if h[i + j] != n[j] {
                matched = false;
                assert(hay@.subrange(i as int, i + needle@.len())[j as int] != needle@[j as int]);
            }
            j = j + 1;
        }
        if matched {
            assert(hay@.subrange(i as int, i + needle@.len()) =~= needle@);
            return true;
        }
        if i == last {
            return false;
        }
        i = i + 1;
    }
    false
}

/// `c` is an ASCII decimal digit.
pub open spec fn is_digit(c: char) -> bool {
    '0' <= c && c <= '9'
}

/// `s` is one or more ASCII decimal digits.
pub open spec fn all_digits(s: Seq<char>) -> bool {
    s.len() > 0 && forall|i: int| 0 <= i < s.len() ==> is_digit(#[trigger] s[i])
}

/// The number that the decimal digits `s` write.
pub open spec fn digits_value(s: Seq<char>) -> int
    decreases s.len(),
{
    if s.len() == 0 {
        0
    } else {
        digits_value(s.drop_last()) * 10 + ((s.last() as int) - ('0' as int))
    }
}

/// What `str::parse` reads as an unsigned decimal: an optional `+`, then one or more digits.
pub open spec fn unsigned_decimal(s: Seq<char>) -> Option<int> {
    let body = if s.len() > 0 && s[0] == '+' {
        s.drop_first()
    } else {
        s
    };
    if all_digits(body) {
        Some(digits_value(body))
    } else {
        None
    }
}

/// What `str::parse` reads as a signed decimal: an optional `+` or `-`, then one or more digits.
pub open spec fn signed_decimal(s: Seq<char>) -> Option<int> {
    if s.len() > 0 && s[0] == '-' {
        if all_digits(s.drop_first()) {
            Some(-digits_value(s.drop_first()))
        } else {
            None
        }
    } else {
        unsigned_decimal(s)
    }
}

/// A prefix of one or more digits writes no more than the whole digits do.
proof fn lemma_digits_value_prefix(s: Seq<char>, j: int)
    requires
        all_digits(s),
        0 <= j <= s.len(),
    ensures
        0 <= digits_value(s.take(j)) <= digits_value(s),
    decreases s.len(),
{
    if j == s.len() {
        assert(s.take(j) =~= s);
        lemma_digits_value_nonnegative(s);
    } else {
        let t = s.drop_last();
        if t.len() == 0 {
            assert(s.take(j) =~= Seq::<char>::empty());
        } else {
            assert(all_digits(t)) by {
                assert forall|i: int| 0 <= i < t.len() implies is_digit(#[trigger] t[i]) by {
                    assert(t[i] == s[i]);
                }
            }
            lemma_digits_value_prefix(t, j);
            assert(s.take(j) =~= t.take(j));
            lemma_digits_value_nonnegative(t);
            assert(is_digit(s[s.len() - 1]));
        }
    }
}

/// Digits write a number no less than zero.
proof fn lemma_digits_value_nonnegative(s: Seq<char>)
    requires
        forall|i: int| 0 <= i < s.len() ==> is_digit(#[trigger] s[i]),
    ensures
        digits_value(s) >= 0,
    decreases s.len(),
{
    if s.len() > 0 {
        let t = s.drop_last();
        assert forall|i: int| 0 <= i < t.len() implies is_digit(#[trigger] t[i]) by {
            assert(t[i] == s[i]);
        }
        lemma_digits_value_nonnegative(t);
        assert(is_digit(s[s.len() - 1]));
    }
}

/// The number that the characters of `cs` from `start` on write, when they are one or
/// more digits and it is at most `limit`.
fn digits_at_most(cs: &Vec<char>, start: usize, limit: u128) -> (r: Option<u128>)
    requires
        start <= cs@.len(),
        limit <= u64::MAX,
    ensures
        r == (if all_digits(cs@.skip(start as int)) && digits_value(cs@.skip(start as int)) <= limit {
            Some(digits_value(cs@.skip(start as int)) as u128)
        } else {
            None::<u128>
        }),
{
    let ghost suffix = cs@.skip(start as int);
    let mut acc: u128 = 0;
    let mut i: usize = start;
    while i < cs.len()
        invariant
            start <= i <= cs@.len(),
            suffix == cs@.skip(start as int),
            limit <= u64::MAX,
            forall|q: int| start <= q < i ==> is_digit(#[trigger] cs@[q]),
            acc == digits_value(cs@.subrange(start as int, i as int)),
            acc <= limit,
        decreases cs@.len() - i,
    {
        let c = cs[i];
        if !('0' <= c && c <= '9') {
            proof {
                assert(suffix[i - start] == c);
            }
            return None;
        }
        let d = (c as u32 - '0' as u32) as u128;
        assert(acc * 10 + 9 <= u64::MAX * 10 + 9) by (nonlinear_arith)
            requires
                acc <= u64::MAX,
        ;
        let next = acc * 10 + d;
        proof {
            let pre = cs@.subrange(start as int, i as int);
            let pre1 = cs@.subrange(start as int, i + 1);
            assert(pre1.drop_last() =~= pre);
            assert(pre1.last() == c);
            assert(digits_value(pre1) == next);
        }
        if next > limit {
            proof {
                let pre1 = cs@.subrange(start as int, i + 1);
                if all_digits(suffix) {
                    assert(suffix.take(i + 1 - start) =~= pre1);
                    lemma_digits_value_prefix(suffix, i + 1 - start);
                }
            }
            return None;
        }
        acc = next;
        i = i + 1;
    }
    proof {
        assert(cs@.subrange(start as int, i as int) =~= suffix);
        assert forall|q: int| 0 <= q < suffix.len() implies is_digit(#[trigger] suffix[q]) by {
            assert(suffix[q] == cs@[start + q]);
        }
    }
    if i == start {
        None
    } else {
        Some(acc)
    }
}

/// The body of an unsigned decimal: `s` without a leading `+`.
fn unsigned_start(cs: &Vec<char>) -> (start: usize)
    ensures
        start <= cs@.len(),
        cs@.skip(start as int) == (if cs@.len() > 0 && cs@[0] == '+' {
            cs@.drop_first()
        } else {
            cs@
        }),
{
    if cs.len() > 0 && cs[0] == '+' {
        assert(cs@.skip(1) =~= cs@.drop_first());
        1
    } else {
        assert(cs@.skip(0) =~= cs@);
        0
    }
}

/// The `usize` that `s` writes as an unsigned decimal, when it is one and fits, as
/// `str::parse::<usize>` reads it.
pub(crate) fn parse_usize(s: &str) -> (r: Option<usize>)
    ensures
        r == (if unsigned_decimal(s@) is Some && unsigned_decimal(s@)->0 <= usize::MAX {
            Some(unsigned_decimal(s@)->0 as usize)
        } else {
            None::<usize>
        }),
{
    let cs = chars_of(s);
    let start = unsigned_start(&cs);
    proof {
        let body = cs@.skip(start as int);
        assert(unsigned_decimal(s@) == (if all_digits(body) { Some(digits_value(body)) } else { None::<int> }));
        if all_digits(body) {
            lemma_digits_value_nonnegative(body);
        }
    }
    match digits_at_most(&cs, start, usize::MAX as u128) {
        Some(v) => Some(v as usize),
        None => None,
    }
}

/// The `u64` that `s` writes as an unsigned decimal, when it is one and fits, as
/// `str::parse::<u64>` reads it.
pub(crate) fn parse_u64(s: &str) -> (r: Option<u64>)
    ensures
        r == (if unsigned_decimal(s@) is Some && unsigned_decimal(s@)->0 <= u64::MAX {
            Some(unsigned_decimal(s@)->0 as u64)
        } else {
            None::<u64>
        }),
{
    let cs = chars_of(s);
    let start = unsigned_start(&cs);
    proof {
        let body = cs@.skip(start as int);
        assert(unsigned_decimal(s@) == (if all_digits(body) { Some(digits_value(body)) } else { None::<int> }));
        if all_digits(body) {
            lemma_digits_value_nonnegative(body);
        }
    }
    match digits_at_most(&cs, start, u64::MAX as u128) {
        Some(v) => Some(v as u64),
        None => None,
    }
}

/// The `i64` that `s` writes as a signed decimal, when it is one and fits, as
/// `str::parse::<i64>` reads it.
pub(crate) fn parse_i64(s: &str) -> (r: Option<i64>)
    ensures
        r == (if signed_decimal(s@) is Some && i64::MIN <= signed_decimal(s@)->0 <= i64::MAX {
            Some(signed_decimal(s@)->0 as i64)
        } else {
            None::<i64>
        }),
{
    let cs = chars_of(s);
    if cs.len() > 0 && cs[0] == '-' {
        proof {
            assert(cs@.skip(1) =~= cs@.drop_first());
            if all_digits(cs@.drop_first()) {
                lemma_digits_value_nonnegative(cs@.drop_first());
            }
        }
        match digits_at_most(&cs, 1, 9_223_372_036_854_775_808u128) {
            Some(v) => if v == 9_223_372_036_854_775_808u128 {
                Some(i64::MIN)
            } else {
                Some(-(v as i64))
            },
            None => None,
        }
    } else {
        let start = unsigned_start(&cs);
        proof {
            let body = cs@.skip(start as int);
            if all_digits(body) {
                lemma_digits_value_nonnegative(body);
            }
        }
        match digits_at_most(&cs, start, i64::MAX as u128) {
            Some(v) => Some(v as i64),
            None => None,
        }
    }
}

/// The view of an optional string.
pub open spec fn opt_text(s: Option<String>) -> Option<Seq<char>> {
    match s {
        Some(t) => Some(t@),
        None => None,
    }
}

} // verus!
