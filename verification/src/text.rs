//! Text as the routes read and write it: trimming, whole numbers, concatenation.

use vstd::prelude::*;
use vstd::string::*;

verus! {

/// The code points that carry the Unicode `White_Space` property.
pub open spec fn is_white(c: char) -> bool {
    let n = c as u32;
    ||| 0x09 <= n <= 0x0d
    ||| n == 0x20
    ||| n == 0x85
    ||| n == 0xa0
    ||| n == 0x1680
    ||| 0x2000 <= n <= 0x200a
    ||| n == 0x2028
    ||| n == 0x2029
    ||| n == 0x202f
    ||| n == 0x205f
    ||| n == 0x3000
}

/// `s` without its leading white space.
pub open spec fn trim_start(s: Seq<char>) -> Seq<char>
    decreases s.len(),
{
    if s.len() > 0 && is_white(s[0]) {
        trim_start(s.drop_first())
    } else {
        s
    }
}

/// `s` without its trailing white space.
pub open spec fn trim_end(s: Seq<char>) -> Seq<char>
    decreases s.len(),
{
    if s.len() > 0 && is_white(s.last()) {
        trim_end(s.drop_last())
    } else {
        s
    }
}

/// `s` without white space at either end.
pub open spec fn trimmed(s: Seq<char>) -> Seq<char> {
    trim_end(trim_start(s))
}

/// The characters of `s`, in order.
pub fn chars_of(s: &str) -> (chars: Vec<char>)
    ensures
        chars@ == s@,
{
    let mut chars: Vec<char> = Vec::new();
    for c in it: s.chars()
        invariant
            chars@ == s@.take(it.index() as int),
            it.seq() == s@,
    {
        chars.push(c);
        proof {
            assert(s@.take(it.index() as int).push(c) =~= s@.take(it.index() + 1));
        }
    }
    proof {
        assert(s@.take(s@.len() as int) =~= s@);
    }
    chars
}

fn is_white_char(c: char) -> (white: bool)
    ensures
        white == is_white(c),
{
    let n: u32 = c as u32;
    (0x09 <= n && n <= 0x0d) || n == 0x20 || n == 0x85 || n == 0xa0 || n == 0x1680 || (0x2000 <= n
        && n <= 0x200a) || n == 0x2028 || n == 0x2029 || n == 0x202f || n == 0x205f || n == 0x3000
}

/// `s` without leading and trailing white space.
pub fn trim(s: &str) -> (t: &str)
    ensures
        t@ == trimmed(s@),
{
    let chars = chars_of(s);
    let mut from: usize = 0;
    proof {
        assert(s@.skip(0) =~= s@);
    }
    while from < chars.len() && is_white_char(chars[from])
        invariant
            from <= chars.len(),
            chars@ == s@,
            trim_start(s@) == trim_start(s@.skip(from as int)),
        decreases chars.len() - from,
    {
        proof {
            assert(s@.skip(from as int).drop_first() =~= s@.skip(from + 1));
        }
        from = from + 1;
    }
    proof {
        assert(s@.skip(from as int) == trim_start(s@));
    }
    let mut to: usize = chars.len();
    while from < to && is_white_char(chars[to - 1])
        invariant
            from <= to <= chars.len(),
            chars@ == s@,
            s@.skip(from as int) == trim_start(s@),
            trimmed(s@) == trim_end(s@.subrange(from as int, to as int)),
        decreases to,
    {
        proof {
            assert(s@.subrange(from as int, to as int).drop_last() =~= s@.subrange(
                from as int,
                to - 1,
            ));
        }
        to = to - 1;
    }
    s.substring_char(from, to)
}

/// `String::push` puts one character at the end of the string.
pub assume_specification[ String::push ](s: &mut String, c: char)
    ensures
        final(s)@ == old(s)@.push(c),
;

/// Whether two texts hold the same characters.
pub fn same_text(a: &str, b: &str) -> (same: bool)
    ensures
        same == (a@ == b@),
{
    let x = chars_of(a);
    let y = chars_of(b);
    if x.len() != y.len() {
        return false;
    }
    let mut i: usize = 0;
    while i < x.len()
        invariant
            i <= x.len(),
            x@ == a@,
            y@ == b@,
            x.len() == y.len(),
            forall|k: int| 0 <= k < i ==> x@[k] == y@[k],
        decreases x.len() - i,
    {
        if x[i] != y[i] {
            return false;
        }
        i = i + 1;
    }
    proof {
        assert(a@ =~= b@);
    }
    true
}

/// `a` followed by `b`.
pub fn concat2(a: &str, b: &str) -> (s: String)
    ensures
        s@ == a@ + b@,
{
    a.to_owned().concat(b)
}

/// `a`, `b` and `c`, one after the other.
pub fn concat3(a: &str, b: &str, c: &str) -> (s: String)
    ensures
        s@ == a@ + b@ + c@,
{
    a.to_owned().concat(b).concat(c)
}

/// `a`, `b`, `c`, `d` and `e`, one after the other.
pub fn concat5(a: &str, b: &str, c: &str, d: &str, e: &str) -> (s: String)
    ensures
        s@ == a@ + b@ + c@ + d@ + e@,
{
    a.to_owned().concat(b).concat(c).concat(d).concat(e)
}

/// The texts one after the other, with `separator` between neighbours.
pub open spec fn joined(parts: Seq<Seq<char>>, separator: Seq<char>) -> Seq<char>
    decreases parts.len(),
{
    if parts.len() == 0 {
        Seq::empty()
    } else if parts.len() == 1 {
        parts[0]
    } else {
        joined(parts.drop_last(), separator) + separator + parts.last()
    }
}

/// The texts one after the other, with `separator` between neighbours.
pub fn join(parts: &[String], separator: &str) -> (s: String)
    ensures
        s@ == joined(crate::views::views(parts@), separator@),
{
    let ghost all = crate::views::views(parts@);
    let mut s = String::new();
    let mut i: usize = 0;
    while i < parts.len()
        invariant
            i <= parts.len(),
            all == crate::views::views(parts@),
            s@ == joined(all.take(i as int), separator@),
        decreases parts.len() - i,
    {
        if i > 0 {
            s.append(separator);
        }
        s.append(parts[i].as_str());
        i = i + 1;
        proof {
            assert(all.take(i as int).drop_last() =~= all.take(i - 1));
            assert(s@ =~= joined(all.take(i as int), separator@));
        }
    }
    proof {
        assert(all.take(i as int) =~= all);
    }
    s
}

/// The decimal digit `d` as a character.
pub open spec fn digit_char(d: nat) -> char {
    (48 + d) as char
}

/// `n` in decimal, without leading zeros.
pub open spec fn nat_text(n: nat) -> Seq<char>
    decreases n,
{
    if n < 10 {
        seq![digit_char(n)]
    } else {
        nat_text(n / 10).push(digit_char(n % 10))
    }
}

/// `n` in decimal, with a leading `-` where it is negative.
pub open spec fn int_text(n: int) -> Seq<char> {
    if n < 0 {
        seq!['-'] + nat_text((-n) as nat)
    } else {
        nat_text(n as nat)
    }
}

fn push_digits(s: &mut String, n: u64)
    ensures
        final(s)@ == old(s)@ + nat_text(n as nat),
    decreases n,
{
    if n >= 10 {
        push_digits(s, n / 10);
    }
    let digit: u8 = (n % 10) as u8;
    let c: char = (48 + digit) as char;
    s.push(c);
    proof {
        assert(c == digit_char((n % 10) as nat));
        assert(final(s)@ =~= old(s)@ + nat_text(n as nat));
    }
}

/// `n` in decimal.
pub fn count_text(n: usize) -> (s: String)
    ensures
        s@ == nat_text(n as nat),
{
    let mut s = String::new();
    push_digits(&mut s, n as u64);
    proof {
        assert(s@ =~= nat_text(n as nat));
    }
    s
}

/// `n` in decimal, with a leading `-` where it is negative.
pub fn id_text(n: i64) -> (s: String)
    ensures
        s@ == int_text(n as int),
{
    let mut s = String::new();
    if n < 0 {
        s.push('-');
        let magnitude: u64 = (-(n as i128)) as u64;
        push_digits(&mut s, magnitude);
    } else {
        push_digits(&mut s, n as u64);
    }
    proof {
        assert(s@ =~= int_text(n as int));
    }
    s
}

/// Whether `c` is a decimal digit.
pub open spec fn is_digit(c: char) -> bool {
    48 <= c as u32 <= 57
}

/// The number that a run of decimal digits writes.
pub open spec fn digits_value(s: Seq<char>) -> nat
    decreases s.len(),
{
    if s.len() == 0 {
        0
    } else {
        digits_value(s.drop_last()) * 10 + ((s.last() as u32 - 48) as nat)
    }
}

/// Whether `s` is one or more decimal digits.
pub open spec fn is_digits(s: Seq<char>) -> bool {
    s.len() > 0 && forall|i: int| 0 <= i < s.len() ==> is_digit(#[trigger] s[i])
}

/// The digits of a signed number: what follows an optional `+` or `-`.
pub open spec fn unsigned_part(s: Seq<char>) -> Seq<char> {
    if s.len() > 0 && (s[0] == '-' || s[0] == '+') {
        s.drop_first()
    } else {
        s
    }
}

/// The whole number that `s` writes, before any bound on its size.
pub open spec fn signed_value(s: Seq<char>) -> int {
    let magnitude = digits_value(unsigned_part(s)) as int;
    if s.len() > 0 && s[0] == '-' {
        -magnitude
    } else {
        magnitude
    }
}

/// How `s` reads as a 64-bit signed number: an optional sign and digits, in range.
pub open spec fn i64_reading(s: Seq<char>) -> Option<i64> {
    if is_digits(unsigned_part(s)) && i64::MIN <= signed_value(s) <= i64::MAX {
        Some(signed_value(s) as i64)
    } else {
        None
    }
}

proof fn lemma_prefix_value(s: Seq<char>, k: int)
    requires
        0 <= k <= s.len(),
    ensures
        digits_value(s.take(k)) <= digits_value(s),
    decreases s.len() - k,
{
    if k == s.len() {
        assert(s.take(k) =~= s);
    } else {
        lemma_prefix_value(s, k + 1);
        assert(s.take(k + 1).drop_last() =~= s.take(k));
    }
}

/// Reads an optional sign followed by decimal digits; `None` where the text is
/// anything else or the number does not fit.
pub fn read_i64(s: &str) -> (n: Option<i64>)
    ensures
        n == i64_reading(s@),
{
    let chars = chars_of(s);
    let negative = chars.len() > 0 && chars[0] == '-';
    let start: usize = if chars.len() > 0 && (chars[0] == '-' || chars[0] == '+') { 1 } else { 0 };
    let ghost digits = unsigned_part(s@);
    proof {
        assert(digits =~= s@.skip(start as int));
    }
    if start == chars.len() {
        return None;
    }
    let limit: i128 = if negative { 0x8000_0000_0000_0000 } else { 0x7fff_ffff_ffff_ffff };
    let mut value: i128 = 0;
    let mut i: usize = start;
    proof {
        assert(digits.take(0) =~= Seq::<char>::empty());
    }
    while i < chars.len()
        invariant
            chars@ == s@,
            start <= i <= chars.len(),
            digits == unsigned_part(s@),
            digits == s@.skip(start as int),
            negative == (s@.len() > 0 && s@[0] == '-'),
            limit == (if negative { 0x8000_0000_0000_0000int } else { 0x7fff_ffff_ffff_ffffint }),
            value == digits_value(digits.take(i - start)),
            0 <= value <= limit,
            forall|k: int| 0 <= k < i - start ==> is_digit(#[trigger] digits[k]),
        decreases chars.len() - i,
    {
        let code: u32 = chars[i] as u32;
        proof {
            assert(digits[i - start] == chars@[i as int]);
            assert(digits.take(i - start + 1).drop_last() =~= digits.take(i - start));
            lemma_prefix_value(digits, i - start + 1);
        }
        if code < 48 || code > 57 {
            return None;
        }
        value = value * 10 + (code - 48) as i128;
        if value > limit {
            return None;
        }
        i = i + 1;
    }
    proof {
        assert(digits.take(i - start) =~= digits);
    }
    if negative {
        Some((-value) as i64)
    } else {
        Some(value as i64)
    }
}

/// Whether `needle` occurs in `hay` as a run of neighbouring characters.
pub open spec fn occurs_in(needle: Seq<char>, hay: Seq<char>) -> bool {
    exists|at: int| occurs_at(needle, hay, at)
}

/// Whether `needle` occurs in `hay` from position `at` on.
pub open spec fn occurs_at(needle: Seq<char>, hay: Seq<char>, at: int) -> bool {
    0 <= at <= hay.len() - needle.len() && hay.subrange(at, at + needle.len()) == needle
}

fn matches_at(needle: &[char], hay: &[char], at: usize) -> (matches: bool)
    requires
        at + needle.len() <= hay.len(),
    ensures
        matches == occurs_at(needle@, hay@, at as int),
{
    let mut i: usize = 0;
    while i < needle.len()
        invariant
            i <= needle.len(),
            at + needle.len() <= hay.len(),
            forall|k: int| 0 <= k < i ==> hay@[at + k] == #[trigger] needle@[k],
        decreases needle.len() - i,
    {
        if hay[at + i] != needle[i] {
            proof {
                assert(hay@.subrange(at as int, at + needle.len())[i as int] != needle@[i as int]);
            }
            return false;
        }
        i = i + 1;
    }
    proof {
        assert(hay@.subrange(at as int, at + needle.len()) =~= needle@);
    }
    true
}

/// Whether `needle` occurs in `hay`.
pub fn contains_text(hay: &str, needle: &str) -> (found: bool)
    ensures
        found == occurs_in(needle@, hay@),
{
    let h = chars_of(hay);
    let n = chars_of(needle);
    if n.len() > h.len() {
        return false;
    }
    let last: usize = h.len() - n.len();
    let mut at: usize = 0;
    while at < last
        invariant
            h@ == hay@,
            n@ == needle@,
            n.len() <= h.len(),
            last == h.len() - n.len(),
            at <= last,
            forall|k: int| 0 <= k < at ==> !#[trigger] occurs_at(needle@, hay@, k),
        decreases last - at,
    {
        if matches_at(&n, &h, at) {
            return true;
        }
        at = at + 1;
    }
    matches_at(&n, &h, last)
}

/// The lower-case form of an ASCII letter; any other character is its own.
pub open spec fn ascii_lower(c: char) -> char {
    if 65 <= c as u32 <= 90 {
        (c as u32 + 32) as char
    } else {
        c
    }
}

/// Whether two texts are equal once ASCII letters lose their case.
pub open spec fn same_ascii_folded(a: Seq<char>, b: Seq<char>) -> bool {
    a.len() == b.len() && forall|i: int|
        0 <= i < a.len() ==> ascii_lower(#[trigger] a[i]) == ascii_lower(b[i])
}

fn lower(c: char) -> (l: char)
    ensures
        l == ascii_lower(c),
{
    let n: u32 = c as u32;
    if 65 <= n && n <= 90 {
        (n + 32) as u8 as char
    } else {
        c
    }
}

/// Whether two texts are equal once ASCII letters lose their case.
pub fn eq_ignore_ascii_case(a: &str, b: &str) -> (same: bool)
    ensures
        same == same_ascii_folded(a@, b@),
{
    let x = chars_of(a);
    let y = chars_of(b);
    if x.len() != y.len() {
        return false;
    }
    let mut i: usize = 0;
    while i < x.len()
        invariant
            i <= x.len(),
            x@ == a@,
            y@ == b@,
            x.len() == y.len(),
            forall|k: int| 0 <= k < i ==> ascii_lower(#[trigger] a@[k]) == ascii_lower(b@[k]),
        decreases x.len() - i,
    {
        if lower(x[i]) != lower(y[i]) {
            return false;
        }
        i = i + 1;
    }
    true
}

/// A number in decimal is a run of digits that writes the number.
pub proof fn lemma_nat_text(n: nat)
    ensures
        is_digits(nat_text(n)),
        digits_value(nat_text(n)) == n,
    decreases n,
{
    let last = digit_char(n % 10);
    assert(is_digit(last) && last as u32 - 48 == n % 10);
    if n < 10 {
        assert(nat_text(n).drop_last() =~= Seq::empty());
        assert(digits_value(nat_text(n).drop_last()) == 0);
    } else {
        lemma_nat_text(n / 10);
        assert(nat_text(n).drop_last() =~= nat_text(n / 10));
        assert forall|i: int| 0 <= i < nat_text(n).len() implies is_digit(
            #[trigger] nat_text(n)[i],
        ) by {
            if i < nat_text(n / 10).len() {
                assert(nat_text(n)[i] == nat_text(n / 10)[i]);
            }
        }
    }
}

/// A text that neither starts nor ends with white space is left as it is.
pub proof fn lemma_trimmed_kept(s: Seq<char>)
    requires
        s.len() > 0,
        !is_white(s[0]),
        !is_white(s.last()),
    ensures
        trimmed(s) == s,
{
}

/// An id that a page writes into a form reads back as the same id.
pub proof fn printed_ids_read_back(n: i64)
    ensures
        i64_reading(int_text(n as int)) == Some(n),
        trimmed(int_text(n as int)) == int_text(n as int),
{
    let t = int_text(n as int);
    if n < 0 {
        let digits = nat_text((-(n as int)) as nat);
        lemma_nat_text((-(n as int)) as nat);
        assert(t =~= seq!['-'] + digits);
        assert(t.drop_first() =~= digits);
        assert(is_digit(digits[digits.len() - 1]));
        assert(t.last() == digits.last());
    } else {
        lemma_nat_text(n as nat);
        assert(is_digit(t[0]));
        assert(is_digit(t[t.len() - 1]));
    }
    lemma_trimmed_kept(t);
}

/// Trimming a trimmed text changes nothing more.
pub proof fn trimming_is_idempotent(s: Seq<char>)
    ensures
        trimmed(trimmed(s)) == trimmed(s),
{
    lemma_trim_start_front(s);
    lemma_trim_end_ends(trim_start(s));
    if trimmed(s).len() > 0 {
        lemma_trimmed_kept(trimmed(s));
    }
}

proof fn lemma_trim_start_front(s: Seq<char>)
    ensures
        trim_start(s).len() > 0 ==> !is_white(trim_start(s)[0]),
    decreases s.len(),
{
    if s.len() > 0 && is_white(s[0]) {
        lemma_trim_start_front(s.drop_first());
    }
}

proof fn lemma_trim_end_ends(s: Seq<char>)
    ensures
        trim_end(s).len() > 0 ==> !is_white(trim_end(s).last()) && trim_end(s)[0] == s[0],
        trim_end(s).len() <= s.len(),
    decreases s.len(),
{
    if s.len() > 0 && is_white(s.last()) {
        lemma_trim_end_ends(s.drop_last());
    }
}

/// White space is what Unicode lists as such: these code points, and no others.
pub proof fn white_space_is_what_unicode_lists(c: char)
    ensures
        is_white(c) <==> seq![
            0x09u32,
            0x0a,
            0x0b,
            0x0c,
            0x0d,
            0x20,
            0x85,
            0xa0,
            0x1680,
            0x2000,
            0x2001,
            0x2002,
            0x2003,
            0x2004,
            0x2005,
            0x2006,
            0x2007,
            0x2008,
            0x2009,
            0x200a,
            0x2028,
            0x2029,
            0x202f,
            0x205f,
            0x3000,
        ].contains(c as u32),
{
    let listed = seq![
        0x09u32,
        0x0a,
        0x0b,
        0x0c,
        0x0d,
        0x20,
        0x85,
        0xa0,
        0x1680,
        0x2000,
        0x2001,
        0x2002,
        0x2003,
        0x2004,
        0x2005,
        0x2006,
        0x2007,
        0x2008,
        0x2009,
        0x200a,
        0x2028,
        0x2029,
        0x202f,
        0x205f,
        0x3000,
    ];
    let n = c as u32;
    if is_white(c) {
        if 0x09 <= n <= 0x0d {
            assert(listed[n - 0x09] == n);
        } else if n == 0x20 {
            assert(listed[5] == n);
        } else if n == 0x85 {
            assert(listed[6] == n);
        } else if n == 0xa0 {
            assert(listed[7] == n);
        } else if n == 0x1680 {
            assert(listed[8] == n);
        } else if 0x2000 <= n <= 0x200a {
            assert(listed[n - 0x2000 + 9] == n);
        } else if n == 0x2028 {
            assert(listed[20] == n);
        } else if n == 0x2029 {
            assert(listed[21] == n);
        } else if n == 0x202f {
            assert(listed[22] == n);
        } else if n == 0x205f {
            assert(listed[23] == n);
        } else {
            assert(listed[24] == n);
        }
    }
}

/// Whether every character is white space.
pub open spec fn all_white(s: Seq<char>) -> bool {
    forall|i: int| 0 <= i < s.len() ==> is_white(#[trigger] s[i])
}

proof fn lemma_trim_start_of(a: Seq<char>, m: Seq<char>)
    requires
        all_white(a),
        m.len() > 0 ==> !is_white(m[0]),
    ensures
        trim_start(a + m) == m,
    decreases a.len(),
{
    if a.len() == 0 {
        assert(a + m =~= m);
    } else {
        assert((a + m)[0] == a[0]);
        assert((a + m).drop_first() =~= a.drop_first() + m);
        lemma_trim_start_of(a.drop_first(), m);
    }
}

proof fn lemma_trim_end_of(m: Seq<char>, b: Seq<char>)
    requires
        all_white(b),
        m.len() > 0 ==> !is_white(m.last()),
    ensures
        trim_end(m + b) == m,
    decreases b.len(),
{
    if b.len() == 0 {
        assert(m + b =~= m);
    } else {
        assert((m + b).last() == b.last());
        assert((m + b).drop_last() =~= m + b.drop_last());
        lemma_trim_end_of(m, b.drop_last());
    }
}

/// Trimming takes away exactly the white space at both ends: what is left of a text
/// with white space before and after it is that text.
pub proof fn trimming_takes_the_white_ends(a: Seq<char>, m: Seq<char>, b: Seq<char>)
    requires
        all_white(a),
        all_white(b),
        m.len() > 0 ==> !is_white(m[0]) && !is_white(m.last()),
    ensures
        trimmed(a + m + b) == m,
{
    if m.len() > 0 {
        assert(a + m + b =~= a + (m + b));
        assert((m + b)[0] == m[0]);
        lemma_trim_start_of(a, m + b);
        lemma_trim_end_of(m, b);
    } else {
        let all = a + m + b;
        assert(all_white(all));
        assert(all =~= all + Seq::<char>::empty());
        lemma_trim_start_of(all, Seq::<char>::empty());
        assert(trim_start(all) =~= Seq::<char>::empty());
        assert(m =~= Seq::<char>::empty());
    }
}

/// Every text is what trimming leaves of it, with white space before and after.
pub proof fn trimming_takes_nothing_else(s: Seq<char>)
    ensures
        exists|a: Seq<char>, b: Seq<char>|
            all_white(a) && all_white(b) && s == #[trigger] (a + trimmed(s) + b),
        trimmed(s).len() > 0 ==> !is_white(trimmed(s)[0]) && !is_white(trimmed(s).last()),
        trimmed(s).len() == 0 <==> all_white(s),
{
    lemma_trim_start_front(s);
    lemma_trim_end_ends(trim_start(s));
    lemma_trim_start_splits(s);
    lemma_trim_end_splits(trim_start(s));
    let front = choose|a: Seq<char>| all_white(a) && s == #[trigger] (a + trim_start(s));
    let back = choose|b: Seq<char>|
        all_white(b) && trim_start(s) == #[trigger] (trimmed(s) + b);
    assert(s =~= front + trimmed(s) + back);
    if trimmed(s).len() == 0 {
        assert(all_white(s));
    } else if all_white(s) {
        assert(s[front.len() as int] == trimmed(s)[0]);
    }
}

proof fn lemma_trim_start_splits(s: Seq<char>)
    ensures
        exists|a: Seq<char>| all_white(a) && s == #[trigger] (a + trim_start(s)),
    decreases s.len(),
{
    if s.len() > 0 && is_white(s[0]) {
        let rest = s.drop_first();
        lemma_trim_start_splits(rest);
        let a = choose|a: Seq<char>| all_white(a) && rest == #[trigger] (a + trim_start(rest));
        let longer = seq![s[0]] + a;
        assert(all_white(longer));
        assert(trim_start(s) == trim_start(rest));
        assert(s =~= seq![s[0]] + rest);
        assert(s =~= longer + trim_start(s));
    } else {
        let none = Seq::<char>::empty();
        assert(all_white(none));
        assert(s =~= none + trim_start(s));
    }
}

proof fn lemma_trim_end_splits(s: Seq<char>)
    ensures
        exists|b: Seq<char>| all_white(b) && s == #[trigger] (trim_end(s) + b),
    decreases s.len(),
{
    if s.len() > 0 && is_white(s.last()) {
        let rest = s.drop_last();
        lemma_trim_end_splits(rest);
        let b = choose|b: Seq<char>| all_white(b) && rest == #[trigger] (trim_end(rest) + b);
        let longer = b + seq![s.last()];
        assert(all_white(longer));
        assert(trim_end(s) == trim_end(rest));
        assert(s =~= rest + seq![s.last()]);
        assert(s =~= trim_end(s) + longer);
    } else {
        let none = Seq::<char>::empty();
        assert(all_white(none));
        assert(s =~= trim_end(s) + none);
    }
}

/// Numbers are written in decimal: a digit stands for itself, one more digit at the end
/// is ten times the number and that digit, and a negative number is its opposite behind a
/// minus sign.
pub proof fn numbers_are_written_in_decimal(n: nat, digit: nat, c: char)
    requires
        digit < 10,
        c as u32 == 0x30 + digit,
    ensures
        nat_text(digit) == seq![c],
        n > 0 ==> nat_text(10 * n + digit) == nat_text(n).push(c),
        int_text(n as int) == nat_text(n),
        n > 0 ==> int_text(-(n as int)) == seq!['-'] + nat_text(n),
{
    assert(digit_char(digit) == c);
    if n > 0 {
        assert((10 * n + digit) / 10 == n);
        assert((10 * n + digit) % 10 == digit);
    }
}

/// What is read as a whole number: one sign at most, and nothing but decimal digits
/// behind it, at least one. One more digit at the end makes ten times the number and that
/// digit, as far as that fits; a plus sign changes nothing, and a minus sign gives the
/// opposite.
pub proof fn whole_numbers_are_read_in_decimal(s: Seq<char>, n: i64, c: char)
    requires
        i64_reading(s) == Some(n),
    ensures
        s.len() > 0,
        s[0] == '-' || s[0] == '+' || 0x30 <= s[0] as u32 <= 0x39,
        !(0x30 <= s[0] as u32 <= 0x39) ==> s.len() > 1,
        forall|i: int| 1 <= i < s.len() ==> 0x30 <= (#[trigger] s[i]) as u32 <= 0x39,
        0x30 <= c as u32 <= 0x39 && s[0] != '-' ==> i64_reading(s.push(c)) == (if 10 * n + (c as u32
            - 0x30) <= i64::MAX {
            Some((10 * n + (c as u32 - 0x30)) as i64)
        } else {
            None
        }),
        !(0x30 <= c as u32 <= 0x39) ==> i64_reading(s.push(c)) is None,
        0x30 <= s[0] as u32 <= 0x39 ==> i64_reading(seq!['+'] + s) == Some(n) && i64_reading(seq!['-'] + s)
            == Some((-n) as i64),
        0x30 <= c as u32 <= 0x39 ==> i64_reading(seq![c]) == Some((c as u32 - 0x30) as i64),
{
    let digits = unsigned_part(s);
    assert(is_digits(digits));
    assert forall|i: int| 1 <= i < s.len() implies 0x30 <= (#[trigger] s[i]) as u32 <= 0x39 by {
        if s[0] == '-' || s[0] == '+' {
            assert(digits[i - 1] == s[i]);
        } else {
            assert(digits[i] == s[i]);
        }
    }
    if !(s[0] == '-' || s[0] == '+') {
        assert(digits[0] == s[0]);
    }
    let longer = s.push(c);
    assert(longer[0] == s[0]);
    assert(unsigned_part(longer) =~= digits.push(c));
    assert(digits.push(c).drop_last() =~= digits);
    assert(digits_value(digits.push(c)) == digits_value(digits) * 10 + (c as u32 - 48) as nat);
    if 0x30 <= c as u32 <= 0x39 {
        assert(is_digits(digits.push(c)));
        let one = seq![c];
        assert(one.drop_last() =~= Seq::<char>::empty());
        assert(digits_value(one.drop_last()) == 0);
        assert(unsigned_part(one) =~= one);
        assert(is_digits(one));
    } else {
        assert(!is_digit(digits.push(c)[digits.len() as int]));
    }
    if 0x30 <= s[0] as u32 <= 0x39 {
        assert(digits =~= s);
        assert((seq!['+'] + s).drop_first() =~= s);
        assert((seq!['-'] + s).drop_first() =~= s);
    }
}

/// What is no number is not read: nothing, a bare sign, or any other character anywhere.
pub proof fn what_is_no_number_is_not_read(s: Seq<char>, at: int)
    ensures
        s.len() == 0 ==> i64_reading(s) is None,
        s.len() == 1 && (s[0] == '-' || s[0] == '+') ==> i64_reading(s) is None,
        0 < at < s.len() && !(0x30 <= s[at] as u32 <= 0x39) ==> i64_reading(s) is None,
        s.len() > 0 && s[0] != '-' && s[0] != '+' && !(0x30 <= s[0] as u32 <= 0x39) ==> i64_reading(
            s,
        ) is None,
{
    if i64_reading(s) is Some {
        whole_numbers_are_read_in_decimal(s, i64_reading(s)->0, '0');
    }
}

/// A text occurs in another exactly where the other is something, then the text, then
/// something.
pub proof fn occurring_is_standing_between(needle: Seq<char>, hay: Seq<char>)
    ensures
        occurs_in(needle, hay) <==> exists|a: Seq<char>, b: Seq<char>|
            hay == #[trigger] (a + needle + b),
{
    if occurs_in(needle, hay) {
        let at = choose|at: int| occurs_at(needle, hay, at);
        let a = hay.take(at);
        let b = hay.skip(at + needle.len());
        assert(hay =~= a + needle + b);
    }
    if exists|a: Seq<char>, b: Seq<char>| hay == #[trigger] (a + needle + b) {
        let (a, b) = choose|a: Seq<char>, b: Seq<char>| hay == #[trigger] (a + needle + b);
        assert(hay.subrange(a.len() as int, (a.len() + needle.len()) as int) =~= needle);
        assert(occurs_at(needle, hay, a.len() as int));
    }
}

/// Two texts are the same but for case where they are as long and differ in no
/// character but by the case of an ASCII letter.
pub proof fn only_the_case_of_ascii_letters_is_ignored(a: Seq<char>, b: Seq<char>)
    ensures
        same_ascii_folded(a, b) <==> a.len() == b.len() && forall|i: int|
            0 <= i < a.len() ==> {
                let x = #[trigger] a[i];
                let y = b[i];
                ||| x == y
                ||| 0x41 <= x as u32 <= 0x5a && y as u32 == x as u32 + 32
                ||| 0x41 <= y as u32 <= 0x5a && x as u32 == y as u32 + 32
            },
{
    if same_ascii_folded(a, b) {
        assert forall|i: int| 0 <= i < a.len() implies ({
            let x = #[trigger] a[i];
            let y = b[i];
            ||| x == y
            ||| 0x41 <= x as u32 <= 0x5a && y as u32 == x as u32 + 32
            ||| 0x41 <= y as u32 <= 0x5a && x as u32 == y as u32 + 32
        }) by {
            assert(ascii_lower(a[i]) == ascii_lower(b[i]));
            lemma_same_lower(a[i], b[i]);
        }
    }
    if a.len() == b.len() && forall|i: int|
        0 <= i < a.len() ==> {
            let x = #[trigger] a[i];
            let y = b[i];
            ||| x == y
            ||| 0x41 <= x as u32 <= 0x5a && y as u32 == x as u32 + 32
            ||| 0x41 <= y as u32 <= 0x5a && x as u32 == y as u32 + 32
        } {
        assert forall|i: int| 0 <= i < a.len() implies ascii_lower(#[trigger] a[i])
            == ascii_lower(b[i]) by {
            lemma_same_lower(a[i], b[i]);
        }
    }
}

proof fn lemma_same_lower(x: char, y: char)
    ensures
        ascii_lower(x) == ascii_lower(y) <==> {
            ||| x == y
            ||| 0x41 <= x as u32 <= 0x5a && y as u32 == x as u32 + 32
            ||| 0x41 <= y as u32 <= 0x5a && x as u32 == y as u32 + 32
        },
{
}

/// Joined texts: nothing of none, a text alone is itself, and one more text follows a
/// separator.
pub proof fn joining_puts_the_separator_between(
    parts: Seq<Seq<char>>,
    more: Seq<char>,
    separator: Seq<char>,
)
    ensures
        joined(Seq::empty(), separator).len() == 0,
        joined(seq![more], separator) == more,
        parts.len() > 0 ==> joined(parts.push(more), separator) == joined(parts, separator)
            + separator + more,
{
    assert(parts.push(more).drop_last() =~= parts);
}

} // verus!
