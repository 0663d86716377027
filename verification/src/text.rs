//! Text primitives: the handful of string operations the plugin is built from,
//! each stated over the sequence of characters that a string holds.

use vstd::prelude::*;
use vstd::string::*;

verus! {

/// `String::push` appends the character at the end.
pub assume_specification[ std::string::String::push ](s: &mut std::string::String, c: char)
    ensures
        final(s)@ == old(s)@.push(c),
;

/// Compares two texts character by character.
pub fn same(a: &str, b: &str) -> (r: bool)
    ensures
        r == (a@ == b@),
{
    let left = chars_of(a);
    let right = chars_of(b);
    proof {
        assert(a@.len() == b@.len() ==> a@.subrange(0, b@.len() as int) =~= a@);
    }
    left.len() == right.len() && matches_at(&left, &right, 0)
}

/// The characters of each string of a list.
pub open spec fn views(list: Seq<String>) -> Seq<Seq<char>> {
    list.map_values(|s: String| s@)
}

/// The characters of an optional string.
pub open spec fn opt_view(s: Option<String>) -> Option<Seq<char>> {
    match s {
        Some(t) => Some(t@),
        None => None,
    }
}

/// The characters of an optional borrowed string.
pub open spec fn opt_str_view(s: Option<&str>) -> Option<Seq<char>> {
    match s {
        Some(t) => Some(t@),
        None => None,
    }
}

/// Compares two lists of strings.
pub fn same_list(a: &Vec<String>, b: &Vec<String>) -> (r: bool)
    ensures
        r == (views(a@) == views(b@)),
{
    if a.len() != b.len() {
        proof {
            assert(views(a@).len() != views(b@).len());
        }
        return false;
    }
    let mut i: usize = 0;
    while i < a.len()
        invariant
            i <= a@.len(),
            a@.len() == b@.len(),
            forall|k: int| 0 <= k < i ==> (#[trigger] a@[k])@ == b@[k]@,
        decreases a@.len() - i,
    {
        if !same(a[i].as_str(), b[i].as_str()) {
            proof {
                assert(views(a@)[i as int] != views(b@)[i as int]);
            }
            return false;
        }
        i += 1;
    }
    proof {
        assert(views(a@) =~= views(b@));
    }
    true
}

/// Copies a list of strings.
pub fn copy_list(list: &Vec<String>) -> (r: Vec<String>)
    ensures
        views(r@) == views(list@),
{
    let mut out: Vec<String> = Vec::new();
    let mut i: usize = 0;
    while i < list.len()
        invariant
            i <= list@.len(),
            out@.len() == i,
            forall|k: int| 0 <= k < i ==> (#[trigger] out@[k])@ == list@[k]@,
        decreases list@.len() - i,
    {
        out.push(list[i].clone());
        i += 1;
    }
    proof {
        assert(views(out@) =~= views(list@));
    }
    out
}

/// Characters of a string, one element each.
pub fn chars_of(s: &str) -> (r: Vec<char>)
    ensures
        r@ == s@,
{
    let mut out: Vec<char> = Vec::new();
    for c in it: s.chars()
        invariant
            out@ == it.seq().take(it.index()),
            it.seq() == s@,
    {
        out.push(c);
    }
    proof {
        assert(s@.take(s@.len() as int) == s@);
    }
    out
}

/// Joins two strings.
pub fn join2(a: &str, b: &str) -> (r: String)
    ensures
        r@ == a@ + b@,
{
    let mut out = a.to_owned();
    out.append(b);
    out
}

/// Joins three strings.
pub fn join3(a: &str, b: &str, c: &str) -> (r: String)
    ensures
        r@ == a@ + b@ + c@,
{
    let mut out = a.to_owned();
    out.append(b);
    out.append(c);
    out
}

// ---------------------------------------------------------------------------
// Decimal numbers
// ---------------------------------------------------------------------------

/// The decimal digit of `d`.
pub open spec fn digit(d: nat) -> char
    recommends
        d < 10,
{
    (('0' as nat) + d) as char
}

/// `n` in decimal, without leading zeros.
pub open spec fn dec(n: nat) -> Seq<char>
    decreases n,
{
    if n < 10 {
        seq![digit(n)]
    } else {
        dec(n / 10).push(digit(n % 10))
    }
}

/// `n` in decimal, with a minus sign when negative.
pub open spec fn int_dec(n: int) -> Seq<char> {
    if n < 0 {
        seq!['-'] + dec((-n) as nat)
    } else {
        dec(n as nat)
    }
}

/// Writes `n` in decimal.
pub fn decimal(n: u128) -> (r: String)
    ensures
        r@ == dec(n as nat),
    decreases n,
{
    let last: u8 = (n % 10) as u8;
    let c: char = (48 + last) as char;
    if n < 10 {
        let mut out = String::new();
        out.push(c);
        proof {
            assert(out@ == seq![digit(n as nat)]);
        }
        out
    } else {
        let mut out = decimal(n / 10);
        out.push(c);
        out
    }
}

/// Writes `n` in decimal, with a minus sign when negative.
pub fn signed_decimal(n: i64) -> (r: String)
    ensures
        r@ == int_dec(n as int),
{
    if n < 0 {
        let magnitude: u128 = (-(n as i128)) as u128;
        let digits = decimal(magnitude);
        let mut out = String::new();
        out.push('-');
        out.append(digits.as_str());
        proof {
            assert(out@ == seq!['-'] + dec((-n) as nat));
        }
        out
    } else {
        decimal(n as u128)
    }
}

/// True for the ten decimal digits.
pub open spec fn is_digit(c: char) -> bool {
    '0' <= c && c <= '9'
}

/// The value of a decimal digit.
pub open spec fn digit_value(c: char) -> nat {
    (c as int - '0' as int) as nat
}

/// True when every character is a decimal digit.
pub open spec fn all_digits(s: Seq<char>) -> bool {
    forall|i: int| 0 <= i < s.len() ==> is_digit(#[trigger] s[i])
}

/// The number that a run of digits writes in decimal.
pub open spec fn digits_value(s: Seq<char>) -> nat
    decreases s.len(),
{
    if s.len() == 0 {
        0
    } else {
        digits_value(s.drop_last()) * 10 + digit_value(s.last())
    }
}

/// An unsigned decimal number with an optional plus sign, of any size.
pub open spec fn unsigned_value(s: Seq<char>) -> Option<nat> {
    let body = if s.len() > 0 && s[0] == '+' {
        s.skip(1)
    } else {
        s
    };
    if body.len() > 0 && all_digits(body) {
        Some(digits_value(body))
    } else {
        None
    }
}

/// A decimal number with an optional sign, of any size.
pub open spec fn signed_value(s: Seq<char>) -> Option<int> {
    if s.len() > 0 && s[0] == '-' {
        let body = s.skip(1);
        if body.len() > 0 && all_digits(body) {
            Some(-(digits_value(body) as int))
        } else {
            None
        }
    } else {
        match unsigned_value(s) {
            Some(n) => Some(n as int),
            None => None,
        }
    }
}

/// The number that `s` writes, where it fits an `i64`.
pub open spec fn i64_value(s: Seq<char>) -> Option<i64> {
    match signed_value(s) {
        Some(n) => if i64::MIN <= n <= i64::MAX {
            Some(n as i64)
        } else {
            None
        },
        None => None,
    }
}

/// The number that `s` writes without a minus sign, where it is at most `max`.
pub open spec fn bounded_value(s: Seq<char>, max: nat) -> Option<nat> {
    match unsigned_value(s) {
        Some(n) => if n <= max {
            Some(n)
        } else {
            None
        },
        None => None,
    }
}

proof fn lemma_digits_grow(s: Seq<char>, k: int)
    requires
        0 <= k <= s.len(),
    ensures
        digits_value(s.take(k)) <= digits_value(s),
    decreases s.len() - k,
{
    if k == s.len() {
        assert(s.take(k) == s);
    } else {
        lemma_digits_grow(s, k + 1);
        assert(s.take(k + 1).drop_last() == s.take(k));
    }
}

/// Reads a run of digits that fits a `u64`.
fn magnitude(chars: &Vec<char>, from: usize) -> (r: Option<u64>)
    requires
        from <= chars@.len(),
    ensures
        ({
            let body = chars@.skip(from as int);
            r == if body.len() > 0 && all_digits(body) && digits_value(body) <= u64::MAX {
                Some(digits_value(body) as u64)
            } else {
                None
            }
        }),
{
    let ghost body = chars@.skip(from as int);
    if from == chars.len() {
        return None;
    }
    let mut acc: u64 = 0;
    let mut i: usize = from;
    while i < chars.len()
        invariant
            from <= i <= chars@.len(),
            body == chars@.skip(from as int),
            acc == digits_value(body.take(i - from)),
            all_digits(body.take(i - from)),
        decreases chars@.len() - i,
    {
        let c: char = chars[i];
        proof {
            assert(body[i - from] == c);
            assert(body.take(i - from + 1).drop_last() == body.take(i - from));
            assert(body.take(i - from + 1).last() == c);
            assert(body.take(i - from + 1) == body.take(i - from).push(c));
        }
        if c < '0' || c > '9' {
            return None;
        }
        let d: u64 = (c as u32 - '0' as u32) as u64;
        if acc > (u64::MAX - d) / 10 {
            proof {
                lemma_digits_grow(body, i - from + 1);
            }
            return None;
        }
        acc = acc * 10 + d;
        i += 1;
    }
    proof {
        assert(body.take(body.len() as int) == body);
    }
    Some(acc)
}

/// Reads a signed decimal number, as `str::parse` does for `i64`.
pub fn parse_i64(s: &str) -> (r: Option<i64>)
    ensures
        r == i64_value(s@),
{
    let chars = chars_of(s);
    if chars.len() > 0 && chars[0] == '-' {
        match magnitude(&chars, 1) {
            Some(m) => {
                if m <= 9_223_372_036_854_775_808 {
                    Some((-(m as i128)) as i64)
                } else {
                    None
                }
            },
            None => None,
        }
    } else {
        match parse_unsigned(&chars) {
            Some(m) => if m <= i64::MAX as u64 {
                Some(m as i64)
            } else {
                None
            },
            None => None,
        }
    }
}

fn parse_unsigned(chars: &Vec<char>) -> (r: Option<u64>)
    ensures
        match r {
            Some(n) => bounded_value(chars@, u64::MAX as nat) == Some(n as nat),
            None => bounded_value(chars@, u64::MAX as nat) is None,
        },
{
    if chars.len() > 0 && chars[0] == '+' {
        magnitude(chars, 1)
    } else {
        proof {
            assert(chars@.skip(0) == chars@);
        }
        magnitude(chars, 0)
    }
}

/// Reads an unsigned decimal number, as `str::parse` does for `u64`.
pub fn parse_u64(s: &str) -> (r: Option<u64>)
    ensures
        match r {
            Some(n) => bounded_value(s@, u64::MAX as nat) == Some(n as nat),
            None => bounded_value(s@, u64::MAX as nat) is None,
        },
{
    let chars = chars_of(s);
    parse_unsigned(&chars)
}

/// Reads an unsigned decimal number, as `str::parse` does for `u32`.
pub fn parse_u32(s: &str) -> (r: Option<u32>)
    ensures
        match r {
            Some(n) => bounded_value(s@, u32::MAX as nat) == Some(n as nat),
            None => bounded_value(s@, u32::MAX as nat) is None,
        },
{
    match parse_u64(s) {
        Some(n) => if n <= u32::MAX as u64 {
            Some(n as u32)
        } else {
            None
        },
        None => None,
    }
}

// ---------------------------------------------------------------------------
// Trimming and case
// ---------------------------------------------------------------------------

/// The characters that Unicode gives the property White_Space.
pub open spec fn is_white_space(c: char) -> bool {
    ||| '\u{9}' <= c <= '\u{d}'
    ||| c == '\u{20}'
    ||| c == '\u{85}'
    ||| c == '\u{a0}'
    ||| c == '\u{1680}'
    ||| '\u{2000}' <= c <= '\u{200a}'
    ||| c == '\u{2028}'
    ||| c == '\u{2029}'
    ||| c == '\u{202f}'
    ||| c == '\u{205f}'
    ||| c == '\u{3000}'
}

/// Tests a character for the property White_Space.
pub fn white_space(c: char) -> (r: bool)
    ensures
        r == is_white_space(c),
{
    (c >= '\u{9}' && c <= '\u{d}') || c == '\u{20}' || c == '\u{85}' || c == '\u{a0}' || c
        == '\u{1680}' || (c >= '\u{2000}' && c <= '\u{200a}') || c == '\u{2028}' || c == '\u{2029}'
        || c == '\u{202f}' || c == '\u{205f}' || c == '\u{3000}'
}

/// `s` without its leading white space.
pub open spec fn trimmed_start(s: Seq<char>) -> Seq<char>
    decreases s.len(),
{
    if s.len() > 0 && is_white_space(s[0]) {
        trimmed_start(s.skip(1))
    } else {
        s
    }
}

/// `s` without its trailing white space.
pub open spec fn trimmed_end(s: Seq<char>) -> Seq<char>
    decreases s.len(),
{
    if s.len() > 0 && is_white_space(s.last()) {
        trimmed_end(s.drop_last())
    } else {
        s
    }
}

/// `s` without its leading and trailing white space.
pub open spec fn trimmed(s: Seq<char>) -> Seq<char> {
    trimmed_end(trimmed_start(s))
}

/// A text that neither starts nor ends with white space is not trimmed.
pub proof fn lemma_nothing_to_trim(s: Seq<char>)
    requires
        s.len() > 0,
        !is_white_space(s[0]),
        !is_white_space(s.last()),
    ensures
        trimmed(s) == s,
{
}

/// Removes leading and trailing white space.
pub fn trim(s: &str) -> (r: &str)
    ensures
        r@ == trimmed(s@),
{
    let chars = chars_of(s);
    let mut from: usize = 0;
    proof {
        assert(s@.skip(0) == s@);
    }
    while from < chars.len() && white_space(chars[from])
        invariant
            from <= chars@.len(),
            chars@ == s@,
            trimmed_start(s@) == trimmed_start(s@.skip(from as int)),
        decreases chars@.len() - from,
    {
        proof {
            assert(s@.skip(from as int).skip(1) == s@.skip(from + 1));
        }
        from += 1;
    }
    let ghost rest = s@.skip(from as int);
    let mut to: usize = chars.len();
    proof {
        assert(s@.subrange(from as int, to as int) == rest);
    }
    while to > from && white_space(chars[to - 1])
        invariant
            from <= to <= chars@.len(),
            chars@ == s@,
            trimmed_end(rest) == trimmed_end(s@.subrange(from as int, to as int)),
        decreases to,
    {
        proof {
            assert(s@.subrange(from as int, to as int).drop_last() == s@.subrange(
                from as int,
                to - 1,
            ));
        }
        to -= 1;
    }
    s.substring_char(from, to)
}

/// `s` without the run of `c` at its end.
pub open spec fn trimmed_end_of(s: Seq<char>, c: char) -> Seq<char>
    decreases s.len(),
{
    if s.len() > 0 && s.last() == c {
        trimmed_end_of(s.drop_last(), c)
    } else {
        s
    }
}

/// Removes the run of `c` at the end, as `str::trim_end_matches` does.
pub fn trim_end_of(s: &str, c: char) -> (r: &str)
    ensures
        r@ == trimmed_end_of(s@, c),
{
    let chars = chars_of(s);
    let mut to: usize = chars.len();
    proof {
        assert(s@.take(to as int) == s@);
    }
    while to > 0 && chars[to - 1] == c
        invariant
            to <= chars@.len(),
            chars@ == s@,
            trimmed_end_of(s@, c) == trimmed_end_of(s@.take(to as int), c),
        decreases to,
    {
        proof {
            assert(s@.take(to as int).drop_last() == s@.take(to - 1));
        }
        to -= 1;
    }
    proof {
        assert(s@.subrange(0, to as int) == s@.take(to as int));
    }
    s.substring_char(0, to)
}

/// The lower-case form of an ASCII letter; any other character unchanged.
pub open spec fn lower_char(c: char) -> char {
    if 'A' <= c <= 'Z' {
        ((c as int) + 32) as char
    } else {
        c
    }
}

/// `s` with its ASCII letters in lower case.
pub open spec fn lowered(s: Seq<char>) -> Seq<char> {
    s.map_values(|c: char| lower_char(c))
}

/// Lower-cases the ASCII letters.
pub fn to_lower(s: &str) -> (r: String)
    ensures
        r@ == lowered(s@),
{
    let chars = chars_of(s);
    let mut out = String::new();
    let mut i: usize = 0;
    while i < chars.len()
        invariant
            i <= chars@.len(),
            chars@ == s@,
            out@ == lowered(s@).take(i as int),
        decreases chars@.len() - i,
    {
        let c: char = chars[i];
        if c >= 'A' && c <= 'Z' {
            out.push(((c as u8) + 32) as char);
        } else {
            out.push(c);
        }
        proof {
            assert(lowered(s@).take(i + 1) == lowered(s@).take(i as int).push(lowered(s@)[i as int]));
        }
        i += 1;
    }
    proof {
        assert(lowered(s@).take(s@.len() as int) == lowered(s@));
    }
    out
}

// ---------------------------------------------------------------------------
// Searching
// ---------------------------------------------------------------------------

/// True when `part` stands in `s` from position `i` on.
pub open spec fn occurs_at(s: Seq<char>, part: Seq<char>, i: int) -> bool {
    &&& 0 <= i
    &&& i + part.len() <= s.len()
    &&& s.subrange(i, i + part.len()) == part
}

/// True when `part` stands somewhere in `s`.
pub open spec fn has_part(s: Seq<char>, part: Seq<char>) -> bool {
    exists|i: int| occurs_at(s, part, i)
}

/// The first position at or after `from` at which `part` stands in `s`.
pub open spec fn index_from(s: Seq<char>, part: Seq<char>, from: int) -> Option<int>
    decreases s.len() - from + 1,
{
    if from + part.len() > s.len() {
        None
    } else if occurs_at(s, part, from) {
        Some(from)
    } else {
        index_from(s, part, from + 1)
    }
}

/// What [`index_from`] finds, in terms of where `part` stands.
pub proof fn lemma_index_from(s: Seq<char>, part: Seq<char>, from: int)
    requires
        from >= 0,
    ensures
        match index_from(s, part, from) {
            Some(i) => {
                &&& from <= i
                &&& occurs_at(s, part, i)
                &&& forall|j: int| from <= j < i ==> !occurs_at(s, part, j)
            },
            None => forall|j: int| from <= j ==> !occurs_at(s, part, j),
        },
    decreases s.len() - from + 1,
{
    if from + part.len() <= s.len() && !occurs_at(s, part, from) {
        lemma_index_from(s, part, from + 1);
    }
}

/// Tests whether `part` stands in `s` from position `i` on.
fn matches_at(s: &Vec<char>, part: &Vec<char>, i: usize) -> (r: bool)
    requires
        i <= s@.len(),
    ensures
        r == occurs_at(s@, part@, i as int),
{
    if part.len() > s.len() - i {
        return false;
    }
    let mut k: usize = 0;
    while k < part.len()
        invariant
            i + part@.len() <= s.len(),
            k <= part@.len(),
            forall|j: int| 0 <= j < k ==> s@[i + j] == part@[j],
        decreases part@.len() - k,
    {
        if s[i + k] != part[k] {
            proof {
                assert(s@.subrange(i as int, i + part@.len())[k as int] != part@[k as int]);
            }
            return false;
        }
        k += 1;
    }
    proof {
        assert(s@.subrange(i as int, i + part@.len()) == part@);
    }
    true
}

/// The first position at or after `from` at which `part` stands in `s`.
pub fn find_from(s: &Vec<char>, part: &Vec<char>, from: usize) -> (r: Option<usize>)
    requires
        from <= s@.len(),
    ensures
        index_from(s@, part@, from as int) == match r {
            Some(i) => Some(i as int),
            None => None,
        },
{
    let mut i: usize = from;
    loop
        invariant
            from <= i <= s@.len(),
            index_from(s@, part@, from as int) == index_from(s@, part@, i as int),
        decreases s@.len() - i,
    {
        if matches_at(s, part, i) {
            return Some(i);
        }
        if i == s.len() {
            proof {
                assert(part@.len() == 0 ==> s@.subrange(i as int, i as int) =~= part@);
            }
            return None;
        }
        i += 1;
    }
}

/// Tests whether `part` stands somewhere in `s`.
pub fn contains(s: &str, part: &str) -> (r: bool)
    ensures
        r == has_part(s@, part@),
{
    let all = chars_of(s);
    let needle = chars_of(part);
    proof {
        lemma_index_from(s@, part@, 0);
    }
    match find_from(&all, &needle, 0) {
        Some(i) => {
            proof {
                assert(occurs_at(s@, part@, i as int));
            }
            true
        },
        None => false,
    }
}

/// What follows `prefix` in `s`, if `s` starts with it.
pub fn strip_prefix<'a>(s: &'a str, prefix: &str) -> (r: Option<&'a str>)
    ensures
        match r {
            Some(rest) => s@ == prefix@ + rest@,
            None => !occurs_at(s@, prefix@, 0),
        },
{
    let all = chars_of(s);
    let head = chars_of(prefix);
    if matches_at(&all, &head, 0) {
        proof {
            assert(s@ == s@.subrange(0, prefix@.len() as int) + s@.subrange(
                prefix@.len() as int,
                s@.len() as int,
            ));
        }
        Some(s.substring_char(head.len(), all.len()))
    } else {
        None
    }
}

// ---------------------------------------------------------------------------
// Splitting, joining and replacing
// ---------------------------------------------------------------------------

/// The pieces of `s` between the occurrences of `c`: always at least one.
pub open spec fn split_on(s: Seq<char>, c: char) -> Seq<Seq<char>>
    decreases s.len(),
{
    if s.len() == 0 {
        seq![Seq::empty()]
    } else {
        let before = split_on(s.drop_last(), c);
        if s.last() == c {
            before.push(Seq::empty())
        } else {
            before.drop_last().push(before.last().push(s.last()))
        }
    }
}

/// Splits at every `c`.
pub fn split(s: &str, c: char) -> (r: Vec<String>)
    ensures
        views(r@) == split_on(s@, c),
{
    let chars = chars_of(s);
    let mut done: Vec<String> = Vec::new();
    let mut piece = String::new();
    let mut i: usize = 0;
    proof {
        assert(split_on(s@.take(0), c) == views(done@).push(piece@));
    }
    while i < chars.len()
        invariant
            i <= chars@.len(),
            chars@ == s@,
            split_on(s@.take(i as int), c) == views(done@).push(piece@),
        decreases chars@.len() - i,
    {
        let ghost before = views(done@).push(piece@);
        proof {
            assert(s@.take(i + 1).drop_last() == s@.take(i as int));
            assert(before.drop_last() == views(done@));
        }
        if chars[i] == c {
            let ghost old_done = done@;
            let ghost old_piece = piece@;
            done.push(piece);
            piece = String::new();
            proof {
                assert(views(done@) == views(old_done).push(old_piece));
            }
        } else {
            piece.push(chars[i]);
        }
        i += 1;
    }
    let ghost old_done = done@;
    let ghost last = piece@;
    done.push(piece);
    proof {
        assert(views(done@) == views(old_done).push(last));
        assert(s@.take(s@.len() as int) == s@);
    }
    done
}

/// The pieces of a list with `sep` between them.
pub open spec fn joined(list: Seq<Seq<char>>, sep: Seq<char>) -> Seq<char>
    decreases list.len(),
{
    if list.len() == 0 {
        Seq::empty()
    } else if list.len() == 1 {
        list[0]
    } else {
        joined(list.drop_last(), sep) + sep + list.last()
    }
}

/// Joins the strings of a list with `sep` between them.
pub fn join(list: &Vec<String>, sep: &str) -> (r: String)
    ensures
        r@ == joined(views(list@), sep@),
{
    let mut out = String::new();
    let mut i: usize = 0;
    let ghost all = views(list@);
    while i < list.len()
        invariant
            i <= list@.len(),
            all == views(list@),
            out@ == joined(all.take(i as int), sep@),
        decreases list@.len() - i,
    {
        if i > 0 {
            out.append(sep);
        }
        out.append(list[i].as_str());
        proof {
            assert(all.take(i + 1).drop_last() == all.take(i as int));
            assert(all.take(i + 1).last() == list@[i as int]@);
            assert(out@ == joined(all.take(i + 1), sep@));
        }
        i += 1;
    }
    proof {
        assert(all.take(all.len() as int) == all);
    }
    out
}

/// `s` with every occurrence of `part`, found from the left without overlap,
/// replaced by `by`.
pub open spec fn replaced(s: Seq<char>, part: Seq<char>, by: Seq<char>) -> Seq<char>
    recommends
        part.len() > 0,
    decreases s.len(),
{
    if part.len() == 0 || s.len() < part.len() {
        s
    } else if s.take(part.len() as int) == part {
        by + replaced(s.skip(part.len() as int), part, by)
    } else {
        seq![s[0]] + replaced(s.skip(1), part, by)
    }
}

/// Replaces every occurrence of `part`.
pub fn replace(s: &str, part: &str, by: &str) -> (r: String)
    requires
        part@.len() > 0,
    ensures
        r@ == replaced(s@, part@, by@),
{
    let all = chars_of(s);
    let needle = chars_of(part);
    let mut out = String::new();
    let mut i: usize = 0;
    proof {
        assert(s@.skip(0) == s@);
        assert(out@ + replaced(s@, part@, by@) == replaced(s@, part@, by@));
    }
    while i < all.len() && needle.len() <= all.len() - i
        invariant
            i <= all@.len(),
            all@ == s@,
            needle@ == part@,
            part@.len() > 0,
            out@ + replaced(s@.skip(i as int), part@, by@) == replaced(s@, part@, by@),
        decreases all@.len() - i,
    {
        let ghost rest = s@.skip(i as int);
        let ghost before = out@;
        proof {
            assert(rest.take(part@.len() as int) == s@.subrange(i as int, i + part@.len()));
        }
        if matches_at(&all, &needle, i) {
            out.append(by);
            proof {
                assert(rest.skip(part@.len() as int) == s@.skip(i + part@.len()));
                assert(before + (by@ + replaced(rest.skip(part@.len() as int), part@, by@)) == (
                before + by@) + replaced(rest.skip(part@.len() as int), part@, by@));
            }
            i += needle.len();
        } else {
            out.push(all[i]);
            proof {
                assert(rest.skip(1) == s@.skip(i + 1));
                assert(before + (seq![rest[0]] + replaced(rest.skip(1), part@, by@))
                    == before.push(rest[0]) + replaced(rest.skip(1), part@, by@));
            }
            i += 1;
        }
    }
    out.append(s.substring_char(i, all.len()));
    proof {
        assert(s@.subrange(i as int, s@.len() as int) == s@.skip(i as int));
    }
    out
}

/// `s` with each character replaced by what `f` gives for it.
pub open spec fn expanded(s: Seq<char>, f: spec_fn(char) -> Seq<char>) -> Seq<char>
    decreases s.len(),
{
    if s.len() == 0 {
        Seq::empty()
    } else {
        expanded(s.drop_last(), f) + f(s.last())
    }
}

/// A part stands in a text exactly when the text can be cut into three with the
/// part in the middle.
pub proof fn law_a_part_cuts_the_text(s: Seq<char>, part: Seq<char>)
    ensures
        has_part(s, part) <==> exists|x: Seq<char>, y: Seq<char>| #[trigger] (x + part + y) == s,
{
    if has_part(s, part) {
        let i = choose|i: int| occurs_at(s, part, i);
        let x = s.take(i);
        let y = s.skip(i + part.len());
        assert(x + part + y =~= x + s.subrange(i, i + part.len()) + y);
        assert(x + part + y =~= s);
    }
    if exists|x: Seq<char>, y: Seq<char>| #[trigger] (x + part + y) == s {
        let (x, y) = choose|x: Seq<char>, y: Seq<char>| #[trigger] (x + part + y) == s;
        let i = x.len() as int;
        assert(s.subrange(i, i + part.len()) =~= part);
        assert(occurs_at(s, part, i));
    }
}

/// A number in decimal reads back as the number, and has no leading zero.
pub proof fn law_decimals_read_back(n: nat)
    ensures
        dec(n).len() > 0,
        all_digits(dec(n)),
        digits_value(dec(n)) == n,
        n > 0 ==> dec(n)[0] != '0',
    decreases n,
{
    if n < 10 {
        assert(dec(n).drop_last() =~= Seq::empty());
        assert(digits_value(Seq::<char>::empty()) == 0);
        assert(dec(n).last() == digit(n));
    } else {
        law_decimals_read_back(n / 10);
        assert(dec(n).drop_last() =~= dec(n / 10));
        assert(dec(n).last() == digit(n % 10));
        assert(dec(n)[0] == dec(n / 10)[0]);
        assert forall|i: int| 0 <= i < dec(n).len() implies is_digit(#[trigger] dec(n)[i]) by {
            if i < dec(n / 10).len() {
                assert(dec(n)[i] == dec(n / 10)[i]);
            }
        }
    }
}

/// A signed number in decimal reads back as the number, where it fits.
pub proof fn law_signed_decimals_read_back(n: int)
    ensures
        signed_value(int_dec(n)) == Some(n),
        i64::MIN <= n <= i64::MAX ==> i64_value(int_dec(n)) == Some(n as i64),
{
    let m = if n < 0 {
        (-n) as nat
    } else {
        n as nat
    };
    law_decimals_read_back(m);
    assert(is_digit(dec(m)[0]));
    if n < 0 {
        assert(int_dec(n).skip(1) =~= dec(m));
    }
}

/// True when every character is white space.
pub open spec fn is_blank(s: Seq<char>) -> bool {
    forall|i: int| 0 <= i < s.len() ==> is_white_space(#[trigger] s[i])
}

/// Trimming takes off white space at both ends, and all of it: what is left is empty
/// or neither starts nor ends with white space. The two ends come back.
pub proof fn law_trimming_takes_the_margins(s: Seq<char>) -> (ends: (Seq<char>, Seq<char>))
    ensures
        s == ends.0 + trimmed(s) + ends.1,
        is_blank(ends.0) && is_blank(ends.1),
        trimmed(s).len() > 0 ==> !is_white_space(trimmed(s)[0]) && !is_white_space(
            trimmed(s).last(),
        ),
{
    let a = lemma_trimmed_start(s);
    let t = trimmed_start(s);
    let b = lemma_trimmed_end(t);
    assert(s =~= a + trimmed(s) + b);
    if trimmed(s).len() > 0 {
        assert(trimmed(s)[0] == t[0]);
    }
    (a, b)
}

proof fn lemma_trimmed_start(s: Seq<char>) -> (a: Seq<char>)
    ensures
        s == a + trimmed_start(s),
        is_blank(a),
        trimmed_start(s).len() > 0 ==> !is_white_space(trimmed_start(s)[0]),
    decreases s.len(),
{
    if s.len() > 0 && is_white_space(s[0]) {
        let rest = lemma_trimmed_start(s.skip(1));
        let a = seq![s[0]] + rest;
        assert(s =~= seq![s[0]] + s.skip(1));
        assert(s =~= a + trimmed_start(s));
        a
    } else {
        assert(s =~= Seq::<char>::empty() + s);
        Seq::empty()
    }
}

proof fn lemma_trimmed_end(s: Seq<char>) -> (b: Seq<char>)
    ensures
        s == trimmed_end(s) + b,
        is_blank(b),
        trimmed_end(s).len() > 0 ==> !is_white_space(trimmed_end(s).last()) && trimmed_end(s)[0]
            == s[0],
    decreases s.len(),
{
    if s.len() > 0 && is_white_space(s.last()) {
        let rest = lemma_trimmed_end(s.drop_last());
        let b = rest + seq![s.last()];
        assert(s =~= s.drop_last() + seq![s.last()]);
        assert(s =~= trimmed_end(s) + b);
        b
    } else {
        assert(s =~= s + Seq::<char>::empty());
        Seq::empty()
    }
}

/// White space around a text is no part of it: a text that neither starts nor ends
/// with white space is found again in any margins.
pub proof fn law_margins_are_ignored(a: Seq<char>, s: Seq<char>, b: Seq<char>)
    requires
        is_blank(a),
        is_blank(b),
        s.len() > 0,
        !is_white_space(s[0]),
        !is_white_space(s.last()),
    ensures
        trimmed(a + s + b) == s,
    decreases a.len() + b.len(),
{
    let whole = a + s + b;
    if a.len() > 0 {
        assert(whole[0] == a[0] && is_white_space(a[0]));
        assert(whole.skip(1) =~= a.skip(1) + s + b);
        assert forall|i: int| 0 <= i < a.skip(1).len() implies is_white_space(
            #[trigger] a.skip(1)[i],
        ) by {
            assert(a.skip(1)[i] == a[i + 1]);
        }
        law_margins_are_ignored(a.skip(1), s, b);
    } else if b.len() > 0 {
        assert(whole[0] == s[0]);
        assert(whole.last() == b.last() && is_white_space(b[b.len() - 1]));
        assert(whole.drop_last() =~= a + s + b.drop_last());
        assert forall|i: int| 0 <= i < b.drop_last().len() implies is_white_space(
            #[trigger] b.drop_last()[i],
        ) by {
            assert(b.drop_last()[i] == b[i]);
        }
        law_margins_are_ignored(a, s, b.drop_last());
        assert(whole.drop_last()[0] == s[0]);
    } else {
        assert(whole =~= s);
    }
}

/// A run of a character at the end is taken off, and all of it. The run comes back.
pub proof fn law_runs_at_the_end_are_taken_off(s: Seq<char>, c: char) -> (run: Seq<char>)
    ensures
        s == trimmed_end_of(s, c) + run,
        forall|i: int| 0 <= i < run.len() ==> #[trigger] run[i] == c,
        trimmed_end_of(s, c).len() > 0 ==> trimmed_end_of(s, c).last() != c,
    decreases s.len(),
{
    if s.len() > 0 && s.last() == c {
        let rest = law_runs_at_the_end_are_taken_off(s.drop_last(), c);
        let run = rest + seq![c];
        assert(s =~= s.drop_last() + seq![c]);
        assert(s =~= trimmed_end_of(s, c) + run);
        run
    } else {
        assert(s =~= s + Seq::<char>::empty());
        Seq::empty()
    }
}

/// Splitting undoes joining: the pieces, none of which holds the separator, make up
/// the text with the separator between them.
pub proof fn law_pieces_make_up_the_text(s: Seq<char>, c: char)
    ensures
        split_on(s, c).len() > 0,
        joined(split_on(s, c), seq![c]) == s,
        forall|i: int| 0 <= i < split_on(s, c).len() ==> !(#[trigger] split_on(s, c)[i]).contains(c),
    decreases s.len(),
{
    let pieces = split_on(s, c);
    if s.len() == 0 {
        assert(joined(pieces, seq![c]) =~= s);
    } else {
        let before = split_on(s.drop_last(), c);
        law_pieces_make_up_the_text(s.drop_last(), c);
        assert(s =~= s.drop_last() + seq![s.last()]);
        if s.last() == c {
            assert(pieces.drop_last() =~= before);
            assert(joined(pieces, seq![c]) =~= s.drop_last() + seq![c] + Seq::<char>::empty());
            assert forall|i: int| 0 <= i < pieces.len() implies !(#[trigger] pieces[i]).contains(
                c,
            ) by {
                if i < before.len() {
                    assert(pieces[i] == before[i]);
                }
            }
        } else {
            assert(pieces.drop_last() =~= before.drop_last());
            let last = before.last().push(s.last());
            assert(pieces.last() == last);
            if before.len() == 1 {
                assert(joined(pieces, seq![c]) =~= s);
            } else {
                assert(joined(pieces, seq![c]) == joined(before.drop_last(), seq![c]) + seq![c]
                    + last);
                assert(s.drop_last() == joined(before.drop_last(), seq![c]) + seq![c]
                    + before.last());
                assert(joined(pieces, seq![c]) =~= s);
            }
            assert forall|i: int| 0 <= i < pieces.len() implies !(#[trigger] pieces[i]).contains(
                c,
            ) by {
                if i < before.len() - 1 {
                    assert(pieces[i] == before[i]);
                } else {
                    let p = before[before.len() - 1];
                    assert(!p.contains(c));
                    assert(pieces[i] =~= p.push(s.last()));
                    if pieces[i].contains(c) {
                        let k = choose|k: int| 0 <= k < pieces[i].len() && pieces[i][k] == c;
                        assert(p[k] == c);
                    }
                }
            }
        }
    }
}

/// A text with one more piece behind a separator has that piece behind its own.
proof fn lemma_split_push(s: Seq<char>, piece: Seq<char>, c: char)
    requires
        !piece.contains(c),
    ensures
        split_on(s + seq![c] + piece, c) == split_on(s, c).push(piece),
    decreases piece.len(),
{
    let whole = s + seq![c] + piece;
    if piece.len() == 0 {
        assert(piece =~= Seq::empty());
        assert(whole =~= s.push(c));
        assert(whole.drop_last() =~= s);
        assert(split_on(whole, c) =~= split_on(s, c).push(piece));
    } else {
        let rest = piece.drop_last();
        assert(whole.drop_last() =~= s + seq![c] + rest);
        assert(whole.last() == piece.last());
        assert(piece.contains(piece.last()));
        assert(!rest.contains(c)) by {
            if rest.contains(c) {
                let k = choose|k: int| 0 <= k < rest.len() && rest[k] == c;
                assert(piece[k] == c);
            }
        }
        lemma_split_push(s, rest, c);
        let before = split_on(s, c).push(rest);
        assert(before.drop_last() =~= split_on(s, c));
        assert(rest.push(piece.last()) =~= piece);
    }
}

proof fn lemma_split_one(piece: Seq<char>, c: char)
    requires
        !piece.contains(c),
    ensures
        split_on(piece, c) == seq![piece],
    decreases piece.len(),
{
    if piece.len() > 0 {
        let rest = piece.drop_last();
        assert(piece.contains(piece.last()));
        assert(!rest.contains(c)) by {
            if rest.contains(c) {
                let k = choose|k: int| 0 <= k < rest.len() && rest[k] == c;
                assert(piece[k] == c);
            }
        }
        lemma_split_one(rest, c);
        assert(rest.push(piece.last()) =~= piece);
        assert(split_on(piece, c) =~= seq![piece]);
    } else {
        assert(piece =~= Seq::empty());
        assert(split_on(piece, c) =~= seq![piece]);
    }
}

/// Pieces without the separator come back when what they are joined to is split.
pub proof fn law_joined_pieces_come_back(list: Seq<Seq<char>>, c: char)
    requires
        list.len() > 0,
        forall|i: int| 0 <= i < list.len() ==> !(#[trigger] list[i]).contains(c),
    ensures
        split_on(joined(list, seq![c]), c) == list,
    decreases list.len(),
{
    if list.len() == 1 {
        lemma_split_one(list[0], c);
        assert(list =~= seq![list[0]]);
    } else {
        let rest = list.drop_last();
        assert forall|i: int| 0 <= i < rest.len() implies !(#[trigger] rest[i]).contains(c) by {
            assert(rest[i] == list[i]);
        }
        law_joined_pieces_come_back(rest, c);
        assert(!list[list.len() - 1].contains(c));
        lemma_split_push(joined(rest, seq![c]), list.last(), c);
        assert(rest.push(list.last()) =~= list);
    }
}

/// Lower case keeps every character in its place and leaves no ASCII capital:
/// capitals become the small letters of the same place in the alphabet, and
/// everything else is kept.
pub proof fn law_lower_case(s: Seq<char>, i: int)
    requires
        0 <= i < s.len(),
    ensures
        lowered(s).len() == s.len(),
        !('A' <= lowered(s)[i] <= 'Z'),
        'A' <= s[i] <= 'Z' ==> 'a' <= lowered(s)[i] <= 'z' && lowered(s)[i] as int - 'a' as int
            == s[i] as int - 'A' as int,
        !('A' <= s[i] <= 'Z') ==> lowered(s)[i] == s[i],
        lowered(lowered(s)) == lowered(s),
{
    assert forall|k: int| 0 <= k < s.len() implies lowered(lowered(s))[k] == #[trigger] lowered(
        s,
    )[k] by {}
    assert(lowered(lowered(s)) =~= lowered(s));
}

/// Replacing changes nothing where the part does not stand in the text.
pub proof fn law_replacing_needs_the_part(s: Seq<char>, part: Seq<char>, by: Seq<char>)
    requires
        part.len() > 0,
        forall|i: int| !occurs_at(s, part, i),
    ensures
        replaced(s, part, by) == s,
    decreases s.len(),
{
    let n = part.len() as int;
    if s.len() >= n {
        assert(s.take(n) =~= s.subrange(0, n));
        assert(!occurs_at(s, part, 0));
        let rest = s.skip(1);
        assert forall|k: int| !occurs_at(rest, part, k) by {
            if 0 <= k && k + n <= rest.len() {
                assert(rest.subrange(k, k + n) =~= s.subrange(k + 1, k + 1 + n));
                assert(!occurs_at(s, part, k + 1));
            }
        }
        law_replacing_needs_the_part(rest, part, by);
        assert(seq![s[0]] + rest =~= s);
    }
}

/// What precedes the first place of the part is kept, the part gives way, and what
/// follows it is replaced in turn.
pub proof fn law_replacing_goes_from_the_left(
    s: Seq<char>,
    part: Seq<char>,
    by: Seq<char>,
    i: int,
)
    requires
        part.len() > 0,
        occurs_at(s, part, i),
        forall|k: int| k < i ==> !occurs_at(s, part, k),
    ensures
        replaced(s, part, by) == s.take(i) + by + replaced(s.skip(i + part.len()), part, by),
    decreases s.len(),
{
    let n = part.len() as int;
    assert(s.take(n) =~= s.subrange(0, n));
    if i == 0 {
        assert(s.take(0) + by =~= by);
    } else {
        let rest = s.skip(1);
        assert(!occurs_at(s, part, 0));
        assert(rest.subrange(i - 1, i - 1 + n) =~= s.subrange(i, i + n));
        assert forall|k: int| k < i - 1 implies !occurs_at(rest, part, k) by {
            if 0 <= k && k + n <= rest.len() {
                assert(rest.subrange(k, k + n) =~= s.subrange(k + 1, k + 1 + n));
                assert(!occurs_at(s, part, k + 1));
            }
        }
        law_replacing_goes_from_the_left(rest, part, by, i - 1);
        let tail = replaced(s.skip(i + n), part, by);
        assert(rest.skip(i - 1 + n) =~= s.skip(i + n));
        assert(seq![s[0]] + (rest.take(i - 1) + by + tail) =~= s.take(i) + by + tail);
    }
}

/// Where a part is the only place of its first character, replacing puts the new text
/// there and keeps the rest.
pub proof fn law_replacing_fills_the_place(
    x: Seq<char>,
    part: Seq<char>,
    y: Seq<char>,
    by: Seq<char>,
)
    requires
        part.len() > 0,
        !x.contains(part[0]),
        !y.contains(part[0]),
    ensures
        replaced(x + part + y, part, by) == x + by + y,
        !has_part(x + y, part),
        replaced(x + y, part, by) == x + y,
{
    let s = x + part + y;
    let i = x.len() as int;
    assert(s.subrange(i, i + part.len()) =~= part);
    assert forall|k: int| k < i implies !occurs_at(s, part, k) by {
        if occurs_at(s, part, k) {
            assert(s.subrange(k, k + part.len())[0] == s[k]);
            assert(x[k] == part[0]);
        }
    }
    law_replacing_goes_from_the_left(s, part, by, i);
    assert(s.take(i) =~= x);
    assert(s.skip(i + part.len()) =~= y);
    assert forall|k: int| !occurs_at(y, part, k) by {
        if occurs_at(y, part, k) {
            assert(y.subrange(k, k + part.len())[0] == y[k]);
            assert(y.contains(part[0]));
        }
    }
    law_replacing_needs_the_part(y, part, by);
    let t = x + y;
    assert forall|k: int| !occurs_at(t, part, k) by {
        if occurs_at(t, part, k) {
            assert(t.subrange(k, k + part.len())[0] == t[k]);
            if k < x.len() {
                assert(x[k] == part[0]);
            } else {
                assert(y[k - x.len()] == part[0]);
            }
        }
    }
    law_replacing_needs_the_part(t, part, by);
}

/// A place in braces is left alone by the filling of another one, which differs from it
/// at `d`.
pub proof fn lemma_other_place(
    x: Seq<char>,
    place: Seq<char>,
    y: Seq<char>,
    other: Seq<char>,
    by: Seq<char>,
    d: int,
)
    requires
        !x.contains('{'),
        !y.contains('{'),
        2 <= d < place.len(),
        d < other.len(),
        place[d] != other[d],
        other[0] == '{' && other[1] == '{',
        forall|i: int| 2 <= i < place.len() ==> #[trigger] place[i] != '{',
    ensures
        replaced(x + place + y, other, by) == x + place + y,
{
    let s = x + place + y;
    let n = x.len() as int;
    assert forall|k: int| !occurs_at(s, other, k) by {
        if occurs_at(s, other, k) {
            lemma_place_at(x, place, y, other, d, k);
        }
    }
    law_replacing_needs_the_part(s, other, by);
}

proof fn lemma_place_at(
    x: Seq<char>,
    place: Seq<char>,
    y: Seq<char>,
    other: Seq<char>,
    d: int,
    k: int,
)
    requires
        !x.contains('{'),
        !y.contains('{'),
        2 <= d < place.len(),
        d < other.len(),
        place[d] != other[d],
        other[0] == '{' && other[1] == '{',
        forall|i: int| 2 <= i < place.len() ==> #[trigger] place[i] != '{',
    ensures
        !occurs_at(x + place + y, other, k),
{
    let s = x + place + y;
    let n = x.len() as int;
    if occurs_at(s, other, k) {
        let sub = s.subrange(k, k + other.len());
        assert(sub[0] == s[k]);
        assert(sub[1] == s[k + 1]);
        assert(sub[d] == s[k + d]);
        if k < n {
            assert(x[k] == '{');
        } else if k == n {
            assert(s[k + d] == place[d]);
        } else if k + 1 < n + place.len() {
            assert(s[k + 1] == place[k + 1 - n]);
        } else {
            assert(s[k + 1] == y[k + 1 - n - place.len()]);
            assert(y.contains('{'));
        }
    }
}

} // verus!
