//! Verified text helpers: decimal rendering, byte-bounded prefixes and
//! string assembly.

use vstd::prelude::*;
use vstd::string::*;
use vstd::utf8::*;

verus! {

broadcast use vstd::utf8::encode_utf8_decode_utf8;

/// The character of a decimal digit.
pub open spec fn digit_char(d: nat) -> char {
    if d == 0 { '0' }
    else if d == 1 { '1' }
    else if d == 2 { '2' }
    else if d == 3 { '3' }
    else if d == 4 { '4' }
    else if d == 5 { '5' }
    else if d == 6 { '6' }
    else if d == 7 { '7' }
    else if d == 8 { '8' }
    else { '9' }
}

/// Decimal rendering of a natural number, without leading zeros.
pub open spec fn decimal(n: nat) -> Seq<char>
    decreases n,
{
    if n < 10 {
        seq![digit_char(n)]
    } else {
        decimal(n / 10).push(digit_char(n % 10))
    }
}

/// Decimal rendering of an integer, with a leading '-' when negative.
pub open spec fn signed_decimal(n: int) -> Seq<char> {
    if n < 0 {
        seq!['-'] + decimal((-n) as nat)
    } else {
        decimal(n as nat)
    }
}

/// The characters whose UTF-8 encoding is the first `n` bytes of `s`'s.
pub open spec fn byte_prefix(s: Seq<char>, n: int) -> Seq<char> {
    decode_utf8(encode_utf8(s).subrange(0, n))
}

/// The number of bytes in the UTF-8 encoding of `s`.
pub open spec fn byte_len(s: Seq<char>) -> int {
    encode_utf8(s).len() as int
}

/// `s` cut to at most `n` bytes may be taken without splitting a character.
pub open spec fn cut_ok(s: Seq<char>, n: int) -> bool {
    byte_len(s) > n ==> is_char_boundary(encode_utf8(s), n)
}

fn digit(d: u64) -> (c: char)
    requires
        d < 10,
    ensures
        c == digit_char(d as nat),
{
    if d == 0 { '0' }
    else if d == 1 { '1' }
    else if d == 2 { '2' }
    else if d == 3 { '3' }
    else if d == 4 { '4' }
    else if d == 5 { '5' }
    else if d == 6 { '6' }
    else if d == 7 { '7' }
    else if d == 8 { '8' }
    else { '9' }
}

/// The number of bytes in the UTF-8 encoding of `s`.
pub fn str_byte_len(s: &str) -> (r: usize)
    ensures
        r == byte_len(s@),
{
    s.as_bytes().len()
}

/// Appends one character to a string.
#[verifier::external_body]
pub fn push_char(s: &mut String, c: char)
    ensures
        final(s)@ == old(s)@.push(c),
{
    s.push(c);
}

/// A fresh string holding the characters of `s`.
pub fn owned(s: &str) -> (r: String)
    ensures
        r@ == s@,
{
    s.to_owned()
}

/// Decimal rendering of an unsigned number.
pub fn u64_to_decimal(n: u64) -> (r: String)
    ensures
        r@ == decimal(n as nat),
    decreases n,
{
    if n < 10 {
        let mut r = String::new();
        push_char(&mut r, digit(n));
        assert(r@ =~= decimal(n as nat));
        r
    } else {
        let mut r = u64_to_decimal(n / 10);
        push_char(&mut r, digit(n % 10));
        r
    }
}

/// Decimal rendering of a signed number.
pub fn i64_to_decimal(n: i64) -> (r: String)
    ensures
        r@ == signed_decimal(n as int),
{
    if n < 0 {
        let m: u64 = ((-(n + 1)) as u64) + 1;
        let mut r = String::new();
        push_char(&mut r, '-');
        let d = u64_to_decimal(m);
        r.append(d.as_str());
        assert(r@ =~= signed_decimal(n as int));
        r
    } else {
        u64_to_decimal(n as u64)
    }
}

/// The first `n` bytes of `s` as a string slice.
pub fn prefix_bytes(s: &str, n: usize) -> (r: &str)
    requires
        n <= byte_len(s@),
        is_char_boundary(encode_utf8(s@), n as int),
    ensures
        r@ == byte_prefix(s@, n as int),
{
    let (a, _b) = s.split_at(n);
    assert(a@ == decode_utf8(encode_utf8(a@)));
    a
}


/// Whether two string slices hold the same characters.
pub fn str_eq(a: &str, b: &str) -> (r: bool)
    ensures
        r == (a@ == b@),
{
    let x = chars_of(a);
    let y = chars_of(b);
    if x.len() != y.len() {
        return false;
    }
    let mut i: usize = 0;
    while i < x.len()
        invariant
            x@ == a@,
            y@ == b@,
            x@.len() == y@.len(),
            i <= x@.len(),
            forall|j: int| 0 <= j < i ==> x@[j] == y@[j],
        decreases x.len() - i,
    {
        if x[i] != y[i] {
            return false;
        }
        i = i + 1;
    }
    assert(a@ =~= b@);
    true
}

/// The characters of `s`, in order.
pub fn chars_of(s: &str) -> (r: Vec<char>)
    ensures
        r@ == s@,
{
    let mut r: Vec<char> = Vec::new();
    for c in it: s.chars()
        invariant
            r@ == it.seq().take(it.index() as int),
            it.seq() == s@,
    {
        r.push(c);
    }
    r
}


/// The characters `cs[0..n]` as a string.
pub fn string_of_chars(cs: &Vec<char>, n: usize) -> (r: String)
    requires
        n <= cs@.len(),
    ensures
        r@ == cs@.take(n as int),
{
    let mut r = String::new();
    let mut i: usize = 0;
    while i < n
        invariant
            i <= n <= cs@.len(),
            r@ == cs@.take(i as int),
        decreases n - i,
    {
        push_char(&mut r, cs[i]);
        assert(cs@.take(i + 1) =~= cs@.take(i as int).push(cs@[i as int]));
        i = i + 1;
    }
    r
}

/// Index of the last occurrence of `c` in `s`, if any.
pub open spec fn last_index_of(s: Seq<char>, c: char) -> Option<int>
    decreases s.len(),
{
    if s.len() == 0 {
        None
    } else if s.last() == c {
        Some(s.len() - 1)
    } else {
        last_index_of(s.drop_last(), c)
    }
}

/// Where the last `c` of `s` stands, if anywhere.
pub fn rfind_char(s: &Vec<char>, c: char) -> (r: Option<usize>)
    ensures
        match r {
            Some(i) => last_index_of(s@, c) == Some(i as int) && i < s@.len() && s@[i as int] == c,
            None => last_index_of(s@, c) is None,
        },
{
    let mut i: usize = s.len();
    assert(s@.take(s@.len() as int) =~= s@);
    while i > 0
        invariant
            i <= s@.len(),
            last_index_of(s@, c) == last_index_of(s@.take(i as int), c),
        decreases i,
    {
        assert(s@.take(i as int).drop_last() =~= s@.take(i - 1));
        if s[i - 1] == c {
            return Some(i - 1);
        }
        i = i - 1;
    }
    None
}

/// Unicode `White_Space` characters, the set that `char::is_whitespace` tests.
pub open spec fn is_whitespace(c: char) -> bool {
    let u = c as u32;
    ||| 0x9 <= u <= 0xd
    ||| u == 0x20
    ||| u == 0x85
    ||| u == 0xa0
    ||| u == 0x1680
    ||| 0x2000 <= u <= 0x200a
    ||| u == 0x2028
    ||| u == 0x2029
    ||| u == 0x202f
    ||| u == 0x205f
    ||| u == 0x3000
}

/// `s` without its leading whitespace.
pub open spec fn trim_start(s: Seq<char>) -> Seq<char>
    decreases s.len(),
{
    if s.len() > 0 && is_whitespace(s[0]) {
        trim_start(s.drop_first())
    } else {
        s
    }
}

/// `s` without its trailing whitespace.
pub open spec fn trim_end(s: Seq<char>) -> Seq<char>
    decreases s.len(),
{
    if s.len() > 0 && is_whitespace(s.last()) {
        trim_end(s.drop_last())
    } else {
        s
    }
}

/// `s` without leading and trailing whitespace.
pub open spec fn trim_ws(s: Seq<char>) -> Seq<char> {
    trim_end(trim_start(s))
}

/// `str::trim`: the slice without leading and trailing Unicode whitespace.
#[verifier::external_body]
pub fn trim(s: &str) -> (r: &str)
    ensures
        r@ == trim_ws(s@),
{
    s.trim()
}

/// `p` occurs in `s` at position `i`.
pub open spec fn occurs_at(s: Seq<char>, p: Seq<char>, i: int) -> bool {
    0 <= i && i + p.len() <= s.len() && s.subrange(i, i + p.len()) == p
}

/// `p` occurs somewhere in `s`.
pub open spec fn contains_seq(s: Seq<char>, p: Seq<char>) -> bool {
    exists|i: int| occurs_at(s, p, i)
}

/// `str::contains` with a string pattern.
#[verifier::external_body]
pub fn str_contains(s: &str, p: &str) -> (r: bool)
    ensures
        r == contains_seq(s@, p@),
{
    s.contains(p)
}

/// `p` is a prefix of `s`.
pub open spec fn has_prefix(s: Seq<char>, p: Seq<char>) -> bool {
    p.len() <= s.len() && s.subrange(0, p.len() as int) == p
}

/// Whether `s` begins with `p`.
pub fn starts_with(s: &str, p: &str) -> (r: bool)
    ensures
        r == has_prefix(s@, p@),
{
    let sc = chars_of(s);
    let pc = chars_of(p);
    if pc.len() > sc.len() {
        return false;
    }
    let mut i: usize = 0;
    while i < pc.len()
        invariant
            sc@ == s@,
            pc@ == p@,
            pc.len() <= sc.len(),
            i <= pc.len(),
            forall|j: int| 0 <= j < i ==> sc@[j] == pc@[j],
        decreases pc.len() - i,
    {
        if sc[i] != pc[i] {
            assert(s@.subrange(0, p@.len() as int)[i as int] != p@[i as int]);
            return false;
        }
        i = i + 1;
    }
    assert(s@.subrange(0, p@.len() as int) =~= p@);
    true
}

/// Index of the first occurrence of `c` in `s`, or `s.len()` when absent.
pub open spec fn first_index_of(s: Seq<char>, c: char) -> nat
    decreases s.len(),
{
    if s.len() == 0 {
        0
    } else if s[0] == c {
        0
    } else {
        1 + first_index_of(s.drop_first(), c)
    }
}

pub proof fn lemma_first_index_of(s: Seq<char>, c: char)
    ensures
        first_index_of(s, c) <= s.len(),
        first_index_of(s, c) < s.len() ==> s[first_index_of(s, c) as int] == c,
        forall|j: int| 0 <= j < first_index_of(s, c) ==> s[j] != c,
    decreases s.len(),
{
    if s.len() > 0 && s[0] != c {
        lemma_first_index_of(s.drop_first(), c);
        assert forall|j: int| 0 <= j < first_index_of(s, c) implies s[j] != c by {
            if j > 0 {
                assert(s[j] == s.drop_first()[j - 1]);
            }
        }
    }
}

/// A position that comes before every `c` of `s`, and holds `c` or is the
/// end, is the first index of `c`.
pub proof fn lemma_first_index_is(s: Seq<char>, c: char, k: int)
    requires
        0 <= k <= s.len(),
        forall|j: int| 0 <= j < k ==> s[j] != c,
        k == s.len() || s[k] == c,
    ensures
        first_index_of(s, c) == k,
    decreases k,
{
    if k > 0 {
        assert(s[0] != c);
        lemma_first_index_is(s.drop_first(), c, k - 1);
    }
}

/// The characters `cs[a..b]` as a string.
pub fn string_of_range(cs: &Vec<char>, a: usize, b: usize) -> (r: String)
    requires
        a <= b <= cs@.len(),
    ensures
        r@ == cs@.subrange(a as int, b as int),
{
    let mut r = String::new();
    let mut i: usize = a;
    while i < b
        invariant
            a <= i <= b <= cs@.len(),
            r@ == cs@.subrange(a as int, i as int),
        decreases b - i,
    {
        push_char(&mut r, cs[i]);
        assert(cs@.subrange(a as int, i + 1) =~= cs@.subrange(a as int, i as int).push(cs@[i as int]));
        i = i + 1;
    }
    r
}

/// The pieces of `s` between the occurrences of `c`, as `str::split` gives
/// them: empty pieces included, and one piece when `c` does not occur.
pub open spec fn split_on(s: Seq<char>, c: char) -> Seq<Seq<char>>
    decreases s.len(),
{
    let i = first_index_of(s, c);
    if i >= s.len() {
        seq![s]
    } else {
        proof { lemma_first_index_of(s, c); }
        seq![s.take(i as int)] + split_on(s.skip(i as int + 1), c)
    }
}

/// `str::split` on a character, computed: the pieces of `s` between the
/// occurrences of `c`.
pub fn split_char(s: &str, c: char) -> (r: Vec<String>)
    ensures
        views(r@) == split_on(s@, c),
{
    let cs = chars_of(s);
    let n = cs.len();
    let mut pieces: Vec<String> = Vec::new();
    let mut i: usize = 0;
    assert(s@.skip(0) =~= s@);
    assert(views(pieces@) + split_on(s@, c) =~= split_on(s@, c));
    loop
        invariant
            cs@ == s@,
            n == cs@.len(),
            i <= n,
            split_on(s@, c) == views(pieces@) + split_on(s@.skip(i as int), c),
        decreases n - i,
    {
        let mut j: usize = i;
        while j < n && cs[j] != c
            invariant
                i <= j <= n,
                n == cs@.len(),
                forall|k: int| i <= k < j ==> cs@[k] != c,
            decreases n - j,
        {
            j = j + 1;
        }
        let piece = string_of_range(&cs, i, j);
        let ghost rest = s@.skip(i as int);
        proof {
            assert forall|k: int| 0 <= k < j - i implies rest[k] != c by {
                assert(rest[k] == cs@[i + k]);
            }
            lemma_first_index_is(rest, c, j - i);
            assert(rest.take(j - i) =~= cs@.subrange(i as int, j as int));
        }
        let ghost before = pieces@;
        if j == n {
            pieces.push(piece);
            proof {
                assert(rest =~= cs@.subrange(i as int, j as int));
                assert(views(pieces@) =~= views(before) + split_on(rest, c));
            }
            return pieces;
        }
        pieces.push(piece);
        proof {
            assert(rest.skip(j - i + 1) =~= s@.skip(j + 1));
            assert(split_on(rest, c) == seq![rest.take(j - i)] + split_on(rest.skip(j - i + 1), c));
            assert(views(pieces@) =~= views(before).push(piece@));
            assert(views(before) + split_on(rest, c) =~= views(pieces@) + split_on(s@.skip(j + 1), c));
        }
        i = j + 1;
    }
}

/// `p` without one trailing carriage return.
pub open spec fn strip_cr(p: Seq<char>) -> Seq<char> {
    if p.len() > 0 && p.last() == '\r' {
        p.drop_last()
    } else {
        p
    }
}

/// The lines of `s` as `str::lines` yields them: split at each '\n', a '\r'
/// just before a '\n' dropped, and no empty line after a final '\n'.
pub open spec fn lines_of(s: Seq<char>) -> Seq<Seq<char>>
    decreases s.len(),
{
    if s.len() == 0 {
        seq![]
    } else {
        let i = first_index_of(s, '\n');
        if i >= s.len() {
            seq![s]
        } else {
            proof {
                lemma_first_index_of(s, '\n');
            }
            seq![strip_cr(s.take(i as int))] + lines_of(s.skip((i + 1) as int))
        }
    }
}

/// The characters of each string of a sequence.
pub open spec fn views(v: Seq<String>) -> Seq<Seq<char>> {
    v.map_values(|x: String| x@)
}

/// The characters of each string slice of a sequence.
pub open spec fn str_views(v: Seq<&str>) -> Seq<Seq<char>> {
    v.map_values(|x: &str| x@)
}

/// `str::lines`, collected.
#[verifier::external_body]
pub fn lines(s: &str) -> (r: Vec<&str>)
    ensures
        str_views(r@) == lines_of(s@),
{
    s.lines().collect()
}

/// The parts of `list` with `sep` between each two.
pub open spec fn join_seq(list: Seq<Seq<char>>, sep: Seq<char>) -> Seq<char>
    decreases list.len(),
{
    if list.len() == 0 {
        seq![]
    } else if list.len() == 1 {
        list[0]
    } else {
        join_seq(list.drop_last(), sep) + sep + list.last()
    }
}

/// Joins strings with a separator.
pub fn join(parts: &Vec<String>, sep: &str) -> (r: String)
    ensures
        r@ == join_seq(views(parts@), sep@),
{
    let mut r = String::new();
    let mut i: usize = 0;
    while i < parts.len()
        invariant
            i <= parts.len(),
            r@ == join_seq(views(parts@).take(i as int), sep@),
        decreases parts.len() - i,
    {
        if i > 0 {
            r.append(sep);
        }
        r.append(parts[i].as_str());
        assert(views(parts@).take(i + 1).drop_last() =~= views(parts@).take(i as int));
        i = i + 1;
    }
    assert(views(parts@).take(parts.len() as int) =~= views(parts@));
    r
}

/// Joins string slices with a separator.
pub fn join_strs(parts: &Vec<&str>, sep: &str) -> (r: String)
    ensures
        r@ == join_seq(str_views(parts@), sep@),
{
    let mut r = String::new();
    let mut i: usize = 0;
    while i < parts.len()
        invariant
            i <= parts.len(),
            r@ == join_seq(str_views(parts@).take(i as int), sep@),
        decreases parts.len() - i,
    {
        if i > 0 {
            r.append(sep);
        }
        r.append(parts[i]);
        assert(str_views(parts@).take(i + 1).drop_last() =~= str_views(parts@).take(i as int));
        i = i + 1;
    }
    assert(str_views(parts@).take(parts.len() as int) =~= str_views(parts@));
    r
}


/// Whether `char::is_alphanumeric` holds of `c` (Unicode Alphabetic or
/// numeric general category).
pub uninterp spec fn char_alphanumeric(c: char) -> bool;

/// An ASCII letter or digit.
pub open spec fn ascii_alphanumeric(c: char) -> bool {
    ||| 'a' <= c <= 'z'
    ||| 'A' <= c <= 'Z'
    ||| '0' <= c <= '9'
}

/// `char::is_alphanumeric`. Its documentation makes ASCII letters and
/// digits alphanumeric and no other ASCII character; for other characters
/// the result is left to the Unicode tables.
#[verifier::external_body]
pub fn is_alphanumeric(c: char) -> (r: bool)
    ensures
        r == char_alphanumeric(c),
        ascii_alphanumeric(c) ==> r,
        (c as u32) < 128 && !ascii_alphanumeric(c) ==> !r,
{
    c.is_alphanumeric()
}


/// `s` with every non-overlapping occurrence of `from`, taken from the
/// left, replaced by `to`; an empty `from` puts `to` before each character
/// and at the end.
pub open spec fn replace_all(s: Seq<char>, from: Seq<char>, to: Seq<char>) -> Seq<char>
    decreases s.len(),
{
    if from.len() == 0 {
        if s.len() == 0 {
            to
        } else {
            to + seq![s[0]] + replace_all(s.drop_first(), from, to)
        }
    } else if s.len() < from.len() {
        s
    } else if s.subrange(0, from.len() as int) == from {
        to + replace_all(s.skip(from.len() as int), from, to)
    } else {
        seq![s[0]] + replace_all(s.drop_first(), from, to)
    }
}

/// `str::replace` with string patterns.
#[verifier::external_body]
pub fn str_replace(s: &str, from: &str, to: &str) -> (r: String)
    ensures
        r@ == replace_all(s@, from@, to@),
{
    s.replace(from, to)
}

/// Byte-wise lexicographic order, the order of `String`'s `Ord`.
pub open spec fn bytes_le(a: Seq<u8>, b: Seq<u8>) -> bool
    decreases a.len(),
{
    if a.len() == 0 {
        true
    } else if b.len() == 0 {
        false
    } else if a[0] != b[0] {
        a[0] < b[0]
    } else {
        bytes_le(a.drop_first(), b.drop_first())
    }
}

/// `s` is in ascending `String` order.
pub open spec fn sorted_strings(s: Seq<Seq<char>>) -> bool {
    forall|i: int, j: int| 0 <= i < j < s.len() ==> bytes_le(encode_utf8(s[i]), encode_utf8(s[j]))
}

/// `slice::sort` on strings: the same strings, in ascending order.
#[verifier::external_body]
pub fn sort_strings(v: &mut Vec<String>)
    ensures
        views(final(v)@).to_multiset() == views(old(v)@).to_multiset(),
        views(final(v)@).len() == views(old(v)@).len(),
        sorted_strings(views(final(v)@)),
{
    v.sort();
}

} // verus!
