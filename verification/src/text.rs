//! Character-level text helpers: trimming, prefixes, decimal numbers.
//!
//! Strings are handled as sequences of `char`s (their view `s@`).
use vstd::prelude::*;

verus! {

/// Appends one character to a `String`.
/// Trusted: `String::push` appends the character at the end of the string.
#[verifier::external_body]
pub(crate) fn push_char(s: &mut String, c: char)
    ensures
        final(s)@ == old(s)@.push(c),
{
    s.push(c);
}

/// The characters of a string slice, in order.
pub fn chars_of(s: &str) -> (v: Vec<char>)
    ensures
        v@ == s@,
{
    let mut v: Vec<char> = Vec::new();
    for c in it: s.chars()
        invariant
            v@ == it.seq().take(it.index() as int),
            it.seq() == s@,
    {
        v.push(c);
    }
    v
}

/// A `String` holding exactly the given characters.
pub fn string_of(v: &Vec<char>) -> (s: String)
    ensures
        s@ == v@,
{
    let mut s = String::new();
    let mut i: usize = 0;
    while i < v.len()
        invariant
            i <= v.len(),
            s@ == v@.take(i as int),
        decreases v.len() - i,
    {
        push_char(&mut s, v[i]);
        assert(v@.take(i as int).push(v@[i as int]) =~= v@.take(i + 1));
        i = i + 1;
    }
    assert(v@.take(v.len() as int) =~= v@);
    s
}

/// Appends all characters of `tail` to `v`.
pub fn append_chars(v: &mut Vec<char>, tail: &Vec<char>)
    ensures
        final(v)@ == old(v)@ + tail@,
{
    let mut i: usize = 0;
    while i < tail.len()
        invariant
            i <= tail.len(),
            v@ == old(v)@ + tail@.take(i as int),
        decreases tail.len() - i,
    {
        v.push(tail[i]);
        assert(old(v)@ + tail@.take(i + 1) =~= (old(v)@ + tail@.take(i as int)).push(tail@[i as int]));
        i = i + 1;
    }
    assert(tail@.take(tail.len() as int) =~= tail@);
}

/// Appends all characters of the string slice `tail` to `v`.
pub fn append_str(v: &mut Vec<char>, tail: &str)
    ensures
        final(v)@ == old(v)@ + tail@,
{
    let t = chars_of(tail);
    append_chars(v, &t);
}

/// The concatenation of two strings.
pub fn concat2(a: &str, b: &str) -> (s: String)
    ensures
        s@ == a@ + b@,
{
    let mut v = chars_of(a);
    append_str(&mut v, b);
    string_of(&v)
}

/// Whether two strings hold the same text.
pub fn same_text(a: &String, b: &str) -> (r: bool)
    ensures
        r == (a@ == b@),
{
    let b2 = b.to_owned();
    *a == b2
}

/// Copy of an optional `String` with the same text.
pub fn copy_opt_string(s: &Option<String>) -> (r: Option<String>)
    ensures
        r == *s,
{
    match s {
        Some(t) => Some(t.clone()),
        None => None,
    }
}

/// The text of an optional string, as an optional sequence of characters.
pub open spec fn opt_text(s: Option<String>) -> Option<Seq<char>> {
    match s {
        Some(t) => Some(t@),
        None => None,
    }
}

// ---------------------------------------------------------------------------
// Whitespace and trimming
// ---------------------------------------------------------------------------

/// Unicode `White_Space` characters, the set that `char::is_whitespace` tests.
pub open spec fn is_white_space(c: char) -> bool {
    let u = c as u32;
    ||| 0x09 <= u <= 0x0D
    ||| u == 0x20
    ||| u == 0x85
    ||| u == 0xA0
    ||| u == 0x1680
    ||| 0x2000 <= u <= 0x200A
    ||| u == 0x2028
    ||| u == 0x2029
    ||| u == 0x202F
    ||| u == 0x205F
    ||| u == 0x3000
}

/// `s` without its leading white space.
pub open spec fn trim_start_seq(s: Seq<char>) -> Seq<char>
    decreases s.len(),
{
    if s.len() > 0 && is_white_space(s[0]) {
        trim_start_seq(s.drop_first())
    } else {
        s
    }
}

/// `s` without its trailing white space.
pub open spec fn trim_end_seq(s: Seq<char>) -> Seq<char>
    decreases s.len(),
{
    if s.len() > 0 && is_white_space(s.last()) {
        trim_end_seq(s.drop_last())
    } else {
        s
    }
}

/// `s` without leading and trailing white space (what `str::trim` returns).
pub open spec fn trim_seq(s: Seq<char>) -> Seq<char> {
    trim_end_seq(trim_start_seq(s))
}

/// `s` with every trailing `c` removed (what `str::trim_end_matches(c)` returns).
pub open spec fn trim_end_char_seq(s: Seq<char>, c: char) -> Seq<char>
    decreases s.len(),
{
    if s.len() > 0 && s.last() == c {
        trim_end_char_seq(s.drop_last(), c)
    } else {
        s
    }
}

/// Whether `c` is a Unicode white-space character.
pub fn is_white_space_char(c: char) -> (b: bool)
    ensures
        b == is_white_space(c),
{
    let u = c as u32;
    (0x09 <= u && u <= 0x0D) || u == 0x20 || u == 0x85 || u == 0xA0 || u == 0x1680 || (0x2000
        <= u && u <= 0x200A) || u == 0x2028 || u == 0x2029 || u == 0x202F || u == 0x205F || u
        == 0x3000
}

/// The characters `v[from..to]`.
pub fn slice_chars(v: &Vec<char>, from: usize, to: usize) -> (r: Vec<char>)
    requires
        from <= to <= v.len(),
    ensures
        r@ == v@.subrange(from as int, to as int),
{
    let mut r: Vec<char> = Vec::new();
    let mut i = from;
    while i < to
        invariant
            from <= i <= to <= v.len(),
            r@ == v@.subrange(from as int, i as int),
        decreases to - i,
    {
        r.push(v[i]);
        assert(v@.subrange(from as int, i + 1) =~= v@.subrange(from as int, i as int).push(
            v@[i as int],
        ));
        i = i + 1;
    }
    r
}

proof fn lemma_trim_start_skip(s: Seq<char>, i: int)
    requires
        0 <= i < s.len(),
        is_white_space(s[i]),
    ensures
        trim_start_seq(s.skip(i)) == trim_start_seq(s.skip(i + 1)),
{
    assert(s.skip(i).drop_first() =~= s.skip(i + 1));
}

proof fn lemma_trim_end_sub(s: Seq<char>, i: int, j: int)
    requires
        0 <= i < j <= s.len(),
        is_white_space(s[j - 1]),
    ensures
        trim_end_seq(s.subrange(i, j)) == trim_end_seq(s.subrange(i, j - 1)),
{
    assert(s.subrange(i, j).drop_last() =~= s.subrange(i, j - 1));
}

/// `v` without leading and trailing white space.
pub fn trim_chars(v: &Vec<char>) -> (r: Vec<char>)
    ensures
        r@ == trim_seq(v@),
{
    let n = v.len();
    let mut i: usize = 0;
    assert(v@.skip(0) =~= v@);
    while i < n && is_white_space_char(v[i])
        invariant
            i <= n == v.len(),
            trim_start_seq(v@) == trim_start_seq(v@.skip(i as int)),
        decreases n - i,
    {
        proof {
            lemma_trim_start_skip(v@, i as int);
        }
        i = i + 1;
    }
    assert(trim_start_seq(v@.skip(i as int)) == v@.skip(i as int));
    assert(v@.skip(i as int) =~= v@.subrange(i as int, n as int));
    let mut j: usize = n;
    while j > i && is_white_space_char(v[j - 1])
        invariant
            i <= j <= n == v.len(),
            trim_seq(v@) == trim_end_seq(v@.subrange(i as int, j as int)),
        decreases j - i,
    {
        proof {
            lemma_trim_end_sub(v@, i as int, j as int);
        }
        j = j - 1;
    }
    assert(trim_end_seq(v@.subrange(i as int, j as int)) == v@.subrange(i as int, j as int));
    slice_chars(v, i, j)
}

proof fn lemma_trim_end_char_sub(s: Seq<char>, c: char, j: int)
    requires
        0 < j <= s.len(),
        s[j - 1] == c,
    ensures
        trim_end_char_seq(s.take(j), c) == trim_end_char_seq(s.take(j - 1), c),
{
    assert(s.take(j).drop_last() =~= s.take(j - 1));
}

/// `v` with every trailing `c` removed.
pub fn trim_end_char(v: &Vec<char>, c: char) -> (r: Vec<char>)
    ensures
        r@ == trim_end_char_seq(v@, c),
{
    let mut j: usize = v.len();
    assert(v@.take(j as int) =~= v@);
    while j > 0 && v[j - 1] == c
        invariant
            j <= v.len(),
            trim_end_char_seq(v@, c) == trim_end_char_seq(v@.take(j as int), c),
        decreases j,
    {
        proof {
            lemma_trim_end_char_sub(v@, c, j as int);
        }
        j = j - 1;
    }
    assert(trim_end_char_seq(v@.take(j as int), c) == v@.take(j as int));
    assert(v@.take(j as int) =~= v@.subrange(0, j as int));
    slice_chars(v, 0, j)
}

/// The text of `s` without leading and trailing white space.
pub fn trim_str(s: &str) -> (r: String)
    ensures
        r@ == trim_seq(s@),
{
    let v = chars_of(s);
    let t = trim_chars(&v);
    string_of(&t)
}

/// Whether `s` holds nothing but white space (what `s.trim().is_empty()` tests).
pub fn is_blank(s: &str) -> (b: bool)
    ensures
        b == (trim_seq(s@).len() == 0),
{
    let v = chars_of(s);
    trim_chars(&v).len() == 0
}

// ---------------------------------------------------------------------------
// Prefixes, suffixes, searching, replacing
// ---------------------------------------------------------------------------

/// Whether `p` is a prefix of `v`.
pub fn has_prefix(v: &Vec<char>, p: &Vec<char>) -> (b: bool)
    ensures
        b == p@.is_prefix_of(v@),
{
    if p.len() > v.len() {
        return false;
    }
    let mut i: usize = 0;
    while i < p.len()
        invariant
            p.len() <= v.len(),
            i <= p.len(),
            forall|k: int| 0 <= k < i ==> p@[k] == v@[k],
        decreases p.len() - i,
    {
        if p[i] != v[i] {
            return false;
        }
        i = i + 1;
    }
    assert(p@ =~= v@.subrange(0, p@.len() as int));
    true
}

/// Whether `p` is a suffix of `s`.
pub open spec fn is_suffix(p: Seq<char>, s: Seq<char>) -> bool {
    p.len() <= s.len() && s.subrange(s.len() - p.len(), s.len() as int) == p
}

/// Whether `p` is a suffix of `v`.
pub fn has_suffix(v: &Vec<char>, p: &Vec<char>) -> (b: bool)
    ensures
        b == is_suffix(p@, v@),
{
    if p.len() > v.len() {
        return false;
    }
    let off = v.len() - p.len();
    let mut i: usize = 0;
    while i < p.len()
        invariant
            p.len() <= v.len(),
            off == v.len() - p.len(),
            i <= p.len(),
            forall|k: int| 0 <= k < i ==> p@[k] == v@[off + k],
        decreases p.len() - i,
    {
        if p[i] != v[off + i] {
            assert(v@.subrange(off as int, v@.len() as int)[i as int] != p@[i as int]);
            return false;
        }
        i = i + 1;
    }
    assert(v@.subrange(off as int, v@.len() as int) =~= p@);
    true
}

/// Whether `c` occurs in `v`.
pub fn contains_char(v: &Vec<char>, c: char) -> (b: bool)
    ensures
        b == v@.contains(c),
{
    let mut i: usize = 0;
    while i < v.len()
        invariant
            i <= v.len(),
            forall|k: int| 0 <= k < i ==> v@[k] != c,
        decreases v.len() - i,
    {
        if v[i] == c {
            return true;
        }
        i = i + 1;
    }
    false
}

/// Whether `p` occurs in `s` as a contiguous run of characters.
pub open spec fn has_infix(s: Seq<char>, p: Seq<char>) -> bool {
    exists|i: int| 0 <= i <= s.len() - p.len() && #[trigger] s.subrange(i, i + p.len()) == p
}

/// Whether `p` occurs in `v` as a contiguous run of characters.
pub fn contains_chars(v: &Vec<char>, p: &Vec<char>) -> (b: bool)
    ensures
        b == has_infix(v@, p@),
{
    if p.len() > v.len() {
        return false;
    }
    if p.len() == 0 {
        assert(v@.subrange(0, 0 + p@.len() as int) =~= p@);
        return true;
    }
    let last = v.len() - p.len();
    let mut i: usize = 0;
    while i <= last
        invariant
            0 < p.len() <= v.len(),
            last == v.len() - p.len(),
            i <= last + 1,
            forall|k: int| 0 <= k < i ==> #[trigger] v@.subrange(k, k + p@.len()) != p@,
        decreases last + 1 - i,
    {
        let mut j: usize = 0;
        let mut ok = true;
        while j < p.len()
            invariant
                p.len() <= v.len(),
                i <= last == v.len() - p.len(),
                j <= p.len(),
                ok ==> forall|k: int| 0 <= k < j ==> p@[k] == v@[i + k],
                !ok ==> v@.subrange(i as int, i + p@.len()) != p@,
            decreases p.len() - j,
        {
            if ok && p[j] != v[i + j] {
                ok = false;
                assert(v@.subrange(i as int, i + p@.len())[j as int] != p@[j as int]);
            }
            j = j + 1;
        }
        if ok {
            assert(v@.subrange(i as int, i + p@.len()) =~= p@);
            return true;
        }
        i = i + 1;
    }
    false
}

/// `s` with every `from` replaced by `to`.
pub open spec fn replace_char_seq(s: Seq<char>, from: char, to: char) -> Seq<char> {
    s.map_values(|c: char| if c == from { to } else { c })
}

/// `v` with every `from` replaced by `to`.
pub fn replace_char(v: &Vec<char>, from: char, to: char) -> (r: Vec<char>)
    ensures
        r@ == replace_char_seq(v@, from, to),
{
    let mut r: Vec<char> = Vec::new();
    let mut i: usize = 0;
    while i < v.len()
        invariant
            i <= v.len(),
            r@ == replace_char_seq(v@.take(i as int), from, to),
        decreases v.len() - i,
    {
        let c = v[i];
        if c == from {
            r.push(to);
        } else {
            r.push(c);
        }
        assert(replace_char_seq(v@.take(i + 1), from, to) =~= replace_char_seq(
            v@.take(i as int),
            from,
            to,
        ).push(if c == from { to } else { c }));
        i = i + 1;
    }
    assert(v@.take(v.len() as int) =~= v@);
    r
}

// ---------------------------------------------------------------------------
// Decimal numbers
// ---------------------------------------------------------------------------

/// The decimal digit character for `d` (`'0'` to `'9'`).
pub open spec fn digit_char(d: nat) -> char {
    if d == 0 {
        '0'
    } else if d == 1 {
        '1'
    } else if d == 2 {
        '2'
    } else if d == 3 {
        '3'
    } else if d == 4 {
        '4'
    } else if d == 5 {
        '5'
    } else if d == 6 {
        '6'
    } else if d == 7 {
        '7'
    } else if d == 8 {
        '8'
    } else {
        '9'
    }
}

/// The decimal representation of `n`, without sign or leading zeros (as `to_string` writes it).
pub open spec fn decimal(n: nat) -> Seq<char>
    decreases n,
{
    if n < 10 {
        seq![digit_char(n)]
    } else {
        decimal(n / 10).push(digit_char(n % 10))
    }
}

fn digit_of(d: u64) -> (c: char)
    requires
        d < 10,
    ensures
        c == digit_char(d as nat),
{
    if d == 0 {
        '0'
    } else if d == 1 {
        '1'
    } else if d == 2 {
        '2'
    } else if d == 3 {
        '3'
    } else if d == 4 {
        '4'
    } else if d == 5 {
        '5'
    } else if d == 6 {
        '6'
    } else if d == 7 {
        '7'
    } else if d == 8 {
        '8'
    } else {
        '9'
    }
}

/// The decimal digits of `n`.
pub fn decimal_chars(n: u64) -> (v: Vec<char>)
    ensures
        v@ == decimal(n as nat),
    decreases n,
{
    if n < 10 {
        let mut v: Vec<char> = Vec::new();
        v.push(digit_of(n));
        assert(v@ =~= seq![digit_char(n as nat)]);
        v
    } else {
        let mut v = decimal_chars(n / 10);
        v.push(digit_of(n % 10));
        v
    }
}

/// The decimal representation of `n` as a `String`.
pub fn u64_to_string(n: u64) -> (s: String)
    ensures
        s@ == decimal(n as nat),
{
    let v = decimal_chars(n);
    string_of(&v)
}

/// Why text is not an unsigned integer (the kinds that `u64::from_str` reports).
#[derive(Debug, Clone, Copy, PartialEq, Eq, Structural)]
pub enum IntParseError {
    /// The text is empty.
    Empty,
    /// A character is not a decimal digit (or the text is a lone sign).
    InvalidDigit,
    /// The value does not fit in a `u64`.
    PosOverflow,
}

/// Whether `c` is one of `'0'` to `'9'`.
pub open spec fn is_ascii_digit(c: char) -> bool {
    48 <= (c as u32) <= 57
}

/// The value of the decimal digit `c`.
pub open spec fn digit_value(c: char) -> nat {
    ((c as u32) - 48) as nat
}

/// Reads the decimal digits `d[i..]` on top of the value `acc` of those before them,
/// left to right: the first character that is no digit gives `InvalidDigit`, the first
/// digit that makes the value exceed `u64::MAX` gives `PosOverflow`.
pub open spec fn read_digits(d: Seq<char>, i: int, acc: nat) -> Result<u64, IntParseError>
    decreases d.len() - i,
{
    if i < 0 || i >= d.len() {
        if acc <= u64::MAX {
            Ok(acc as u64)
        } else {
            Err(IntParseError::PosOverflow)
        }
    } else if !is_ascii_digit(d[i]) {
        Err(IntParseError::InvalidDigit)
    } else if acc * 10 + digit_value(d[i]) > u64::MAX {
        Err(IntParseError::PosOverflow)
    } else {
        read_digits(d, i + 1, acc * 10 + digit_value(d[i]))
    }
}

/// What `str::parse::<u64>` gives for the text `s`: an optional leading `+`, then at
/// least one decimal digit.
pub open spec fn parse_u64_spec(s: Seq<char>) -> Result<u64, IntParseError> {
    if s.len() == 0 {
        Err(IntParseError::Empty)
    } else if s[0] == '+' {
        if s.len() == 1 {
            Err(IntParseError::InvalidDigit)
        } else {
            read_digits(s, 1, 0)
        }
    } else {
        read_digits(s, 0, 0)
    }
}

/// `digit_char(d)` is the ASCII digit whose value is `d`.
proof fn lemma_digit_char(d: nat)
    requires
        d < 10,
    ensures
        is_ascii_digit(digit_char(d)),
        digit_value(digit_char(d)) == d,
{
}

/// `decimal(n)` is a non-empty run of ASCII digits.
pub proof fn lemma_decimal_digits(n: nat)
    ensures
        decimal(n).len() > 0,
        forall|i: int| 0 <= i < decimal(n).len() ==> is_ascii_digit(#[trigger] decimal(n)[i]),
    decreases n,
{
    lemma_digit_char(n % 10);
    if n >= 10 {
        lemma_decimal_digits(n / 10);
    }
}

/// Reading one more digit multiplies the value read so far by ten and adds the digit.
proof fn lemma_read_digits_push(s: Seq<char>, c: char, i: int, acc: nat)
    requires
        0 <= i <= s.len(),
        is_ascii_digit(c),
        read_digits(s, i, acc) is Ok,
    ensures
        read_digits(s.push(c), i, acc) == (if read_digits(s, i, acc)->Ok_0 * 10 + digit_value(c)
            <= u64::MAX {
            Ok((read_digits(s, i, acc)->Ok_0 * 10 + digit_value(c)) as u64)
        } else {
            Err(IntParseError::PosOverflow)
        }),
    decreases s.len() - i,
{
    let t = s.push(c);
    if i == s.len() {
        assert(t[i] == c);
        if acc * 10 + digit_value(c) <= u64::MAX {
            assert(read_digits(t, i + 1, acc * 10 + digit_value(c)) == Ok::<u64, IntParseError>(
                (acc * 10 + digit_value(c)) as u64,
            ));
        }
    } else {
        assert(t[i] == s[i]);
        lemma_read_digits_push(s, c, i + 1, acc * 10 + digit_value(s[i]));
    }
}

/// The decimal text of a number reads back as that number.
pub proof fn lemma_decimal_reads_back(n: nat)
    requires
        n <= u64::MAX,
    ensures
        read_digits(decimal(n), 0, 0) == Ok::<u64, IntParseError>(n as u64),
    decreases n,
{
    lemma_digit_char(n % 10);
    if n < 10 {
        assert(decimal(n) =~= Seq::<char>::empty().push(digit_char(n)));
        assert(read_digits(Seq::<char>::empty(), 0, 0) == Ok::<u64, IntParseError>(0));
        lemma_read_digits_push(Seq::<char>::empty(), digit_char(n), 0, 0);
    } else {
        lemma_decimal_reads_back(n / 10);
        lemma_read_digits_push(decimal(n / 10), digit_char(n % 10), 0, 0);
    }
}

/// Written with `to_string` and read back with `trim` and `parse`, a `u64` is unchanged.
pub proof fn law_decimal_round_trip(n: u64)
    ensures
        parse_u64_spec(trim_seq(decimal(n as nat))) == Ok::<u64, IntParseError>(n),
{
    let d = decimal(n as nat);
    lemma_decimal_digits(n as nat);
    assert(is_ascii_digit(d[0]));
    assert(is_ascii_digit(d.last()));
    assert(trim_start_seq(d) == d);
    assert(trim_end_seq(d) == d);
    lemma_decimal_reads_back(n as nat);
}

/// Parses the text `v` as a `u64`.
pub fn parse_u64_chars(v: &Vec<char>) -> (r: Result<u64, IntParseError>)
    ensures
        r == parse_u64_spec(v@),
{
    if v.len() == 0 {
        return Err(IntParseError::Empty);
    }
    let mut i: usize = 0;
    if v[0] == '+' {
        if v.len() == 1 {
            return Err(IntParseError::InvalidDigit);
        }
        i = 1;
    }
    let start = i;
    let mut acc: u64 = 0;
    while i < v.len()
        invariant
            start <= i <= v.len(),
            start == 0 || start == 1,
            v.len() > 0,
            start == 1 <==> v@[0] == '+',
            start == 1 ==> v.len() > 1,
            parse_u64_spec(v@) == read_digits(v@, i as int, acc as nat),
        decreases v.len() - i,
    {
        let c = v[i];
        let u = c as u32;
        if !(48 <= u && u <= 57) {
            return Err(IntParseError::InvalidDigit);
        }
        let d = (u - 48) as u64;
        if acc > (u64::MAX - d) / 10 {
            assert(acc * 10 + d > u64::MAX) by (nonlinear_arith)
                requires
                    acc > (u64::MAX - d) / 10,
                    d <= 9,
            ;
            return Err(IntParseError::PosOverflow);
        }
        assert(acc * 10 + d <= u64::MAX) by (nonlinear_arith)
            requires
                acc <= (u64::MAX - d) / 10,
                d <= 9,
        ;
        acc = acc * 10 + d;
        i = i + 1;
    }
    Ok(acc)
}

/// Parses the text `s` as a `u64`.
pub fn parse_u64(s: &str) -> (r: Result<u64, IntParseError>)
    ensures
        r == parse_u64_spec(s@),
{
    let v = chars_of(s);
    parse_u64_chars(&v)
}

/// The message of each kind of integer parse error.
pub open spec fn parse_error_text(e: IntParseError) -> Seq<char> {
    match e {
        IntParseError::Empty => "cannot parse integer from empty string"@,
        IntParseError::InvalidDigit => "invalid digit found in string"@,
        IntParseError::PosOverflow => "number too large to fit in target type"@,
    }
}

/// The message that `ParseIntError`'s `Display` writes for each kind.
pub fn int_parse_error_message(e: IntParseError) -> (s: &'static str)
    ensures
        s@ == parse_error_text(e),
{
    match e {
        IntParseError::Empty => "cannot parse integer from empty string",
        IntParseError::InvalidDigit => "invalid digit found in string",
        IntParseError::PosOverflow => "number too large to fit in target type",
    }
}

// ---------------------------------------------------------------------------
// Joining
// ---------------------------------------------------------------------------

/// The texts of the items, with `sep` between each two.
pub open spec fn join_seq(items: Seq<Seq<char>>, sep: Seq<char>) -> Seq<char>
    decreases items.len(),
{
    if items.len() == 0 {
        Seq::<char>::empty()
    } else if items.len() == 1 {
        items[0]
    } else {
        join_seq(items.drop_last(), sep) + sep + items.last()
    }
}

/// The texts of a list of strings.
pub open spec fn texts_of(v: Seq<String>) -> Seq<Seq<char>> {
    v.map_values(|s: String| s@)
}

/// The strings, with `sep` between each two.
pub fn join_strings(items: &Vec<String>, sep: &str) -> (r: String)
    ensures
        r@ == join_seq(texts_of(items@), sep@),
{
    let sep_chars = chars_of(sep);
    let mut v: Vec<char> = Vec::new();
    let mut i: usize = 0;
    while i < items.len()
        invariant
            i <= items.len(),
            sep_chars@ == sep@,
            v@ == join_seq(texts_of(items@).take(i as int), sep@),
        decreases items.len() - i,
    {
        let item = chars_of(items[i].as_str());
        if i != 0 {
            append_chars(&mut v, &sep_chars);
        }
        append_chars(&mut v, &item);
        assert(texts_of(items@).take(i + 1).drop_last() =~= texts_of(items@).take(i as int));
        assert(texts_of(items@).take(i + 1).last() == items@[i as int]@);
        if i == 0 {
            assert(v@ =~= join_seq(texts_of(items@).take(1), sep@));
        }
        i = i + 1;
    }
    assert(texts_of(items@).take(items.len() as int) =~= texts_of(items@));
    string_of(&v)
}

// ---------------------------------------------------------------------------
// Padding
// ---------------------------------------------------------------------------

/// `n` spaces.
pub open spec fn spaces(n: nat) -> Seq<char> {
    Seq::new(n, |i: int| ' ')
}

/// `s` left-aligned in a field of `width` characters (what `{:<width}` writes).
pub open spec fn pad_right(s: Seq<char>, width: nat) -> Seq<char> {
    if s.len() < width {
        s + spaces((width - s.len()) as nat)
    } else {
        s
    }
}

/// Appends `s` left-aligned in a field of `width` characters.
pub fn append_padded(v: &mut Vec<char>, s: &Vec<char>, width: usize)
    ensures
        final(v)@ == old(v)@ + pad_right(s@, width as nat),
{
    append_chars(v, s);
    if s.len() < width {
        let n = width - s.len();
        let ghost mid = v@;
        let mut i: usize = 0;
        while i < n
            invariant
                i <= n,
                v@ == mid + spaces(i as nat),
            decreases n - i,
        {
            v.push(' ');
            assert(spaces((i + 1) as nat) =~= spaces(i as nat).push(' '));
            i = i + 1;
        }
        assert(old(v)@ + pad_right(s@, width as nat) =~= old(v)@ + s@ + spaces(n as nat));
    } else {
        assert(pad_right(s@, width as nat) == s@);
    }
}

// ---------------------------------------------------------------------------
// Splitting
// ---------------------------------------------------------------------------

/// `s` cut at every `c` (what `str::split(c)` yields): an empty text gives one empty piece.
pub open spec fn split_on(s: Seq<char>, c: char) -> Seq<Seq<char>>
    decreases s.len(),
{
    if s.len() == 0 {
        seq![Seq::<char>::empty()]
    } else {
        let rest = split_on(s.drop_last(), c);
        if s.last() == c {
            rest.push(Seq::<char>::empty())
        } else {
            rest.update(rest.len() - 1, rest.last().push(s.last()))
        }
    }
}

proof fn lemma_split_nonempty(s: Seq<char>, c: char)
    ensures
        split_on(s, c).len() >= 1,
    decreases s.len(),
{
    if s.len() > 0 {
        lemma_split_nonempty(s.drop_last(), c);
    }
}

/// The pieces of `v` between the occurrences of `c`.
pub fn split_on_char(v: &Vec<char>, c: char) -> (parts: Vec<Vec<char>>)
    ensures
        parts@.map_values(|p: Vec<char>| p@) == split_on(v@, c),
{
    let mut done: Vec<Vec<char>> = Vec::new();
    let mut cur: Vec<char> = Vec::new();
    let mut i: usize = 0;
    assert(v@.take(0) =~= Seq::<char>::empty());
    while i < v.len()
        invariant
            i <= v.len(),
            split_on(v@.take(i as int), c) == done@.map_values(|p: Vec<char>| p@).push(cur@),
        decreases v.len() - i,
    {
        let x = v[i];
        assert(v@.take(i + 1).drop_last() =~= v@.take(i as int));
        proof {
            lemma_split_nonempty(v@.take(i as int), c);
        }
        if x == c {
            let ghost prev = done@;
            let ghost piece = cur@;
            let mut fresh: Vec<char> = Vec::new();
            std::mem::swap(&mut fresh, &mut cur);
            done.push(fresh);
            assert(done@.map_values(|p: Vec<char>| p@) =~= prev.map_values(|p: Vec<char>| p@).push(piece));
            assert(split_on(v@.take(i + 1), c) =~= done@.map_values(|p: Vec<char>| p@).push(cur@));
        } else {
            cur.push(x);
            assert(split_on(v@.take(i + 1), c) =~= done@.map_values(|p: Vec<char>| p@).push(cur@));
        }
        i = i + 1;
    }
    assert(v@.take(v.len() as int) =~= v@);
    let ghost prev = done@;
    let ghost last = cur@;
    done.push(cur);
    assert(done@.map_values(|p: Vec<char>| p@) =~= prev.map_values(|p: Vec<char>| p@).push(last));
    done
}

/// The runs of characters between white space (what `str::split_whitespace` yields).
pub open spec fn words(s: Seq<char>) -> Seq<Seq<char>>
    decreases s.len(),
{
    if s.len() == 0 {
        Seq::empty()
    } else {
        let w = words(s.drop_last());
        let c = s.last();
        if is_white_space(c) {
            w
        } else if s.len() >= 2 && !is_white_space(s[s.len() - 2]) {
            w.update(w.len() - 1, w.last().push(c))
        } else {
            w.push(seq![c])
        }
    }
}

/// The white-space separated words of `v`.
pub fn words_of(v: &Vec<char>) -> (ws: Vec<Vec<char>>)
    ensures
        ws@.map_values(|p: Vec<char>| p@) == words(v@),
{
    let mut ws: Vec<Vec<char>> = Vec::new();
    let mut i: usize = 0;
    assert(v@.take(0) =~= Seq::<char>::empty());
    while i < v.len()
        invariant
            i <= v.len(),
            ws@.map_values(|p: Vec<char>| p@) == words(v@.take(i as int)),
            i > 0 && !is_white_space(v@[i - 1]) ==> ws@.len() >= 1,
        decreases v.len() - i,
    {
        let x = v[i];
        let ghost t = v@.take(i + 1);
        assert(t.drop_last() =~= v@.take(i as int));
        let ghost prev = ws@;
        if is_white_space_char(x) {
        } else if i >= 1 && !is_white_space_char(v[i - 1]) {
            assert(t[t.len() - 2] == v@[i - 1]);
            let last = ws.len() - 1;
            let mut w: Vec<Vec<char>> = Vec::new();
            std::mem::swap(&mut w, &mut ws);
            let mut piece = w.remove(last);
            piece.push(x);
            w.push(piece);
            ws = w;
            assert(ws@.map_values(|p: Vec<char>| p@) =~= words(t));
        } else {
            let mut piece: Vec<char> = Vec::new();
            piece.push(x);
            ws.push(piece);
            assert(ws@.map_values(|p: Vec<char>| p@) =~= words(t));
        }
        i = i + 1;
    }
    assert(v@.take(v.len() as int) =~= v@);
    ws
}

/// What `str::parse::<u32>().ok()` gives: the value when the text is a decimal number
/// (optionally signed `+`) that fits in a `u32`.
pub open spec fn parse_u32_spec(s: Seq<char>) -> Option<u32> {
    match parse_u64_spec(s) {
        Ok(v) => if v <= u32::MAX {
            Some(v as u32)
        } else {
            None
        },
        Err(_) => None,
    }
}

/// Parses the text `v` as a `u32`.
pub fn parse_u32_chars(v: &Vec<char>) -> (r: Option<u32>)
    ensures
        r == parse_u32_spec(v@),
{
    match parse_u64_chars(v) {
        Ok(n) => if n <= 0xffff_ffff {
            Some(n as u32)
        } else {
            None
        },
        Err(_) => None,
    }
}

} // verus!
