//! Strings as sequences of characters: decimal numbers, splitting, trimming and lines.

use vstd::prelude::*;
use vstd::string::StringExecFns;

verus! {

/// `String::push` appends one character at the end.
pub assume_specification[ String::push ](s: &mut String, ch: char)
    ensures
        final(s)@ == old(s)@.push(ch),
;

/// The number of bytes of the UTF-8 form of `s`.
pub open spec fn byte_len(s: Seq<char>) -> nat {
    vstd::utf8::encode_utf8(s).len()
}

/// The number of bytes of the UTF-8 form of `s`.
pub fn str_byte_len(s: &str) -> (n: usize)
    ensures
        n == byte_len(s@),
{
    s.as_bytes().len()
}

/// The characters of `s`, in order.
pub fn to_chars(s: &str) -> (v: Vec<char>)
    ensures
        v@ == s@,
{
    let mut v: Vec<char> = Vec::new();
    for c in it: s.chars()
        invariant
            it.seq() == s@,
            v@ == s@.take(it.index() as int),
    {
        v.push(c);
    }
    assert(s@.take(s@.len() as int) == s@);
    v
}

/// The string with the characters of `v`.
pub fn from_chars(v: &[char]) -> (s: String)
    ensures
        s@ == v@,
{
    let mut s = String::new();
    let mut i: usize = 0;
    while i < v.len()
        invariant
            i <= v@.len(),
            s@ == v@.take(i as int),
        decreases v@.len() - i,
    {
        s.push(v[i]);
        i += 1;
        assert(v@.take(i as int) == v@.take(i - 1).push(v@[i - 1]));
    }
    assert(v@.take(i as int) == v@);
    s
}

/// Whether two strings hold the same characters.
pub fn str_eq(a: &str, b: &str) -> (r: bool)
    ensures
        r == (a@ == b@),
{
    let x = to_chars(a);
    let y = to_chars(b);
    if x.len() != y.len() {
        return false;
    }
    let mut i: usize = 0;
    while i < x.len()
        invariant
            x@ == a@,
            y@ == b@,
            x@.len() == y@.len(),
            i <= x@.len(),
            forall|j: int| 0 <= j < i ==> x@[j] == y@[j],
        decreases x@.len() - i,
    {
        if x[i] != y[i] {
            return false;
        }
        i += 1;
    }
    assert(a@ == b@);
    true
}

// ---------------------------------------------------------------------------
// Decimal numbers
// ---------------------------------------------------------------------------

/// The character of the decimal digit `d`.
pub open spec fn digit_char(d: int) -> char {
    (48 + d) as char
}

/// The decimal digits of `n`, most significant first, without leading zeros.
pub open spec fn decimal(n: nat) -> Seq<char>
    decreases n,
{
    if n < 10 {
        seq![digit_char(n as int)]
    } else {
        decimal(n / 10).push(digit_char((n % 10) as int))
    }
}

/// The decimal form of an integer, with a minus sign where it is negative.
pub open spec fn signed_decimal(n: int) -> Seq<char> {
    if n < 0 {
        seq!['-'] + decimal((-n) as nat)
    } else {
        decimal(n as nat)
    }
}

/// Appends the decimal digits of `n`.
pub fn push_u64(out: &mut String, n: u64)
    ensures
        final(out)@ == old(out)@ + decimal(n as nat),
    decreases n,
{
    if n >= 10 {
        push_u64(out, n / 10);
    }
    let d: u8 = (n % 10) as u8;
    let c: char = (48u8 + d) as char;
    out.push(c);
}

/// Appends the decimal form of `n`.
pub fn push_i64(out: &mut String, n: i64)
    ensures
        final(out)@ == old(out)@ + signed_decimal(n as int),
{
    if n < 0 {
        out.push('-');
        if n == i64::MIN {
            push_u64(out, 9_223_372_036_854_775_808u64);
        } else {
            push_u64(out, (-n) as u64);
        }
        assert(out@ == old(out)@ + (seq!['-'] + decimal((-n) as nat)));
    } else {
        push_u64(out, n as u64);
    }
}

/// Appends the decimal digits of `n`.
pub fn push_usize(out: &mut String, n: usize)
    ensures
        final(out)@ == old(out)@ + decimal(n as nat),
{
    push_u64(out, n as u64);
}

/// The decimal digits of `n` as a string.
pub fn u64_to_string(n: u64) -> (s: String)
    ensures
        s@ == decimal(n as nat),
{
    let mut s = String::new();
    push_u64(&mut s, n);
    s
}

/// Why a text is no unsigned number.
#[derive(Clone, Copy, Debug, PartialEq, Eq, Structural)]
pub enum IntFault {
    /// The text is empty.
    Empty,
    /// A character is no decimal digit.
    InvalidDigit,
    /// The number is above `u64::MAX`.
    TooLarge,
}

impl IntFault {
    /// The sentence that describes the fault.
    pub open spec fn text(self) -> Seq<char> {
        match self {
            IntFault::Empty => "cannot parse integer from empty string"@,
            IntFault::InvalidDigit => "invalid digit found in string"@,
            IntFault::TooLarge => "number too large to fit in target type"@,
        }
    }

    /// The sentence that describes the fault.
    pub fn message(&self) -> (s: &'static str)
        ensures
            s@ == self.text(),
    {
        match self {
            IntFault::Empty => "cannot parse integer from empty string",
            IntFault::InvalidDigit => "invalid digit found in string",
            IntFault::TooLarge => "number too large to fit in target type",
        }
    }
}

pub open spec fn is_digit(c: char) -> bool {
    '0' <= c <= '9'
}

pub open spec fn digit_value(c: char) -> int {
    c as int - 48
}

/// The number that the digits `s` denote, read from the left: the first character that is no
/// digit, or the first digit that takes the number above `u64::MAX`, decides the fault.
pub open spec fn digits_value(s: Seq<char>) -> Result<nat, IntFault>
    decreases s.len(),
{
    if s.len() == 0 {
        Ok(0)
    } else {
        match digits_value(s.drop_last()) {
            Err(e) => Err(e),
            Ok(v) => if !is_digit(s.last()) {
                Err(IntFault::InvalidDigit)
            } else if v * 10 + digit_value(s.last()) > u64::MAX {
                Err(IntFault::TooLarge)
            } else {
                Ok((v * 10 + digit_value(s.last())) as nat)
            },
        }
    }
}

/// The unsigned number that `s` denotes: digits, after at most one plus sign.
pub open spec fn parsed_u64(s: Seq<char>) -> Result<nat, IntFault> {
    if s.len() == 0 {
        Err(IntFault::Empty)
    } else {
        let digits = if s[0] == '+' {
            s.skip(1)
        } else {
            s
        };
        if digits.len() == 0 {
            Err(IntFault::InvalidDigit)
        } else {
            digits_value(digits)
        }
    }
}

proof fn lemma_digits_fault_stays(s: Seq<char>, n: int)
    requires
        0 <= n <= s.len(),
        digits_value(s.take(n)) is Err,
    ensures
        digits_value(s) == digits_value(s.take(n)),
    decreases s.len() - n,
{
    if n < s.len() {
        assert(s.take(n + 1).drop_last() == s.take(n));
        lemma_digits_fault_stays(s, n + 1);
    } else {
        assert(s.take(n) == s);
    }
}

/// Reads an unsigned number.
pub fn parse_u64(s: &str) -> (r: Result<u64, IntFault>)
    ensures
        match r {
            Ok(n) => parsed_u64(s@) == Ok::<nat, IntFault>(n as nat),
            Err(e) => parsed_u64(s@) == Err::<nat, IntFault>(e),
        },
{
    let v = to_chars(s);
    if v.len() == 0 {
        return Err(IntFault::Empty);
    }
    let start: usize = if v[0] == '+' {
        1
    } else {
        0
    };
    let ghost digits = s@.skip(start as int);
    assert(start == 0 ==> digits == s@);
    if v.len() == start {
        return Err(IntFault::InvalidDigit);
    }
    let mut acc: u64 = 0;
    let mut i: usize = start;
    while i < v.len()
        invariant
            v@ == s@,
            start <= i <= v@.len(),
            start <= 1,
            digits == s@.skip(start as int),
            digits.len() > 0,
            parsed_u64(s@) == digits_value(digits),
            digits_value(digits.take(i - start)) == Ok::<nat, IntFault>(acc as nat),
        decreases v@.len() - i,
    {
        let c = v[i];
        proof {
            assert(digits.take(i + 1 - start).drop_last() == digits.take(i - start));
            assert(digits.take(i + 1 - start).last() == c);
        }
        if !(c >= '0' && c <= '9') {
            proof {
                lemma_digits_fault_stays(digits, i + 1 - start);
            }
            return Err(IntFault::InvalidDigit);
        }
        let d: u64 = (c as u32 - 48) as u64;
        if acc > (u64::MAX - d) / 10 {
            proof {
                lemma_digits_fault_stays(digits, i + 1 - start);
            }
            return Err(IntFault::TooLarge);
        }
        acc = acc * 10 + d;
        i += 1;
    }
    assert(digits.take(i - start) == digits);
    Ok(acc)
}

proof fn lemma_digits_of_decimal(n: nat)
    requires
        n <= u64::MAX,
    ensures
        digits_value(decimal(n)) == Ok::<nat, IntFault>(n),
        decimal(n).len() > 0,
        forall|i: int| 0 <= i < decimal(n).len() ==> is_digit(#[trigger] decimal(n)[i]),
    decreases n,
{
    if n < 10 {
        assert(decimal(n).drop_last() == Seq::<char>::empty());
        assert(digits_value(Seq::<char>::empty()) == Ok::<nat, IntFault>(0));
        assert(digit_value(decimal(n).last()) == n);
    } else {
        lemma_digits_of_decimal(n / 10);
        assert(decimal(n).drop_last() == decimal(n / 10));
        assert(digit_value(decimal(n).last()) == n % 10);
        assert(n / 10 * 10 + n % 10 == n);
    }
}

/// Reading a number back from its decimal form gives that number.
pub proof fn law_parse_of_decimal(n: nat)
    requires
        n <= u64::MAX,
    ensures
        parsed_u64(decimal(n)) == Ok::<nat, IntFault>(n),
{
    lemma_digits_of_decimal(n);
    assert(is_digit(decimal(n)[0]));
}

/// The decimal form of a number consists of digits only, and of one at least.
pub proof fn lemma_decimal_digits(n: nat)
    ensures
        decimal(n).len() > 0,
        forall|i: int| 0 <= i < decimal(n).len() ==> is_digit(#[trigger] decimal(n)[i]),
    decreases n,
{
    if n >= 10 {
        lemma_decimal_digits(n / 10);
    }
}

// ---------------------------------------------------------------------------
// Splitting
// ---------------------------------------------------------------------------

/// The place of the first `c` in `s`, or the length of `s` where there is none.
pub open spec fn first_index(s: Seq<char>, c: char) -> int
    decreases s.len(),
{
    if s.len() == 0 || s[0] == c {
        0
    } else {
        1 + first_index(s.skip(1), c)
    }
}

pub proof fn lemma_first_index(s: Seq<char>, c: char)
    ensures
        0 <= first_index(s, c) <= s.len(),
        forall|i: int| 0 <= i < first_index(s, c) ==> s[i] != c,
        first_index(s, c) < s.len() ==> s[first_index(s, c)] == c,
    decreases s.len(),
{
    if s.len() > 0 && s[0] != c {
        let t = s.skip(1);
        lemma_first_index(t, c);
        let k = first_index(t, c);
        assert forall|i: int| 0 <= i < 1 + k implies s[i] != c by {
            if i > 0 {
                assert(s[i] == t[i - 1]);
            }
        }
    }
}

/// A place `k` that holds `c`, with no `c` before it, is the first one.
pub proof fn lemma_first_index_is(s: Seq<char>, c: char, k: int)
    requires
        0 <= k <= s.len(),
        forall|i: int| 0 <= i < k ==> s[i] != c,
        k < s.len() ==> s[k] == c,
    ensures
        first_index(s, c) == k,
{
    lemma_first_index(s, c);
    let f = first_index(s, c);
    if f < k {
        assert(s[f] != c);
    }
    if k < f {
        assert(s[k] != c);
    }
}

/// The parts of `s` between separators `c`, at most `n` of them: the last part keeps what is left.
pub open spec fn split_parts(s: Seq<char>, n: nat, c: char) -> Seq<Seq<char>>
    decreases s.len(),
{
    let k = first_index(s, c);
    if n <= 1 || k < 0 || k >= s.len() {
        seq![s]
    } else {
        seq![s.take(k)] + split_parts(s.skip(k + 1), (n - 1) as nat, c)
    }
}

/// There are no more parts than asked for, and at least one.
pub proof fn lemma_split_len(s: Seq<char>, n: nat, c: char)
    requires
        n >= 1,
    ensures
        1 <= split_parts(s, n, c).len() <= n,
    decreases s.len(),
{
    let k = first_index(s, c);
    if !(n <= 1 || k < 0 || k >= s.len()) {
        lemma_split_len(s.skip(k + 1), (n - 1) as nat, c);
    }
}

/// A text that starts with a part and a separator splits into that part and the parts of the
/// rest.
pub proof fn lemma_split_first(part: Seq<char>, rest: Seq<char>, n: nat, c: char)
    requires
        n >= 2,
        !part.contains(c),
    ensures
        split_parts(part.push(c) + rest, n, c) == seq![part] + split_parts(
            rest,
            (n - 1) as nat,
            c,
        ),
{
    let all = part.push(c) + rest;
    let k = part.len() as int;
    assert forall|i: int| 0 <= i < k implies all[i] != c by {
        assert(all[i] == part[i]);
        assert(part.contains(part[i]));
    }
    assert(all[k] == c);
    lemma_first_index_is(all, c, k);
    assert(all.take(k) =~= part);
    assert(all.skip(k + 1) =~= rest);
}

/// All parts of `s` between separators `c`.
pub open spec fn split_all(s: Seq<char>, c: char) -> Seq<Seq<char>> {
    split_parts(s, (s.len() + 1) as nat, c)
}

/// The views of a list of strings.
pub open spec fn views(v: Seq<String>) -> Seq<Seq<char>> {
    Seq::new(v.len(), |i: int| v[i]@)
}

pub broadcast proof fn lemma_views_push(v: Seq<String>, s: String)
    ensures
        #[trigger] views(v.push(s)) == views(v).push(s@),
{
    assert(views(v.push(s)) =~= views(v).push(s@));
}

/// The string with the characters of `v` from `from` up to `to`.
pub fn sub_string(v: &Vec<char>, from: usize, to: usize) -> (s: String)
    requires
        from <= to <= v@.len(),
    ensures
        s@ == v@.subrange(from as int, to as int),
{
    let mut s = String::new();
    let mut i: usize = from;
    while i < to
        invariant
            from <= i <= to <= v@.len(),
            s@ == v@.subrange(from as int, i as int),
        decreases to - i,
    {
        s.push(v[i]);
        i += 1;
        assert(v@.subrange(from as int, i as int) == v@.subrange(from as int, i - 1).push(
            v@[i - 1],
        ));
    }
    s
}

fn find_char(v: &Vec<char>, from: usize, c: char) -> (k: usize)
    requires
        from <= v@.len(),
    ensures
        from <= k <= v@.len(),
        k - from == first_index(v@.skip(from as int), c),
{
    let mut k: usize = from;
    while k < v.len()
        invariant_except_break
            from <= k <= v@.len(),
            forall|i: int| from <= i < k ==> v@[i] != c,
        ensures
            from <= k <= v@.len(),
            forall|i: int| from <= i < k ==> v@[i] != c,
            k < v@.len() ==> v@[k as int] == c,
        decreases v@.len() - k,
    {
        if v[k] == c {
            break;
        }
        k += 1;
    }
    proof {
        let t = v@.skip(from as int);
        assert forall|i: int| 0 <= i < k - from implies t[i] != c by {
            assert(t[i] == v@[i + from]);
        }
        lemma_first_index_is(t, c, k - from);
    }
    k
}

fn split_up_to(s: &str, n: u128, c: char) -> (parts: Vec<String>)
    requires
        n >= 1,
    ensures
        views(parts@) == split_parts(s@, n as nat, c),
{
    broadcast use lemma_views_push;

    let v = to_chars(s);
    let mut parts: Vec<String> = Vec::new();
    let mut start: usize = 0;
    assert(v@.skip(0) == s@);
    assert(views(parts@) + split_parts(s@, n as nat, c) == split_parts(s@, n as nat, c));
    loop
        invariant_except_break
            v@ == s@,
            start <= v@.len(),
            parts@.len() < n,
            views(parts@) + split_parts(v@.skip(start as int), (n - parts@.len()) as nat, c)
                == split_parts(s@, n as nat, c),
        ensures
            views(parts@) == split_parts(s@, n as nat, c),
        decreases v@.len() - start,
    {
        let k = find_char(&v, start, c);
        let ghost rest = v@.skip(start as int);
        if parts.len() as u128 + 1 >= n || k >= v.len() {
            let part = sub_string(&v, start, v.len());
            assert(part@ == rest);
            assert(split_parts(rest, (n - parts@.len()) as nat, c) == seq![rest]);
            assert(views(parts@).push(rest) == views(parts@) + seq![rest]);
            parts.push(part);
            break;
        }
        let part = sub_string(&v, start, k);
        assert(part@ == rest.take(k - start));
        assert(rest.skip(k - start + 1) == v@.skip(k + 1));
        let ghost before = views(parts@);
        assert(before + (seq![part@] + split_parts(v@.skip(k + 1), (n - parts@.len() - 1) as nat, c))
            == before.push(part@) + split_parts(v@.skip(k + 1), (n - parts@.len() - 1) as nat, c));
        parts.push(part);
        start = k + 1;
    }
    parts
}

/// The parts of `s` between separators `c`, at most `n` of them.
pub fn splitn(s: &str, n: usize, c: char) -> (parts: Vec<String>)
    requires
        n >= 1,
    ensures
        views(parts@) == split_parts(s@, n as nat, c),
{
    split_up_to(s, n as u128, c)
}

/// All parts of `s` between separators `c`.
pub fn split(s: &str, c: char) -> (parts: Vec<String>)
    ensures
        views(parts@) == split_all(s@, c),
{
    let n: usize = to_chars(s).len();
    split_up_to(s, n as u128 + 1, c)
}

// ---------------------------------------------------------------------------
// Lines, white space and prefixes
// ---------------------------------------------------------------------------

/// A line without the carriage return that ends it.
pub open spec fn without_cr(s: Seq<char>) -> Seq<char> {
    if s.len() > 0 && s.last() == '\r' {
        s.drop_last()
    } else {
        s
    }
}

/// The lines of a text. Each ends with a line feed, or a carriage return and a line feed; the
/// last one may lack that ending.
pub open spec fn text_lines(s: Seq<char>) -> Seq<Seq<char>>
    decreases s.len(),
{
    let k = first_index(s, '\n');
    if s.len() == 0 {
        Seq::empty()
    } else if k < 0 || k >= s.len() {
        seq![s]
    } else {
        seq![without_cr(s.take(k))] + text_lines(s.skip(k + 1))
    }
}

/// The lines of a text.
pub fn lines(s: &str) -> (out: Vec<String>)
    ensures
        views(out@) == text_lines(s@),
{
    broadcast use lemma_views_push;

    let v = to_chars(s);
    let mut out: Vec<String> = Vec::new();
    let mut start: usize = 0;
    assert(v@.skip(0) == s@);
    assert(views(out@) + text_lines(s@) == text_lines(s@));
    while start < v.len()
        invariant
            v@ == s@,
            start <= v@.len(),
            views(out@) + text_lines(v@.skip(start as int)) == text_lines(s@),
        decreases v@.len() - start,
    {
        let k = find_char(&v, start, '\n');
        let ghost rest = v@.skip(start as int);
        let ghost before = views(out@);
        if k >= v.len() {
            let line = sub_string(&v, start, v.len());
            assert(line@ == rest);
            assert(text_lines(rest) == seq![rest]);
            out.push(line);
            start = v.len();
            assert(v@.skip(start as int) == Seq::<char>::empty());
            assert(before.push(rest) + text_lines(Seq::empty()) == before + seq![rest]);
        } else {
            let end: usize = if k > start && v[k - 1] == '\r' {
                k - 1
            } else {
                k
            };
            let line = sub_string(&v, start, end);
            assert(rest.take(k - start).len() > 0 ==> rest.take(k - start).last() == v@[k - 1]);
            assert(line@ == without_cr(rest.take(k - start)));
            assert(rest.skip(k - start + 1) == v@.skip(k + 1));
            out.push(line);
            start = k + 1;
            assert(before + (seq![line@] + text_lines(v@.skip(start as int))) == before.push(line@)
                + text_lines(v@.skip(start as int)));
        }
    }
    assert(v@.skip(start as int) == Seq::<char>::empty());
    assert(views(out@) + text_lines(v@.skip(start as int)) == views(out@));
    out
}

/// The first line of a text that starts with it.
pub proof fn lemma_first_line(line: Seq<char>, rest: Seq<char>)
    requires
        !line.contains('\n'),
        line.len() > 0,
        line.last() != '\r',
    ensures
        text_lines(line.push('\n') + rest) == seq![line] + text_lines(rest),
{
    let all = line.push('\n') + rest;
    let n = line.len() as int;
    assert forall|i: int| 0 <= i < n implies all[i] != '\n' by {
        assert(all[i] == line[i]);
        assert(line.contains(line[i]));
    }
    assert(all[n] == '\n');
    lemma_first_index_is(all, '\n', n);
    assert(all.take(n) =~= line);
    assert(all.skip(n + 1) =~= rest);
}

/// The characters of the Unicode property `White_Space`.
pub open spec fn is_white_space(c: char) -> bool {
    let n = c as int;
    ||| 0x9 <= n <= 0xd
    ||| n == 0x20
    ||| n == 0x85
    ||| n == 0xa0
    ||| n == 0x1680
    ||| 0x2000 <= n <= 0x200a
    ||| n == 0x2028
    ||| n == 0x2029
    ||| n == 0x202f
    ||| n == 0x205f
    ||| n == 0x3000
}

/// Whether `c` is white space.
pub fn char_is_white_space(c: char) -> (r: bool)
    ensures
        r == is_white_space(c),
{
    let n: u32 = c as u32;
    (n >= 0x9 && n <= 0xd) || n == 0x20 || n == 0x85 || n == 0xa0 || n == 0x1680 || (n >= 0x2000
        && n <= 0x200a) || n == 0x2028 || n == 0x2029 || n == 0x202f || n == 0x205f || n == 0x3000
}

/// `s` without the white space it starts with.
pub open spec fn trimmed_start(s: Seq<char>) -> Seq<char>
    decreases s.len(),
{
    if s.len() > 0 && is_white_space(s[0]) {
        trimmed_start(s.skip(1))
    } else {
        s
    }
}

/// `s` without the white space it ends with.
pub open spec fn trimmed_end(s: Seq<char>) -> Seq<char>
    decreases s.len(),
{
    if s.len() > 0 && is_white_space(s.last()) {
        trimmed_end(s.drop_last())
    } else {
        s
    }
}

/// `s` without the white space around it.
pub open spec fn trimmed(s: Seq<char>) -> Seq<char> {
    trimmed_end(trimmed_start(s))
}

/// `s` without the white space around it.
pub fn trim(s: &str) -> (t: String)
    ensures
        t@ == trimmed(s@),
{
    let v = to_chars(s);
    let mut from: usize = 0;
    assert(v@.skip(0) == s@);
    while from < v.len() && char_is_white_space(v[from])
        invariant
            from <= v@.len(),
            v@ == s@,
            trimmed_start(v@.skip(from as int)) == trimmed_start(s@),
        decreases v@.len() - from,
    {
        assert(v@.skip(from as int).skip(1) == v@.skip(from + 1));
        from += 1;
    }
    let ghost lead = v@.skip(from as int);
    assert(lead == trimmed_start(s@));
    let mut to: usize = v.len();
    assert(lead == v@.subrange(from as int, to as int));
    while to > from && char_is_white_space(v[to - 1])
        invariant
            from <= to <= v@.len(),
            v@ == s@,
            trimmed_end(v@.subrange(from as int, to as int)) == trimmed(s@),
        decreases to - from,
    {
        assert(v@.subrange(from as int, to as int).drop_last() == v@.subrange(from as int, to - 1));
        to -= 1;
    }
    sub_string(&v, from, to)
}

/// Whether `s` begins with `p`.
pub open spec fn has_prefix(s: Seq<char>, p: Seq<char>) -> bool {
    p.len() <= s.len() && s.take(p.len() as int) == p
}

/// What follows `p` in `s`, where `s` begins with `p`.
pub fn strip_prefix(s: &str, p: &str) -> (r: Option<String>)
    ensures
        match r {
            Some(t) => has_prefix(s@, p@) && t@ == s@.skip(p@.len() as int),
            None => !has_prefix(s@, p@),
        },
{
    let x = to_chars(s);
    let y = to_chars(p);
    if y.len() > x.len() {
        return None;
    }
    let mut i: usize = 0;
    while i < y.len()
        invariant
            x@ == s@,
            y@ == p@,
            i <= y@.len() <= x@.len(),
            forall|j: int| 0 <= j < i ==> x@[j] == y@[j],
        decreases y@.len() - i,
    {
        if x[i] != y[i] {
            assert(s@.take(p@.len() as int)[i as int] == x@[i as int]);
            return None;
        }
        i += 1;
    }
    assert(s@.take(p@.len() as int) == p@);
    let t = sub_string(&x, y.len(), x.len());
    assert(t@ == s@.skip(p@.len() as int));
    Some(t)
}

/// Whether `s` begins with `p`.
pub fn starts_with(s: &str, p: &str) -> (r: bool)
    ensures
        r == has_prefix(s@, p@),
{
    strip_prefix(s, p).is_some()
}

/// Whether `s` ends with `p`.
pub open spec fn has_suffix(s: Seq<char>, p: Seq<char>) -> bool {
    p.len() <= s.len() && s.skip(s.len() - p.len()) == p
}

/// Whether `s` ends with `p`.
pub fn ends_with(s: &str, p: &str) -> (r: bool)
    ensures
        r == has_suffix(s@, p@),
{
    let x = to_chars(s);
    let y = to_chars(p);
    if y.len() > x.len() {
        return false;
    }
    let n: usize = x.len();
    let from: usize = n - y.len();
    let mut i: usize = 0;
    while i < y.len()
        invariant
            x@ == s@,
            y@ == p@,
            i <= y@.len() <= x@.len(),
            n == x@.len(),
            from == x@.len() - y@.len(),
            forall|j: int| 0 <= j < i ==> x@[from + j] == y@[j],
        decreases y@.len() - i,
    {
        if x[from + i] != y[i] {
            assert(s@.skip(from as int)[i as int] == x@[from + i]);
            return false;
        }
        i += 1;
    }
    assert(s@.skip(s@.len() - p@.len()) == p@);
    true
}

/// Whether a text shows another somewhere.
pub open spec fn shows(text: Seq<char>, part: Seq<char>) -> bool {
    exists|i: int|
        0 <= i <= text.len() - part.len() && #[trigger] text.subrange(i, i + part.len()) == part
}

/// A text shows itself.
pub proof fn lemma_shows_itself(text: Seq<char>)
    ensures
        shows(text, text),
{
    let i: int = 0;
    assert(text.subrange(i, i + text.len()) =~= text);
}

/// What the front of a text shows, the text shows.
pub broadcast proof fn lemma_front_shows(a: Seq<char>, b: Seq<char>, part: Seq<char>)
    requires
        shows(a, part),
    ensures
        #[trigger] shows(a + b, part),
{
    let i = choose|i: int|
        0 <= i <= a.len() - part.len() && #[trigger] a.subrange(i, i + part.len()) == part;
    assert((a + b).subrange(i, i + part.len()) =~= a.subrange(i, i + part.len()));
}

/// What the end of a text shows, the text shows.
pub broadcast proof fn lemma_end_shows(a: Seq<char>, b: Seq<char>, part: Seq<char>)
    requires
        shows(b, part),
    ensures
        #[trigger] shows(a + b, part),
{
    let i = choose|i: int|
        0 <= i <= b.len() - part.len() && #[trigger] b.subrange(i, i + part.len()) == part;
    let j = a.len() + i;
    assert((a + b).subrange(j, j + part.len()) =~= b.subrange(i, i + part.len()));
}

/// A number is written in decimal digits, the highest first and without leading zeros: one digit
/// below ten, and else the digits of its tenth followed by the last.
pub proof fn law_decimal_is_positional(n: nat, d: nat)
    requires
        d < 10,
    ensures
        decimal(d).len() == 1,
        decimal(d)[0] as int == '0' as int + d,
        n > 0 ==> decimal(10 * n + d) == decimal(n) + decimal(d),
        n > 0 ==> decimal(n)[0] != '0',
        signed_decimal(n as int) == decimal(n),
        n > 0 ==> signed_decimal(-(n as int)) == seq!['-'] + decimal(n),
    decreases n,
{
    assert((10 * n + d) / 10 == n && (10 * n + d) % 10 == d) by (nonlinear_arith)
        requires
            d < 10,
    ;
    if n > 0 {
        assert(decimal(10 * n + d) =~= decimal(n) + decimal(d));
    }
    if n >= 10 {
        law_decimal_is_positional(n / 10, 0);
    }
}

/// A text of digits is read as the number that it writes: each further digit counts ten times what
/// was read before and itself. A plus in front changes nothing; what is no digit, nothing at all, and
/// what is too large are no numbers.
pub proof fn law_digits_are_read_positionally(s: Seq<char>, c: char)
    requires
        s.len() > 0,
        s[0] != '+',
    ensures
        '0' <= c <= '9' && parsed_u64(s) is Ok && 10 * parsed_u64(s)->Ok_0 + (c as int - '0' as int)
            <= u64::MAX ==> parsed_u64(s.push(c)) == Ok::<nat, IntFault>(
            (10 * parsed_u64(s)->Ok_0 + (c as int - '0' as int)) as nat,
        ),
        '0' <= c <= '9' && parsed_u64(s) is Ok && 10 * parsed_u64(s)->Ok_0 + (c as int - '0' as int)
            > u64::MAX ==> parsed_u64(s.push(c)) == Err::<nat, IntFault>(IntFault::TooLarge),
        parsed_u64(s) is Ok && !('0' <= c <= '9') ==> parsed_u64(s.push(c)) == Err::<nat, IntFault>(
            IntFault::InvalidDigit,
        ),
        parsed_u64(s) is Err ==> parsed_u64(s.push(c)) is Err,
        '0' <= c <= '9' ==> parsed_u64(seq![c]) == Ok::<nat, IntFault>(
            (c as int - '0' as int) as nat,
        ),
        parsed_u64(seq!['+'] + s) == digits_value(s),
        parsed_u64(s) == digits_value(s),
        parsed_u64(Seq::empty()) == Err::<nat, IntFault>(IntFault::Empty),
        parsed_u64(seq!['+']) == Err::<nat, IntFault>(IntFault::InvalidDigit),
{
    assert(s.push(c).drop_last() =~= s);
    assert(s.push(c)[0] == s[0]);
    assert((seq!['+'] + s).skip(1) =~= s);
    assert(seq![c].drop_last() =~= Seq::<char>::empty());
    assert(digits_value(Seq::<char>::empty()) == Ok::<nat, IntFault>(0));
    if '0' <= c <= '9' {
        assert(seq![c].last() == c);
        assert(digits_value(seq![c]) == Ok::<nat, IntFault>((c as int - 48) as nat));
    }
}

/// A text without the separator is one part; else the first part ends at the first separator, and
/// what follows is split in turn.
pub proof fn law_split_is_at_every_separator(part: Seq<char>, rest: Seq<char>, c: char)
    requires
        !part.contains(c),
    ensures
        split_all(part, c) == seq![part],
        split_parts(part.push(c) + rest, 1, c) == seq![part.push(c) + rest],
        forall|n: nat|
            n >= 2 ==> #[trigger] split_parts(part.push(c) + rest, n, c) == seq![part]
                + split_parts(rest, (n - 1) as nat, c),
{
    lemma_first_index(part, c);
    let k = first_index(part, c);
    if 0 <= k < part.len() {
        assert(part.contains(part[k]));
    }
    assert forall|n: nat| n >= 2 implies #[trigger] split_parts(part.push(c) + rest, n, c) == seq![
        part,
    ] + split_parts(rest, (n - 1) as nat, c) by {
        lemma_split_first(part, rest, n, c);
    }
}

/// A text is read line by line: each ends at a line feed, with a carriage return in front of it taken
/// off; the last needs none.
pub proof fn law_lines_end_at_line_feeds(line: Seq<char>, rest: Seq<char>)
    requires
        !line.contains('\n'),
    ensures
        text_lines(Seq::empty()) == Seq::<Seq<char>>::empty(),
        line.len() > 0 ==> text_lines(line) == seq![line],
        line.len() == 0 || line.last() != '\r' ==> text_lines(line.push('\n') + rest) == seq![line]
            + text_lines(rest),
        text_lines(line.push('\r').push('\n') + rest) == seq![line] + text_lines(rest),
{
    lemma_first_index(line, '\n');
    let k = first_index(line, '\n');
    if 0 <= k < line.len() {
        assert(line.contains(line[k]));
    }
    let a = line.push('\n') + rest;
    let n = line.len() as int;
    assert forall|i: int| 0 <= i < n implies a[i] != '\n' by {
        assert(a[i] == line[i]);
        assert(line.contains(line[i]));
    }
    lemma_first_index_is(a, '\n', n);
    assert(a.take(n) =~= line);
    assert(a.skip(n + 1) =~= rest);
    let b = line.push('\r').push('\n') + rest;
    assert forall|i: int| 0 <= i < n + 1 implies b[i] != '\n' by {
        if i < n {
            assert(b[i] == line[i]);
            assert(line.contains(line[i]));
        }
    }
    lemma_first_index_is(b, '\n', n + 1);
    assert(b.take(n + 1) =~= line.push('\r'));
    assert(line.push('\r').drop_last() =~= line);
    assert(b.skip(n + 2) =~= rest);
}

/// Trimming takes off the white space at both ends and nothing else.
pub proof fn law_trimming_takes_white_space_off(s: Seq<char>, c: char)
    ensures
        trimmed(s).len() <= s.len(),
        trimmed(s).len() > 0 ==> !is_white_space(trimmed(s)[0]) && !is_white_space(
            trimmed(s).last(),
        ),
        s.len() > 0 && !is_white_space(s[0]) && !is_white_space(s.last()) ==> trimmed(s) == s,
        is_white_space(c) ==> trimmed(seq![c] + s) == trimmed(s),
        is_white_space(' '),
        is_white_space('\t'),
        is_white_space('\n'),
        is_white_space('\r'),
        '!' <= c <= '~' ==> !is_white_space(c),
{
    lemma_trim_start(s);
    lemma_trim_end(trimmed_start(s));
    assert((seq![c] + s).skip(1) =~= s);
    assert((seq![c] + s)[0] == c);
}

proof fn lemma_trim_start(s: Seq<char>)
    ensures
        trimmed_start(s).len() <= s.len(),
        trimmed_start(s).len() > 0 ==> !is_white_space(trimmed_start(s)[0]),
    decreases s.len(),
{
    if s.len() > 0 && is_white_space(s[0]) {
        lemma_trim_start(s.skip(1));
    }
}

proof fn lemma_trim_end(s: Seq<char>)
    ensures
        trimmed_end(s).len() <= s.len(),
        trimmed_end(s).len() > 0 ==> !is_white_space(trimmed_end(s).last()),
        trimmed_end(s) == s.take(trimmed_end(s).len() as int),
    decreases s.len(),
{
    if s.len() > 0 && is_white_space(s.last()) {
        lemma_trim_end(s.drop_last());
        let n = trimmed_end(s.drop_last()).len() as int;
        assert(s.drop_last().take(n) =~= s.take(n));
    } else {
        assert(s.take(s.len() as int) =~= s);
    }
}

/// A text begins with another just where it is that text followed by something, and ends with
/// another just where it is something followed by that text.
pub proof fn law_prefix_and_suffix(s: Seq<char>, p: Seq<char>)
    ensures
        has_prefix(p + s, p),
        has_suffix(s + p, p),
        has_prefix(s, p) ==> s == p + s.skip(p.len() as int),
        has_suffix(s, p) ==> s == s.take(s.len() - p.len()) + p,
{
    assert((p + s).take(p.len() as int) =~= p);
    assert((s + p).skip(s.len() as int) =~= p);
    if has_prefix(s, p) {
        assert(s =~= s.take(p.len() as int) + s.skip(p.len() as int));
    }
    if has_suffix(s, p) {
        let n = s.len() - p.len();
        assert(s =~= s.take(n) + s.skip(n));
    }
}

/// What is said of a text that is no number.
pub proof fn law_faults_say_why()
    ensures
        IntFault::Empty.text() == "cannot parse integer from empty string"@,
        IntFault::InvalidDigit.text() == "invalid digit found in string"@,
        IntFault::TooLarge.text() == "number too large to fit in target type"@,
{
}

} // verus!
