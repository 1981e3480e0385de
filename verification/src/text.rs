use vstd::prelude::*;
use vstd::string::*;
use vstd::std_specs::iter::IteratorSpec;

verus! {

broadcast use vstd::string::group_string_axioms;

/// `String::push`. Trusted: it appends `ch` to the string and changes
/// nothing else, as std documents.
pub assume_specification[ String::push ](s: &mut String, ch: char)
    ensures
        final(s)@ == old(s)@.push(ch),
;

// ---------------------------------------------------------------------------
// Character classes
// ---------------------------------------------------------------------------

/// The Unicode `White_Space` property, which is what `char::is_whitespace`
/// and `str::trim` go by.
pub open spec fn is_ws(c: char) -> bool {
    let v = c as u32;
    ||| 0x09 <= v <= 0x0D
    ||| v == 0x20
    ||| v == 0x85
    ||| v == 0xA0
    ||| v == 0x1680
    ||| 0x2000 <= v <= 0x200A
    ||| v == 0x2028
    ||| v == 0x2029
    ||| v == 0x202F
    ||| v == 0x205F
    ||| v == 0x3000
}

/// Executable form of [`is_ws`].
pub fn is_whitespace(c: char) -> (b: bool)
    ensures
        b == is_ws(c),
{
    let v = c as u32;
    (0x09 <= v && v <= 0x0D) || v == 0x20 || v == 0x85 || v == 0xA0 || v == 0x1680 || (0x2000
        <= v && v <= 0x200A) || v == 0x2028 || v == 0x2029 || v == 0x202F || v == 0x205F || v
        == 0x3000
}

/// A set of characters that a trimming operation strips.
pub enum CharClass {
    Whitespace,
    Exactly(char),
}

pub open spec fn in_class(k: CharClass, c: char) -> bool {
    match k {
        CharClass::Whitespace => is_ws(c),
        CharClass::Exactly(x) => c == x,
    }
}

fn class_contains(k: &CharClass, c: char) -> (b: bool)
    ensures
        b == in_class(*k, c),
{
    match k {
        CharClass::Whitespace => is_whitespace(c),
        CharClass::Exactly(x) => c == *x,
    }
}

// ---------------------------------------------------------------------------
// Trimming
// ---------------------------------------------------------------------------

/// `s` with the leading characters of class `k` removed.
pub open spec fn strip_start(s: Seq<char>, k: CharClass) -> Seq<char>
    decreases s.len(),
{
    if s.len() > 0 && in_class(k, s[0]) {
        strip_start(s.drop_first(), k)
    } else {
        s
    }
}

/// `s` with the trailing characters of class `k` removed.
pub open spec fn strip_end(s: Seq<char>, k: CharClass) -> Seq<char>
    decreases s.len(),
{
    if s.len() > 0 && in_class(k, s.last()) {
        strip_end(s.drop_last(), k)
    } else {
        s
    }
}

/// `str::trim`: leading and trailing whitespace removed.
pub open spec fn trimmed(s: Seq<char>) -> Seq<char> {
    strip_end(strip_start(s, CharClass::Whitespace), CharClass::Whitespace)
}

/// Whether `s` holds nothing but whitespace (`s.trim().is_empty()`).
pub open spec fn blank(s: Seq<char>) -> bool {
    trimmed(s).len() == 0
}

/// `strip_end(s)` is a prefix of `s`.
pub proof fn lemma_strip_end_prefix(s: Seq<char>, k: CharClass)
    ensures
        strip_end(s, k).len() <= s.len(),
        strip_end(s, k) == s.take(strip_end(s, k).len() as int),
    decreases s.len(),
{
    if s.len() > 0 && in_class(k, s.last()) {
        lemma_strip_end_prefix(s.drop_last(), k);
        let t = strip_end(s.drop_last(), k);
        assert(s.drop_last().take(t.len() as int) =~= s.take(t.len() as int));
    } else {
        assert(s.take(s.len() as int) =~= s);
    }
}

/// Index of the first character of `v[from..]` that is not of class `k`.
fn skip_class_forward(v: &Vec<char>, from: usize, k: &CharClass) -> (i: usize)
    requires
        from <= v.len(),
    ensures
        from <= i <= v.len(),
        strip_start(v@.subrange(from as int, v.len() as int), *k) == v@.subrange(
            i as int,
            v.len() as int,
        ),
{
    let mut i = from;
    while i < v.len() && class_contains(k, v[i])
        invariant
            from <= i <= v.len(),
            strip_start(v@.subrange(from as int, v.len() as int), *k) == strip_start(
                v@.subrange(i as int, v.len() as int),
                *k,
            ),
        decreases v.len() - i,
    {
        assert(v@.subrange(i as int, v.len() as int).drop_first() =~= v@.subrange(
            i + 1,
            v.len() as int,
        ));
        i = i + 1;
    }
    i
}

/// Index just past the last character of `v[from..to]` that is not of class `k`.
fn skip_class_backward(v: &Vec<char>, from: usize, to: usize, k: &CharClass) -> (j: usize)
    requires
        from <= to <= v.len(),
    ensures
        from <= j <= to,
        strip_end(v@.subrange(from as int, to as int), *k) == v@.subrange(from as int, j as int),
{
    let mut j = to;
    while j > from && class_contains(k, v[j - 1])
        invariant
            from <= j <= to <= v.len(),
            strip_end(v@.subrange(from as int, to as int), *k) == strip_end(
                v@.subrange(from as int, j as int),
                *k,
            ),
        decreases j,
    {
        assert(v@.subrange(from as int, j as int).drop_last() =~= v@.subrange(
            from as int,
            j - 1,
        ));
        j = j - 1;
    }
    j
}

/// A `String` holding `v[from..to]`.
pub fn string_of_range(v: &Vec<char>, from: usize, to: usize) -> (r: String)
    requires
        from <= to <= v.len(),
    ensures
        r@ == v@.subrange(from as int, to as int),
{
    let mut r = String::new();
    let mut i = from;
    while i < to
        invariant
            from <= i <= to <= v.len(),
            r@ == v@.subrange(from as int, i as int),
        decreases to - i,
    {
        r.push(v[i]);
        assert(v@.subrange(from as int, i + 1) =~= v@.subrange(from as int, i as int).push(v@[i as int]));
        i = i + 1;
    }
    r
}

/// `v` with the characters of class `k` removed from both ends.
fn strip_both(v: &Vec<char>, k: &CharClass) -> (r: String)
    ensures
        r@ == strip_end(strip_start(v@, *k), *k),
{
    let i = skip_class_forward(v, 0, k);
    assert(v@.subrange(0, v.len() as int) =~= v@);
    let j = skip_class_backward(v, i, v.len(), k);
    string_of_range(v, i, j)
}

/// The characters of a string slice, in order.
pub fn chars_of(s: &str) -> (r: Vec<char>)
    ensures
        r@ == s@,
{
    let mut out: Vec<char> = Vec::new();
    let mut it = s.chars();
    loop
        invariant
            out@ + it.remaining() == s@,
            it.decrease() is Some,
        ensures
            out@ == s@,
        decreases it.decrease()->0,
    {
        match it.next() {
            Some(c) => {
                out.push(c);
            },
            None => {
                break;
            },
        }
    }
    out
}

/// `s.trim().to_owned()`.
pub fn trim(s: &str) -> (r: String)
    ensures
        r@ == trimmed(s@),
{
    let v = chars_of(s);
    strip_both(&v, &CharClass::Whitespace)
}

/// `s.trim().is_empty()`.
pub fn is_blank(s: &str) -> (b: bool)
    ensures
        b == blank(s@),
{
    let v = chars_of(s);
    let i = skip_class_forward(&v, 0, &CharClass::Whitespace);
    assert(v@.subrange(0, v.len() as int) =~= v@);
    let j = skip_class_backward(&v, i, v.len(), &CharClass::Whitespace);
    i == j
}

/// `s.trim_end_matches(c).to_owned()`.
pub fn trim_end_char(s: &str, c: char) -> (r: String)
    ensures
        r@ == strip_end(s@, CharClass::Exactly(c)),
{
    let v = chars_of(s);
    let j = skip_class_backward(&v, 0, v.len(), &CharClass::Exactly(c));
    assert(v@.subrange(0, v.len() as int) =~= v@);
    string_of_range(&v, 0, j)
}

/// `s.trim_matches(c).to_owned()`.
pub fn trim_char(s: &str, c: char) -> (r: String)
    ensures
        r@ == strip_end(strip_start(s@, CharClass::Exactly(c)), CharClass::Exactly(c)),
{
    let v = chars_of(s);
    strip_both(&v, &CharClass::Exactly(c))
}


// ---------------------------------------------------------------------------
// Decimal numbers
// ---------------------------------------------------------------------------

/// The ASCII digit for `d < 10`.
pub open spec fn digit_char(d: nat) -> char {
    (48 + d) as char
}

/// Whether `c` is an ASCII decimal digit.
pub open spec fn is_digit(c: char) -> bool {
    48 <= (c as u32) <= 57
}

/// The value of the ASCII digit `c`.
pub open spec fn digit_value(c: char) -> nat {
    ((c as u32) - 48) as nat
}

/// The decimal representation of `n`, without leading zeros.
pub open spec fn decimal(n: nat) -> Seq<char>
    decreases n,
{
    if n < 10 {
        seq![digit_char(n)]
    } else {
        decimal(n / 10).push(digit_char(n % 10))
    }
}

/// The decimal representation of a signed integer, with a leading `-` when negative.
pub open spec fn signed_decimal(i: int) -> Seq<char> {
    if i < 0 {
        seq!['-'] + decimal((-i) as nat)
    } else {
        decimal(i as nat)
    }
}

/// Appends the decimal representation of `n` to `out`.
pub fn push_decimal(out: &mut String, n: u64)
    ensures
        final(out)@ == old(out)@ + decimal(n as nat),
    decreases n,
{
    if n >= 10 {
        push_decimal(out, n / 10);
    }
    let d = (n % 10) as u8;
    let c = (48u8 + d) as char;
    proof {
        assert(c == digit_char((n % 10) as nat));
    }
    out.push(c);
    assert(decimal(n as nat) =~= if n < 10 {
        seq![digit_char(n as nat)]
    } else {
        decimal((n / 10) as nat).push(digit_char((n % 10) as nat))
    });
}

/// `n.to_string()` for an unsigned integer.
pub fn decimal_string(n: u64) -> (r: String)
    ensures
        r@ == decimal(n as nat),
{
    let mut r = String::new();
    push_decimal(&mut r, n);
    r
}

/// `i.to_string()` for a signed integer.
pub fn signed_decimal_string(i: i64) -> (r: String)
    ensures
        r@ == signed_decimal(i as int),
{
    let mut r = String::new();
    if i < 0 {
        r.push('-');
        let m: u64 = if i == i64::MIN {
            9223372036854775808u64
        } else {
            (-i) as u64
        };
        push_decimal(&mut r, m);
    } else {
        push_decimal(&mut r, i as u64);
    }
    r
}

/// Why a string is not a number: the kinds of `core::num::ParseIntError`
/// that an unsigned parse can report.
#[derive(Debug, Clone, Copy, PartialEq, Eq, Structural)]
pub enum IntErrorKind {
    Empty,
    InvalidDigit,
    PosOverflow,
}

impl IntErrorKind {
    /// The text that `ParseIntError` displays for this kind.
    pub open spec fn spec_text(self) -> Seq<char> {
        match self {
            IntErrorKind::Empty => "cannot parse integer from empty string"@,
            IntErrorKind::InvalidDigit => "invalid digit found in string"@,
            IntErrorKind::PosOverflow => "number too large to fit in target type"@,
        }
    }

    /// The text that `ParseIntError` displays for this kind.
    pub fn text(&self) -> (r: String)
        ensures
            r@ == self.spec_text(),
    {
        match self {
            IntErrorKind::Empty => "cannot parse integer from empty string".to_string(),
            IntErrorKind::InvalidDigit => "invalid digit found in string".to_string(),
            IntErrorKind::PosOverflow => "number too large to fit in target type".to_string(),
        }
    }
}

/// Reads the digits of `s` from left to right, as `from_str_radix` does:
/// the first character that is not a digit, or the first digit that takes the
/// value past `max`, decides the error.
pub open spec fn scan_digits(s: Seq<char>, max: nat) -> Result<nat, IntErrorKind>
    decreases s.len(),
{
    if s.len() == 0 {
        Ok(0)
    } else {
        match scan_digits(s.drop_last(), max) {
            Err(e) => Err(e),
            Ok(v) => if !is_digit(s.last()) {
                Err(IntErrorKind::InvalidDigit)
            } else if v * 10 + digit_value(s.last()) > max {
                Err(IntErrorKind::PosOverflow)
            } else {
                Ok(v * 10 + digit_value(s.last()))
            },
        }
    }
}

/// `str::parse` of an unsigned integer type whose largest value is `max`.
pub open spec fn parse_unsigned(s: Seq<char>, max: nat) -> Result<nat, IntErrorKind> {
    if s.len() == 0 {
        Err(IntErrorKind::Empty)
    } else if s.len() == 1 && (s[0] == '+' || s[0] == '-') {
        Err(IntErrorKind::InvalidDigit)
    } else if s[0] == '+' {
        scan_digits(s.drop_first(), max)
    } else {
        scan_digits(s, max)
    }
}

proof fn lemma_scan_err_persists(s: Seq<char>, k: int, max: nat)
    requires
        0 <= k <= s.len(),
        scan_digits(s.take(k), max) is Err,
    ensures
        scan_digits(s, max) == scan_digits(s.take(k), max),
    decreases s.len(),
{
    if k < s.len() {
        assert(s.drop_last().take(k) =~= s.take(k));
        lemma_scan_err_persists(s.drop_last(), k, max);
    } else {
        assert(s.take(k) =~= s);
    }
}

pub proof fn lemma_scan_bounded(s: Seq<char>, max: nat)
    ensures
        scan_digits(s, max) matches Ok(v) ==> v <= max,
    decreases s.len(),
{
    if s.len() > 0 {
        lemma_scan_bounded(s.drop_last(), max);
    }
}

/// Parses `v[from..]` as digits, with the error rules of `from_str_radix`.
fn scan_digits_exec(v: &Vec<char>, from: usize, max: u64) -> (r: Result<u64, IntErrorKind>)
    requires
        from <= v.len(),
    ensures
        r matches Ok(n) ==> scan_digits(v@.subrange(from as int, v.len() as int), max as nat)
            == Ok::<nat, IntErrorKind>(n as nat),
        r matches Err(e) ==> scan_digits(v@.subrange(from as int, v.len() as int), max as nat)
            == Err::<nat, IntErrorKind>(e),
{
    let ghost s = v@.subrange(from as int, v.len() as int);
    let mut acc: u64 = 0;
    let mut i = from;
    assert(s.take(0) =~= Seq::<char>::empty());
    while i < v.len()
        invariant
            from <= i <= v.len(),
            s == v@.subrange(from as int, v.len() as int),
            acc <= max,
            scan_digits(s.take(i - from), max as nat) == Ok::<nat, IntErrorKind>(acc as nat),
        decreases v.len() - i,
    {
        let c = v[i];
        let ghost pre = s.take(i - from + 1);
        assert(pre.drop_last() =~= s.take(i - from));
        assert(pre.last() == c);
        let cv = c as u32;
        if cv < 48 || cv > 57 {
            proof {
                lemma_scan_err_persists(s, i - from + 1, max as nat);
            }
            return Err(IntErrorKind::InvalidDigit);
        }
        let d = (cv - 48) as u64;
        let next: u128 = acc as u128 * 10 + d as u128;
        if next > max as u128 {
            proof {
                lemma_scan_err_persists(s, i - from + 1, max as nat);
            }
            return Err(IntErrorKind::PosOverflow);
        }
        acc = next as u64;
        i = i + 1;
    }
    assert(s.take(i - from) =~= s);
    Ok(acc)
}

/// `str::parse` for an unsigned type whose largest value is `max`.
fn parse_unsigned_exec(s: &str, max: u64) -> (r: Result<u64, IntErrorKind>)
    ensures
        r matches Ok(n) ==> parse_unsigned(s@, max as nat) == Ok::<nat, IntErrorKind>(n as nat)
            && n <= max,
        r matches Err(e) ==> parse_unsigned(s@, max as nat) == Err::<nat, IntErrorKind>(e),
{
    let v = chars_of(s);
    if v.len() == 0 {
        return Err(IntErrorKind::Empty);
    }
    if v.len() == 1 && (v[0] == '+' || v[0] == '-') {
        return Err(IntErrorKind::InvalidDigit);
    }
    let from: usize = if v[0] == '+' {
        1
    } else {
        0
    };
    assert(v@.subrange(1, v.len() as int) =~= v@.drop_first());
    assert(v@.subrange(0, v.len() as int) =~= v@);
    let r = scan_digits_exec(&v, from, max);
    proof {
        lemma_scan_bounded(v@.subrange(from as int, v.len() as int), max as nat);
    }
    r
}

/// `s.parse::<u16>()`, its error reduced to its kind.
pub fn parse_u16(s: &str) -> (r: Result<u16, IntErrorKind>)
    ensures
        r matches Ok(n) ==> parse_unsigned(s@, u16::MAX as nat) == Ok::<nat, IntErrorKind>(
            n as nat,
        ),
        r matches Err(e) ==> parse_unsigned(s@, u16::MAX as nat) == Err::<nat, IntErrorKind>(e),
{
    match parse_unsigned_exec(s, 65535) {
        Ok(n) => Ok(n as u16),
        Err(e) => Err(e),
    }
}

/// `s.parse::<u64>()`, its error reduced to its kind.
pub fn parse_u64(s: &str) -> (r: Result<u64, IntErrorKind>)
    ensures
        r matches Ok(n) ==> parse_unsigned(s@, u64::MAX as nat) == Ok::<nat, IntErrorKind>(
            n as nat,
        ),
        r matches Err(e) ==> parse_unsigned(s@, u64::MAX as nat) == Err::<nat, IntErrorKind>(e),
{
    parse_unsigned_exec(s, 18446744073709551615)
}

/// `s.parse::<usize>()`, its error reduced to its kind.
pub fn parse_usize(s: &str) -> (r: Result<usize, IntErrorKind>)
    ensures
        r matches Ok(n) ==> parse_unsigned(s@, usize::MAX as nat) == Ok::<nat, IntErrorKind>(
            n as nat,
        ),
        r matches Err(e) ==> parse_unsigned(s@, usize::MAX as nat) == Err::<nat, IntErrorKind>(e),
{
    match parse_unsigned_exec(s, usize::MAX as u64) {
        Ok(n) => Ok(n as usize),
        Err(e) => Err(e),
    }
}


// ---------------------------------------------------------------------------
// Searching and joining
// ---------------------------------------------------------------------------

/// Whether `p` occurs in `s` at position `i`.
pub open spec fn occurs_at(s: Seq<char>, p: Seq<char>, i: int) -> bool {
    0 <= i && i + p.len() <= s.len() && s.subrange(i, i + p.len()) == p
}

/// Whether `p` occurs somewhere in `s` (`str::contains` with a string pattern).
pub open spec fn has_infix(s: Seq<char>, p: Seq<char>) -> bool {
    exists|i: int| occurs_at(s, p, i)
}

fn occurs_at_exec(s: &Vec<char>, p: &Vec<char>, i: usize) -> (b: bool)
    requires
        i + p.len() <= s.len(),
    ensures
        b == occurs_at(s@, p@, i as int),
{
    let mut j: usize = 0;
    while j < p.len()
        invariant
            i + p.len() <= s.len(),
            j <= p.len(),
            forall|k: int| 0 <= k < j ==> s@[i + k] == p@[k],
        decreases p.len() - j,
    {
        if s[i + j] != p[j] {
            assert(s@.subrange(i as int, i + p.len())[j as int] != p@[j as int]);
            return false;
        }
        j = j + 1;
    }
    assert(s@.subrange(i as int, i + p.len()) =~= p@);
    true
}

/// `s.contains(p)` for a string pattern `p`.
pub fn contains_str(s: &str, p: &str) -> (b: bool)
    ensures
        b == has_infix(s@, p@),
{
    let sv = chars_of(s);
    let pv = chars_of(p);
    if pv.len() > sv.len() {
        return false;
    }
    if pv.len() == 0 {
        assert(s@.subrange(0, 0) =~= p@);
        assert(occurs_at(s@, p@, 0));
        return true;
    }
    let mut i: usize = 0;
    while i <= sv.len() - pv.len()
        invariant
            1 <= pv.len() <= sv.len(),
            sv@ == s@,
            pv@ == p@,
            i <= sv.len() - pv.len() + 1,
            forall|k: int| 0 <= k < i ==> !occurs_at(s@, p@, k),
        decreases sv.len() + 1 - i,
    {
        if occurs_at_exec(&sv, &pv, i) {
            return true;
        }
        i = i + 1;
    }
    false
}

/// Whether `c` occurs in `s` (`str::contains` with a `char` pattern).
pub fn contains_char(s: &str, c: char) -> (b: bool)
    ensures
        b == s@.contains(c),
{
    let v = chars_of(s);
    let mut i: usize = 0;
    while i < v.len()
        invariant
            v@ == s@,
            i <= v.len(),
            forall|k: int| 0 <= k < i ==> v@[k] != c,
        decreases v.len() - i,
    {
        if v[i] == c {
            return true;
        }
        i = i + 1;
    }
    false
}

/// `a == b` for string slices.
pub fn str_eq(a: &str, b: &str) -> (r: bool)
    ensures
        r == (a@ == b@),
{
    let av = chars_of(a);
    let bv = chars_of(b);
    if av.len() != bv.len() {
        return false;
    }
    let mut i: usize = 0;
    while i < av.len()
        invariant
            av@ == a@,
            bv@ == b@,
            av.len() == bv.len(),
            i <= av.len(),
            forall|k: int| 0 <= k < i ==> av@[k] == bv@[k],
        decreases av.len() - i,
    {
        if av[i] != bv[i] {
            return false;
        }
        i = i + 1;
    }
    assert(av@ =~= bv@);
    true
}

/// `n` spaces.
pub open spec fn spaces(n: nat) -> Seq<char> {
    Seq::new(n, |i: int| ' ')
}

/// `s` padded on the right with spaces to `width` characters, as the
/// `{:<width}` format does.
pub open spec fn padded(s: Seq<char>, width: nat) -> Seq<char> {
    if s.len() >= width {
        s
    } else {
        s + spaces((width - s.len()) as nat)
    }
}

/// Appends `s` padded on the right with spaces to `width` characters.
pub fn push_padded(out: &mut String, s: &str, width: usize)
    ensures
        final(out)@ == old(out)@ + padded(s@, width as nat),
{
    let n = chars_of(s).len();
    out.append(s);
    let ghost base = out@;
    let mut k = n;
    while k < width
        invariant
            n == s@.len(),
            n <= k <= width || (n > width && k == n),
            base == old(out)@ + s@,
            out@ == base + spaces((k - n) as nat),
        decreases width - k,
    {
        out.push(' ');
        k = k + 1;
        assert(out@ =~= base + spaces((k - n) as nat));
    }
    assert(out@ =~= old(out)@ + padded(s@, width as nat));
}

/// ASCII lower case of a character.
pub open spec fn ascii_lower(c: char) -> char {
    if 65 <= (c as u32) <= 90 {
        ((c as u32) + 32) as char
    } else {
        c
    }
}

/// `str::eq_ignore_ascii_case`.
pub open spec fn eq_ignore_ascii_case(a: Seq<char>, b: Seq<char>) -> bool {
    a.len() == b.len() && forall|i: int| 0 <= i < a.len() ==> ascii_lower(a[i]) == ascii_lower(b[i])
}

fn lower_exec(c: char) -> (r: u32)
    ensures
        r == ascii_lower(c) as u32,
{
    let v = c as u32;
    if 65 <= v && v <= 90 {
        v + 32
    } else {
        v
    }
}

/// Whether two strings are equal when ASCII letters are compared without case.
pub fn eq_ignore_case(a: &str, b: &str) -> (r: bool)
    ensures
        r == eq_ignore_ascii_case(a@, b@),
{
    let av = chars_of(a);
    let bv = chars_of(b);
    if av.len() != bv.len() {
        return false;
    }
    let mut i: usize = 0;
    while i < av.len()
        invariant
            av@ == a@,
            bv@ == b@,
            av.len() == bv.len(),
            i <= av.len(),
            forall|k: int| 0 <= k < i ==> ascii_lower(av@[k]) == ascii_lower(bv@[k]),
        decreases av.len() - i,
    {
        let x = lower_exec(av[i]);
        let y = lower_exec(bv[i]);
        if x != y {
            return false;
        }
        i = i + 1;
    }
    true
}

/// The parts of `s` before and after its first `c`, if it holds one
/// (`str::split_once` with a `char` pattern).
pub open spec fn split_once(s: Seq<char>, c: char) -> Option<(Seq<char>, Seq<char>)> {
    if s.contains(c) {
        let i = choose|i: int| 0 <= i < s.len() && s[i] == c && forall|j: int| 0 <= j < i ==> s[j] != c;
        Some((s.take(i), s.skip(i + 1)))
    } else {
        None
    }
}

/// Splits `s` at its first `c`.
pub fn split_once_char(s: &str, c: char) -> (r: Option<(String, String)>)
    ensures
        match r {
            Some((a, b)) => split_once(s@, c) == Some((a@, b@)),
            None => split_once(s@, c) is None,
        },
{
    let v = chars_of(s);
    let mut i: usize = 0;
    while i < v.len()
        invariant
            v@ == s@,
            i <= v.len(),
            forall|k: int| 0 <= k < i ==> v@[k] != c,
        decreases v.len() - i,
    {
        if v[i] == c {
            let ghost j = choose|j: int| 0 <= j < s@.len() && s@[j] == c && forall|k: int| 0 <= k < j ==> s@[k] != c;
            assert(s@[i as int] == c);
            assert(s@.contains(c));
            assert(j == i) by {
                if j < i {
                } else if j > i {
                    assert(s@[i as int] != c);
                }
            }
            let a = string_of_range(&v, 0, i);
            let b = string_of_range(&v, i + 1, v.len());
            assert(v@.subrange(0, i as int) =~= s@.take(i as int));
            assert(v@.subrange(i + 1, v.len() as int) =~= s@.skip(i + 1));
            return Some((a, b));
        }
        i = i + 1;
    }
    assert(!s@.contains(c));
    None
}

/// `a` followed by `b`.
pub fn joined(a: &str, b: &str) -> (r: String)
    ensures
        r@ == a@ + b@,
{
    let mut r = a.to_string();
    r.append(b);
    r
}

/// `a`, `b` and `c`, in this order.
pub fn joined3(a: &str, b: &str, c: &str) -> (r: String)
    ensures
        r@ == a@ + b@ + c@,
{
    let mut r = a.to_string();
    r.append(b);
    r.append(c);
    r
}

/// A copy of an optional string.
pub fn clone_opt(o: &Option<String>) -> (r: Option<String>)
    ensures
        r == *o,
{
    match o {
        Some(s) => Some(s.clone()),
        None => None,
    }
}

/// The view of an optional string.
pub open spec fn opt_view(o: Option<String>) -> Option<Seq<char>> {
    match o {
        Some(s) => Some(s@),
        None => None,
    }
}

/// The view of an optional string slice.
pub open spec fn opt_str_view(o: Option<&str>) -> Option<Seq<char>> {
    match o {
        Some(s) => Some(s@),
        None => None,
    }
}

/// `o.as_deref()` for an optional `String`.
pub fn as_deref(o: &Option<String>) -> (r: Option<&str>)
    ensures
        opt_str_view(r) == opt_view(*o),
{
    match o {
        Some(s) => Some(s.as_str()),
        None => None,
    }
}

/// The first of two options that holds a value.
pub open spec fn first_some<T>(a: Option<T>, b: Option<T>) -> Option<T> {
    match a {
        Some(x) => Some(x),
        None => b,
    }
}

/// `a.or(b)` for optional strings.
pub fn or_else_string(a: Option<String>, b: Option<String>) -> (r: Option<String>)
    ensures
        r == first_some(a, b),
{
    match a {
        Some(x) => Some(x),
        None => b,
    }
}


// ---------------------------------------------------------------------------
// Facts about trimming and decimal numbers
// ---------------------------------------------------------------------------

/// A stripped string does not start with a stripped character.
pub proof fn lemma_strip_start_head(s: Seq<char>, k: CharClass)
    ensures
        strip_start(s, k).len() > 0 ==> !in_class(k, strip_start(s, k)[0]),
    decreases s.len(),
{
    if s.len() > 0 && in_class(k, s[0]) {
        lemma_strip_start_head(s.drop_first(), k);
    }
}

/// A stripped string does not end with a stripped character.
pub proof fn lemma_strip_end_last(s: Seq<char>, k: CharClass)
    ensures
        strip_end(s, k).len() > 0 ==> !in_class(k, strip_end(s, k).last()),
    decreases s.len(),
{
    if s.len() > 0 && in_class(k, s.last()) {
        lemma_strip_end_last(s.drop_last(), k);
    }
}

/// Trimming twice is trimming once.
pub proof fn lemma_trimmed_idempotent(s: Seq<char>)
    ensures
        trimmed(trimmed(s)) == trimmed(s),
        blank(trimmed(s)) == blank(s),
{
    let a = strip_start(s, CharClass::Whitespace);
    let b = strip_end(a, CharClass::Whitespace);
    lemma_strip_start_head(s, CharClass::Whitespace);
    lemma_strip_end_last(a, CharClass::Whitespace);
    lemma_strip_end_prefix(a, CharClass::Whitespace);
    if b.len() > 0 {
        assert(b[0] == a[0]);
        assert(strip_start(b, CharClass::Whitespace) == b);
    } else {
        assert(strip_start(b, CharClass::Whitespace) == b);
    }
}

/// `s` is its own trim when it neither starts nor ends with whitespace.
pub proof fn lemma_trimmed_fixed(s: Seq<char>)
    requires
        s.len() > 0 ==> !is_ws(s[0]) && !is_ws(s.last()),
    ensures
        trimmed(s) == s,
{
}

/// The digit characters are what they are meant to be.
pub proof fn lemma_digit_char(d: nat)
    requires
        d < 10,
    ensures
        is_digit(digit_char(d)),
        digit_value(digit_char(d)) == d,
        !is_ws(digit_char(d)),
        digit_char(d) != '+',
        digit_char(d) != '-',
        digit_char(d) != ':',
{
}

/// The decimal form of a number is a non-empty run of digits, which reads
/// back as the number.
pub proof fn lemma_decimal_reads_back(n: nat, max: nat)
    ensures
        decimal(n).len() >= 1,
        forall|i: int| 0 <= i < decimal(n).len() ==> is_digit(#[trigger] decimal(n)[i]) && !is_ws(
            decimal(n)[i],
        ) && decimal(n)[i] != ':',
        n <= max ==> scan_digits(decimal(n), max) == Ok::<nat, IntErrorKind>(n),
        n <= max ==> parse_unsigned(decimal(n), max) == Ok::<nat, IntErrorKind>(n),
    decreases n,
{
    if n < 10 {
        lemma_digit_char(n);
        assert(decimal(n).drop_last() =~= Seq::<char>::empty());
    } else {
        lemma_decimal_reads_back(n / 10, max);
        lemma_digit_char(n % 10);
        let d = decimal(n);
        assert(d.drop_last() =~= decimal(n / 10));
        assert forall|i: int| 0 <= i < d.len() implies is_digit(#[trigger] d[i]) && !is_ws(d[i])
            && d[i] != ':' by {
            if i < d.len() - 1 {
                assert(d[i] == decimal(n / 10)[i]);
            }
        }
        assert((n / 10) * 10 + n % 10 == n);
    }
    lemma_digit_char(if n < 10 { n } else { n % 10 });
}

} // verus!
