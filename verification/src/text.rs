//! Text primitives the wire format is built from: character sequences,
//! trimming, ASCII case folding, substring search and decimal numbers.
//! Each one is stated over `Seq<char>` and proved against that statement.

use vstd::prelude::*;

verus! {

broadcast use vstd::string::group_string_axioms;

// ---------------------------------------------------------------------------
// Characters
// ---------------------------------------------------------------------------

/// The Unicode `White_Space` code points: what `char::is_whitespace`
/// accepts, and so what `str::trim` removes.
pub open spec fn is_space(c: char) -> bool {
    let u = c as u32;
    (0x09 <= u && u <= 0x0D) || u == 0x20 || u == 0x85 || u == 0xA0 || u == 0x1680 || (0x2000
        <= u && u <= 0x200A) || u == 0x2028 || u == 0x2029 || u == 0x202F || u == 0x205F || u
        == 0x3000
}

pub fn char_is_space(c: char) -> (r: bool)
    ensures
        r == is_space(c),
{
    let u = c as u32;
    (0x09 <= u && u <= 0x0D) || u == 0x20 || u == 0x85 || u == 0xA0 || u == 0x1680 || (0x2000
        <= u && u <= 0x200A) || u == 0x2028 || u == 0x2029 || u == 0x202F || u == 0x205F || u
        == 0x3000
}

/// ASCII case folding of one character: `A`..`Z` become `a`..`z`, every
/// other character is left alone.
pub open spec fn ascii_lower(c: char) -> char {
    if 'A' <= c && c <= 'Z' {
        ((c as u32) + 32) as char
    } else {
        c
    }
}

pub open spec fn ascii_lower_seq(s: Seq<char>) -> Seq<char> {
    Seq::new(s.len(), |i: int| ascii_lower(s[i]))
}

pub fn char_ascii_lower(c: char) -> (r: char)
    ensures
        r == ascii_lower(c),
{
    if 'A' <= c && c <= 'Z' {
        let b: u8 = (c as u8) + 32;
        b as char
    } else {
        c
    }
}

// ---------------------------------------------------------------------------
// Strings as character vectors
// ---------------------------------------------------------------------------

/// The characters of a string, in order.
pub fn chars_of(s: &str) -> (v: Vec<char>)
    ensures
        v@ == s@,
{
    let mut v: Vec<char> = Vec::new();
    for c in it: s.chars()
        invariant
            v@ == it.seq().take(it.index() as int),
    {
        v.push(c);
        assert(v@ == it.seq().take(it.index() + 1 as int));
    }
    v
}

/// `String::from_iter` over characters: the string made of `v`, in order.
#[verifier::external_body]
pub(crate) fn string_from_chars(v: Vec<char>) -> (s: String)
    ensures
        s@ == v@,
{
    String::from_iter(v)
}

/// Equality of two character sequences.
pub fn chars_eq(a: &Vec<char>, b: &Vec<char>) -> (r: bool)
    ensures
        r == (a@ == b@),
{
    if a.len() != b.len() {
        return false;
    }
    let mut i: usize = 0;
    while i < a.len()
        invariant
            a.len() == b.len(),
            i <= a.len(),
            forall|j: int| 0 <= j < i ==> a@[j] == b@[j],
        decreases a.len() - i,
    {
        if a[i] != b[i] {
            return false;
        }
        i = i + 1;
    }
    assert(a@ =~= b@);
    true
}

/// Whether `a` equals the string `b`.
pub fn chars_eq_str(a: &Vec<char>, b: &str) -> (r: bool)
    ensures
        r == (a@ == b@),
{
    let bv = chars_of(b);
    chars_eq(a, &bv)
}

/// The view of an optional string.
pub open spec fn opt_view(o: Option<String>) -> Option<Seq<char>> {
    match o {
        Some(s) => Some(s@),
        None => None,
    }
}

/// The text of an optional string, empty when absent.
pub open spec fn or_empty(o: Option<String>) -> Seq<char> {
    match o {
        Some(s) => s@,
        None => Seq::empty(),
    }
}

/// `Option::unwrap_or_default` on a string.
pub fn unwrap_or_empty(o: Option<String>) -> (r: String)
    ensures
        r@ == or_empty(o),
{
    match o {
        Some(s) => s,
        None => String::new(),
    }
}

/// Equality of two strings.
pub fn str_eq(a: &str, b: &str) -> (r: bool)
    ensures
        r == (a@ == b@),
{
    let av = chars_of(a);
    chars_eq_str(&av, b)
}

/// Appends the characters of `s` to `v`.
pub fn push_str(v: &mut Vec<char>, s: &str)
    ensures
        final(v)@ == old(v)@ + s@,
{
    let sv = chars_of(s);
    push_chars(v, &sv);
}

/// Appends the characters of `s` to `v`.
pub fn push_chars(v: &mut Vec<char>, s: &Vec<char>)
    ensures
        final(v)@ == old(v)@ + s@,
{
    let ghost start = v@;
    let mut i: usize = 0;
    while i < s.len()
        invariant
            i <= s.len(),
            v@ == start + s@.take(i as int),
        decreases s.len() - i,
    {
        v.push(s[i]);
        i = i + 1;
        assert(v@ =~= start + s@.take(i as int));
    }
    assert(s@.take(s.len() as int) =~= s@);
}

/// Whether `s` begins with `prefix`.
pub open spec fn has_prefix(s: Seq<char>, prefix: Seq<char>) -> bool {
    prefix.len() <= s.len() && s.take(prefix.len() as int) == prefix
}

pub fn starts_with(s: &Vec<char>, prefix: &str) -> (r: bool)
    ensures
        r == has_prefix(s@, prefix@),
{
    let p = chars_of(prefix);
    if p.len() > s.len() {
        return false;
    }
    let mut i: usize = 0;
    while i < p.len()
        invariant
            p@ == prefix@,
            p.len() <= s.len(),
            i <= p.len(),
            forall|j: int| 0 <= j < i ==> s@[j] == p@[j],
        decreases p.len() - i,
    {
        if s[i] != p[i] {
            assert(s@.take(p.len() as int)[i as int] != p@[i as int]);
            return false;
        }
        i = i + 1;
    }
    assert(s@.take(p.len() as int) =~= p@);
    true
}

/// The characters of `s` from index `from` on.
pub fn chars_from(s: &Vec<char>, from: usize) -> (r: Vec<char>)
    requires
        from <= s.len(),
    ensures
        r@ == s@.skip(from as int),
{
    chars_range(s, from, s.len())
}

/// The characters of `s` in `[from, to)`.
pub fn chars_range(s: &Vec<char>, from: usize, to: usize) -> (r: Vec<char>)
    requires
        from <= to <= s.len(),
    ensures
        r@ == s@.subrange(from as int, to as int),
{
    let mut r: Vec<char> = Vec::new();
    let mut i: usize = from;
    while i < to
        invariant
            from <= i <= to <= s.len(),
            r@ == s@.subrange(from as int, i as int),
        decreases to - i,
    {
        r.push(s[i]);
        i = i + 1;
        assert(r@ =~= s@.subrange(from as int, i as int));
    }
    r
}

// ---------------------------------------------------------------------------
// Trimming and case folding
// ---------------------------------------------------------------------------

/// `s` without its leading white space.
pub open spec fn trim_start(s: Seq<char>) -> Seq<char>
    decreases s.len(),
{
    if s.len() > 0 && is_space(s[0]) {
        trim_start(s.drop_first())
    } else {
        s
    }
}

/// `s` without its trailing white space.
pub open spec fn trim_end(s: Seq<char>) -> Seq<char>
    decreases s.len(),
{
    if s.len() > 0 && is_space(s.last()) {
        trim_end(s.drop_last())
    } else {
        s
    }
}

/// `s` without leading and trailing white space, as `str::trim` leaves it.
pub open spec fn trim(s: Seq<char>) -> Seq<char> {
    trim_end(trim_start(s))
}

proof fn lemma_trim_start_skip(s: Seq<char>, i: int)
    requires
        0 <= i <= s.len(),
        forall|j: int| 0 <= j < i ==> is_space(s[j]),
    ensures
        trim_start(s) == trim_start(s.skip(i)),
    decreases i,
{
    if i > 0 {
        assert(s.drop_first().skip(i - 1) =~= s.skip(i));
        lemma_trim_start_skip(s.drop_first(), i - 1);
    } else {
        assert(s.skip(0) =~= s);
    }
}

proof fn lemma_trim_end_take(s: Seq<char>, k: int)
    requires
        0 <= k <= s.len(),
        forall|j: int| k <= j < s.len() ==> is_space(s[j]),
    ensures
        trim_end(s) == trim_end(s.take(k)),
    decreases s.len() - k,
{
    if k < s.len() {
        assert(s.drop_last().take(k) =~= s.take(k));
        lemma_trim_end_take(s.drop_last(), k);
    } else {
        assert(s.take(k) =~= s);
    }
}

/// Case folding leaves white space alone.
proof fn lemma_lower_keeps_space(c: char)
    ensures
        is_space(ascii_lower(c)) == is_space(c),
        ascii_lower(ascii_lower(c)) == ascii_lower(c),
{
}

/// Trimming and case folding can be done in either order.
pub proof fn lemma_trim_lower_commute(s: Seq<char>)
    ensures
        trim(ascii_lower_seq(s)) == ascii_lower_seq(trim(s)),
{
    lemma_trim_start_lower(s);
    lemma_trim_end_lower(trim_start(s));
}

proof fn lemma_trim_start_lower(s: Seq<char>)
    ensures
        trim_start(ascii_lower_seq(s)) == ascii_lower_seq(trim_start(s)),
    decreases s.len(),
{
    let l = ascii_lower_seq(s);
    if s.len() > 0 {
        lemma_lower_keeps_space(s[0]);
        if is_space(s[0]) {
            assert(l.drop_first() =~= ascii_lower_seq(s.drop_first()));
            lemma_trim_start_lower(s.drop_first());
        }
    }
}

proof fn lemma_trim_end_lower(s: Seq<char>)
    ensures
        trim_end(ascii_lower_seq(s)) == ascii_lower_seq(trim_end(s)),
    decreases s.len(),
{
    let l = ascii_lower_seq(s);
    if s.len() > 0 {
        lemma_lower_keeps_space(s.last());
        if is_space(s.last()) {
            assert(l.drop_last() =~= ascii_lower_seq(s.drop_last()));
            lemma_trim_end_lower(s.drop_last());
        }
    }
}

/// ASCII upper-casing of one character: `a`..`z` become `A`..`Z`, every
/// other character is left alone (`char::to_ascii_uppercase`).
pub open spec fn ascii_upper(c: char) -> char {
    if 'a' <= c && c <= 'z' {
        ((c as u32) - 32) as char
    } else {
        c
    }
}

/// `str::to_ascii_uppercase`.
pub open spec fn ascii_upper_seq(s: Seq<char>) -> Seq<char> {
    Seq::new(s.len(), |i: int| ascii_upper(s[i]))
}

/// Folding an upper-cased string gives what folding the string gives.
pub proof fn lemma_lower_of_upper(s: Seq<char>)
    ensures
        ascii_lower_seq(ascii_upper_seq(s)) == ascii_lower_seq(s),
{
    assert(ascii_lower_seq(ascii_upper_seq(s)) =~= ascii_lower_seq(s));
}

/// Text after a non-blank start survives leading trimming as it is.
proof fn lemma_trim_start_append(x: Seq<char>, t: Seq<char>)
    ensures
        trim_start(x).len() > 0 ==> trim_start(x + t) == trim_start(x) + t,
        trim_start(x).len() == 0 ==> trim_start(x + t) == trim_start(t),
    decreases x.len(),
{
    if x.len() == 0 {
        assert(x + t =~= t);
    } else {
        assert((x + t)[0] == x[0]);
        if is_space(x[0]) {
            assert((x + t).drop_first() =~= x.drop_first() + t);
            lemma_trim_start_append(x.drop_first(), t);
        }
    }
}

/// Trimming ignores a space added at either end.
pub proof fn lemma_trim_ignores_padding(s: Seq<char>)
    ensures
        trim(seq![' '] + s + seq![' ']) == trim(s),
{
    let sp = seq![' '];
    let padded = sp + s + sp;
    assert(is_space(' '));
    assert(padded.drop_first() =~= s + sp);
    assert(trim_start(padded) == trim_start(s + sp));
    lemma_trim_start_append(s, sp);
    let a = trim_start(s);
    if a.len() > 0 {
        assert((a + sp).drop_last() =~= a);
        assert(trim_end(a + sp) == trim_end(a));
    } else {
        assert(sp.drop_first() =~= Seq::<char>::empty());
        assert(trim_start(sp) == trim_start(Seq::<char>::empty()));
        assert(trim_end(Seq::<char>::empty()) == Seq::<char>::empty());
    }
}

/// Case folding twice is case folding once.
pub proof fn lemma_lower_idempotent(s: Seq<char>)
    ensures
        ascii_lower_seq(ascii_lower_seq(s)) == ascii_lower_seq(s),
{
    assert forall|i: int| 0 <= i < s.len() implies ascii_lower_seq(ascii_lower_seq(s))[i]
        == ascii_lower_seq(s)[i] by {
        lemma_lower_keeps_space(s[i]);
    }
    assert(ascii_lower_seq(ascii_lower_seq(s)) =~= ascii_lower_seq(s));
}

proof fn lemma_trim_end_keeps_front(s: Seq<char>)
    requires
        s.len() == 0 || !is_space(s[0]),
    ensures
        trim_start(trim_end(s)) == trim_end(s),
    decreases s.len(),
{
    if s.len() > 0 && is_space(s.last()) {
        lemma_trim_end_keeps_front(s.drop_last());
    }
}

proof fn lemma_trim_start_settled(s: Seq<char>)
    ensures
        trim_start(s).len() == 0 || !is_space(trim_start(s)[0]),
        trim_start(trim_start(s)) == trim_start(s),
    decreases s.len(),
{
    if s.len() > 0 && is_space(s[0]) {
        lemma_trim_start_settled(s.drop_first());
    }
}

proof fn lemma_trim_end_settled(s: Seq<char>)
    ensures
        trim_end(trim_end(s)) == trim_end(s),
    decreases s.len(),
{
    if s.len() > 0 && is_space(s.last()) {
        lemma_trim_end_settled(s.drop_last());
    }
}

/// Trimming twice is trimming once.
pub proof fn lemma_trim_idempotent(s: Seq<char>)
    ensures
        trim(trim(s)) == trim(s),
{
    let a = trim_start(s);
    lemma_trim_start_settled(s);
    lemma_trim_end_keeps_front(a);
    lemma_trim_end_settled(a);
}

/// `str::trim` over a character vector.
pub fn trim_chars(s: &Vec<char>) -> (r: Vec<char>)
    ensures
        r@ == trim(s@),
{
    let mut lo: usize = 0;
    while lo < s.len() && char_is_space(s[lo])
        invariant
            lo <= s.len(),
            forall|j: int| 0 <= j < lo ==> is_space(s@[j]),
        decreases s.len() - lo,
    {
        lo = lo + 1;
    }
    proof {
        lemma_trim_start_skip(s@, lo as int);
    }
    let mut hi: usize = s.len();
    while hi > lo && char_is_space(s[hi - 1])
        invariant
            lo <= hi <= s.len(),
            forall|j: int| hi <= j < s.len() ==> is_space(s@[j]),
        decreases hi,
    {
        hi = hi - 1;
    }
    let r = chars_range(s, lo, hi);
    proof {
        let t = s@.skip(lo as int);
        assert(trim_start(t) == t);
        assert(t.take(hi - lo) =~= r@);
        lemma_trim_end_take(t, hi - lo);
        assert(trim_end(r@) == r@);
    }
    r
}

/// ASCII case folding of a character vector (`str::to_ascii_lowercase`).
pub fn ascii_lowercase(s: &Vec<char>) -> (r: Vec<char>)
    ensures
        r@ == ascii_lower_seq(s@),
{
    let mut r: Vec<char> = Vec::new();
    let mut i: usize = 0;
    while i < s.len()
        invariant
            i <= s.len(),
            r@.len() == i,
            forall|j: int| 0 <= j < i ==> r@[j] == ascii_lower(s@[j]),
        decreases s.len() - i,
    {
        r.push(char_ascii_lower(s[i]));
        i = i + 1;
    }
    assert(r@ =~= ascii_lower_seq(s@));
    r
}

// ---------------------------------------------------------------------------
// Substrings
// ---------------------------------------------------------------------------

/// Whether `pat` occurs in `s` at position `i`.
pub open spec fn occurs_at(s: Seq<char>, pat: Seq<char>, i: int) -> bool {
    0 <= i && i + pat.len() <= s.len() && s.subrange(i, i + pat.len()) == pat
}

/// Whether `pat` occurs anywhere in `s` (`str::contains`).
pub open spec fn contains(s: Seq<char>, pat: Seq<char>) -> bool {
    exists|i: int| occurs_at(s, pat, i)
}

fn occurs_at_exec(s: &Vec<char>, pat: &Vec<char>, i: usize) -> (r: bool)
    requires
        i + pat.len() <= s.len(),
    ensures
        r == occurs_at(s@, pat@, i as int),
{
    let mut k: usize = 0;
    while k < pat.len()
        invariant
            i + pat.len() <= s.len(),
            k <= pat.len(),
            forall|j: int| 0 <= j < k ==> s@[i + j] == pat@[j],
        decreases pat.len() - k,
    {
        if s[i + k] != pat[k] {
            assert(s@.subrange(i as int, i + pat.len())[k as int] != pat@[k as int]);
            return false;
        }
        k = k + 1;
    }
    assert(s@.subrange(i as int, i + pat.len()) =~= pat@);
    true
}

/// Substring search.
pub fn contains_chars(s: &Vec<char>, pat: &Vec<char>) -> (r: bool)
    ensures
        r == contains(s@, pat@),
{
    if pat.len() > s.len() {
        return false;
    }
    let n = s.len() - pat.len();
    let mut i: usize = 0;
    loop
        invariant
            pat.len() <= s.len(),
            n == s.len() - pat.len(),
            i <= n,
            forall|j: int| 0 <= j < i ==> !occurs_at(s@, pat@, j),
        decreases n - i,
    {
        if occurs_at_exec(s, pat, i) {
            return true;
        }
        if i == n {
            proof {
                true_if_found(s@, pat@, i + 1);
            }
            return false;
        }
        i = i + 1;
    }
}

proof fn true_if_found(s: Seq<char>, pat: Seq<char>, i: int)
    requires
        i + pat.len() > s.len(),
        forall|j: int| 0 <= j < i ==> !occurs_at(s, pat, j),
    ensures
        !contains(s, pat),
{
    assert forall|j: int| !occurs_at(s, pat, j) by {
        if j >= i {
            assert(!(j + pat.len() <= s.len()));
        }
    }
}

/// Substring search for a literal pattern.
pub fn contains_str(s: &Vec<char>, pat: &str) -> (r: bool)
    ensures
        r == contains(s@, pat@),
{
    let p = chars_of(pat);
    contains_chars(s, &p)
}

// ---------------------------------------------------------------------------
// Decimal numbers
// ---------------------------------------------------------------------------

/// The decimal digit character for `d` (`0 <= d < 10`).
pub open spec fn digit_char(d: nat) -> char {
    if d == 0 {
        '0'
    } else if d == 1 {
        '1'
    } else if d == 2 {
        '2'
    } else if d == 3 {
        '3'
    } else if d == 4 {
        '4'
    } else if d == 5 {
        '5'
    } else if d == 6 {
        '6'
    } else if d == 7 {
        '7'
    } else if d == 8 {
        '8'
    } else {
        '9'
    }
}

/// Whether `c` is one of `0`..`9`.
pub open spec fn is_digit(c: char) -> bool {
    '0' <= c && c <= '9'
}

/// The value of the digit character `c`.
pub open spec fn digit_value(c: char) -> nat {
    ((c as u32) - ('0' as u32)) as nat
}

/// The decimal representation of `n`, without leading zeros.
pub open spec fn decimal(n: nat) -> Seq<char>
    decreases n,
{
    if n < 10 {
        seq![digit_char(n)]
    } else {
        decimal(n / 10).push(digit_char(n % 10))
    }
}

/// The decimal representation of a signed value: `-` then the magnitude.
pub open spec fn signed_decimal(n: int) -> Seq<char> {
    if n < 0 {
        seq!['-'] + decimal((-n) as nat)
    } else {
        decimal(n as nat)
    }
}

fn digit_of(d: u64) -> (c: char)
    requires
        d < 10,
    ensures
        c == digit_char(d as nat),
{
    if d == 0 {
        '0'
    } else if d == 1 {
        '1'
    } else if d == 2 {
        '2'
    } else if d == 3 {
        '3'
    } else if d == 4 {
        '4'
    } else if d == 5 {
        '5'
    } else if d == 6 {
        '6'
    } else if d == 7 {
        '7'
    } else if d == 8 {
        '8'
    } else {
        '9'
    }
}

/// Appends the decimal representation of `n` to `v`.
pub fn push_decimal(v: &mut Vec<char>, n: u64)
    ensures
        final(v)@ == old(v)@ + decimal(n as nat),
    decreases n,
{
    if n < 10 {
        v.push(digit_of(n));
        assert(v@ =~= old(v)@ + decimal(n as nat));
    } else {
        push_decimal(v, n / 10);
        v.push(digit_of(n % 10));
        assert(v@ =~= old(v)@ + decimal(n as nat));
    }
}

/// Appends the decimal representation of a signed `n` to `v`.
pub fn push_signed_decimal(v: &mut Vec<char>, n: i64)
    ensures
        final(v)@ == old(v)@ + signed_decimal(n as int),
{
    if n < 0 {
        v.push('-');
        let mag: u64 = if n == i64::MIN {
            9223372036854775808u64
        } else {
            (-n) as u64
        };
        push_decimal(v, mag);
        assert(v@ =~= old(v)@ + signed_decimal(n as int));
    } else {
        push_decimal(v, n as u64);
    }
}

/// The value of a string of digits.
pub open spec fn digits_value(s: Seq<char>) -> nat
    decreases s.len(),
{
    if s.len() == 0 {
        0
    } else {
        digits_value(s.drop_last()) * 10 + digit_value(s.last())
    }
}

pub open spec fn all_digits(s: Seq<char>) -> bool {
    forall|i: int| 0 <= i < s.len() ==> is_digit(#[trigger] s[i])
}

/// What `str::parse::<u64>` gives: an optional `+`, then one or more
/// digits whose value fits in a `u64`.
pub open spec fn parse_u64_spec(s: Seq<char>) -> Option<u64> {
    let body = if s.len() > 0 && s[0] == '+' {
        s.drop_first()
    } else {
        s
    };
    if body.len() > 0 && all_digits(body) && digits_value(body) <= u64::MAX {
        Some(digits_value(body) as u64)
    } else {
        None
    }
}

/// What `str::parse::<i64>` gives: an optional `+` or `-`, then one or
/// more digits, the signed value in the range of `i64`.
pub open spec fn parse_i64_spec(s: Seq<char>) -> Option<i64> {
    let neg = s.len() > 0 && s[0] == '-';
    let body = if s.len() > 0 && (s[0] == '+' || s[0] == '-') {
        s.drop_first()
    } else {
        s
    };
    let v: int = if neg {
        -(digits_value(body) as int)
    } else {
        digits_value(body) as int
    };
    if body.len() > 0 && all_digits(body) && i64::MIN <= v && v <= i64::MAX {
        Some(v as i64)
    } else {
        None
    }
}

proof fn lemma_digits_value_grows(s: Seq<char>, i: int, j: int)
    requires
        0 <= i <= j <= s.len(),
        all_digits(s),
    ensures
        digits_value(s.take(i)) <= digits_value(s.take(j)),
    decreases j - i,
{
    if i < j {
        lemma_digits_value_grows(s, i, j - 1);
        assert(s.take(j).drop_last() =~= s.take(j - 1));
        let a = digits_value(s.take(j - 1));
        assert(a <= a * 10) by (nonlinear_arith);
    }
}

/// Reads the digits of `s[from..]`. `None` when one is not a digit, when
/// there are none, or when the value exceeds `limit`.
fn read_digits(s: &Vec<char>, from: usize, limit: u64) -> (r: Option<u64>)
    requires
        from <= s.len(),
        limit >= 9,
    ensures
        match r {
            Some(v) => from < s.len() && all_digits(s@.skip(from as int)) && digits_value(
                s@.skip(from as int),
            ) == v && v <= limit,
            None => !(from < s.len() && all_digits(s@.skip(from as int)) && digits_value(
                s@.skip(from as int),
            ) <= limit),
        },
{
    if from == s.len() {
        return None;
    }
    let ghost body = s@.skip(from as int);
    let mut acc: u64 = 0;
    let mut i: usize = from;
    while i < s.len()
        invariant
            from <= i <= s.len(),
            body == s@.skip(from as int),
            forall|j: int| 0 <= j < i - from ==> is_digit(#[trigger] body[j]),
            acc == digits_value(body.take(i - from)),
            acc <= limit,
            limit >= 9,
        decreases s.len() - i,
    {
        let c = s[i];
        if !('0' <= c && c <= '9') {
            assert(!is_digit(body[i - from]));
            return None;
        }
        let d = (c as u32 - '0' as u32) as u64;
        assert(body.take(i + 1 - from).drop_last() =~= body.take(i - from));
        if acc > (limit - d) / 10 {
            proof {
                assert(acc * 10 + d > limit) by (nonlinear_arith)
                    requires
                        acc > (limit - d) / 10,
                        d <= limit || true,
                        d < 10,
                ;
                if all_digits(body) {
                    lemma_digits_value_grows(body, i + 1 - from, body.len() as int);
                    assert(body.take(body.len() as int) =~= body);
                }
            }
            return None;
        }
        acc = acc * 10 + d;
        i = i + 1;
    }
    assert(body.take(s.len() - from) =~= body);
    Some(acc)
}

/// `str::parse::<u64>` over a character vector.
pub fn parse_u64(s: &Vec<char>) -> (r: Option<u64>)
    ensures
        r == parse_u64_spec(s@),
{
    let from: usize = if s.len() > 0 && s[0] == '+' {
        1
    } else {
        0
    };
    assert(s@.skip(from as int) =~= (if s@.len() > 0 && s@[0] == '+' {
        s@.drop_first()
    } else {
        s@
    }));
    read_digits(s, from, u64::MAX)
}

/// `str::parse::<i64>` over a character vector.
pub fn parse_i64(s: &Vec<char>) -> (r: Option<i64>)
    ensures
        r == parse_i64_spec(s@),
{
    let neg = s.len() > 0 && s[0] == '-';
    let from: usize = if s.len() > 0 && (s[0] == '+' || s[0] == '-') {
        1
    } else {
        0
    };
    let ghost body = s@.skip(from as int);
    assert(body =~= (if s@.len() > 0 && (s@[0] == '+' || s@[0] == '-') {
        s@.drop_first()
    } else {
        s@
    }));
    let limit: u64 = if neg {
        9223372036854775808u64
    } else {
        9223372036854775807u64
    };
    match read_digits(s, from, limit) {
        Some(mag) => {
            if neg {
                if mag == 9223372036854775808u64 {
                    Some(i64::MIN)
                } else {
                    Some(-(mag as i64))
                }
            } else {
                Some(mag as i64)
            }
        },
        None => None,
    }
}

} // verus!
