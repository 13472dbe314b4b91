//! Character-level string helpers with exact specifications.
//!
//! Strings are modelled by their `Seq<char>` view. Every helper here states
//! its result over that view, so callers can reason about the text they build.

use vstd::prelude::*;
use vstd::string::*;

verus! {

/// The view of an optional string.
pub open spec fn opt_view(o: Option<String>) -> Option<Seq<char>> {
    match o {
        Some(s) => Some(s@),
        None => None,
    }
}


/// Appends one character to a string (`String::push`).
#[verifier::external_body]
pub(crate) fn string_push(s: &mut String, c: char)
    ensures
        final(s)@ == old(s)@.push(c),
{
    s.push(c);
}

// ---------------------------------------------------------------------------
// Conversions between strings and character vectors
// ---------------------------------------------------------------------------

/// The characters of a string, in order.
pub fn chars_of(s: &str) -> (r: Vec<char>)
    ensures
        r@ == s@,
{
    let mut r: Vec<char> = Vec::new();
    for c in it: s.chars()
        invariant
            r@ == it.seq().take(it.index() as int),
            it.seq() == s@,
    {
        r.push(c);
    }
    r
}

/// Builds a string from a character sequence.
pub fn string_of(v: &Vec<char>) -> (s: String)
    ensures
        s@ == v@,
{
    let mut s = String::new();
    let mut i: usize = 0;
    while i < v.len()
        invariant
            i <= v.len(),
            s@ == v@.take(i as int),
        decreases v.len() - i,
    {
        string_push(&mut s, v[i]);
        assert(v@.take(i as int + 1) =~= v@.take(i as int).push(v@[i as int]));
        i = i + 1;
    }
    assert(v@.take(v@.len() as int) =~= v@);
    s
}

/// Copies a string slice into an owned string.
pub fn owned(s: &str) -> (r: String)
    ensures
        r@ == s@,
{
    String::from_str(s)
}

/// Appends the characters of `v` to `s`.
pub fn push_all(s: &mut String, v: &str)
    ensures
        final(s)@ == old(s)@ + v@,
{
    s.append(v);
}

/// The concatenation of two strings.
pub fn concat2(a: &str, b: &str) -> (r: String)
    ensures
        r@ == a@ + b@,
{
    let mut r = String::from_str(a);
    r.append(b);
    r
}

/// The concatenation of three strings.
pub fn concat3(a: &str, b: &str, c: &str) -> (r: String)
    ensures
        r@ == a@ + b@ + c@,
{
    let mut r = String::from_str(a);
    r.append(b);
    r.append(c);
    r
}

// ---------------------------------------------------------------------------
// Equality and ordering
// ---------------------------------------------------------------------------

/// Character-by-character equality of two strings.
pub fn str_eq(a: &str, b: &str) -> (r: bool)
    ensures
        r == (a@ == b@),
{
    let av = chars_of(a);
    let bv = chars_of(b);
    seq_eq(&av, &bv)
}

/// Equality of two character vectors.
pub fn seq_eq(av: &Vec<char>, bv: &Vec<char>) -> (r: bool)
    ensures
        r == (av@ == bv@),
{
    if av.len() != bv.len() {
        return false;
    }
    let mut i: usize = 0;
    while i < av.len()
        invariant
            av.len() == bv.len(),
            i <= av.len(),
            forall|j: int| 0 <= j < i ==> av@[j] == bv@[j],
        decreases av.len() - i,
    {
        if av[i] != bv[i] {
            return false;
        }
        i = i + 1;
    }
    assert(av@ =~= bv@);
    true
}

/// Strict lexicographic order on character sequences, by code point.
///
/// For strings this is the order of `String`'s `Ord`, since UTF-8 byte order
/// and code point order agree.
pub open spec fn lex_lt(a: Seq<char>, b: Seq<char>) -> bool
    decreases a.len(),
{
    if a.len() == 0 {
        b.len() > 0
    } else if b.len() == 0 {
        false
    } else if a[0] != b[0] {
        (a[0] as u32) < (b[0] as u32)
    } else {
        lex_lt(a.drop_first(), b.drop_first())
    }
}

/// `lex_lt` never relates a sequence to itself.
pub proof fn lemma_lex_irreflexive(a: Seq<char>)
    ensures
        !lex_lt(a, a),
    decreases a.len(),
{
    if a.len() > 0 {
        lemma_lex_irreflexive(a.drop_first());
    }
}

/// `lex_lt` is transitive.
pub proof fn lemma_lex_transitive(a: Seq<char>, b: Seq<char>, c: Seq<char>)
    requires
        lex_lt(a, b),
        lex_lt(b, c),
    ensures
        lex_lt(a, c),
    decreases a.len(),
{
    if a.len() > 0 && b.len() > 0 && c.len() > 0 {
        if a[0] == b[0] && b[0] == c[0] {
            lemma_lex_transitive(a.drop_first(), b.drop_first(), c.drop_first());
        }
    }
}

/// `lex_lt` is total on distinct sequences.
pub proof fn lemma_lex_total(a: Seq<char>, b: Seq<char>)
    ensures
        a == b || lex_lt(a, b) || lex_lt(b, a),
    decreases a.len(),
{
    if a.len() > 0 && b.len() > 0 {
        if a[0] == b[0] {
            lemma_lex_total(a.drop_first(), b.drop_first());
            if a.drop_first() == b.drop_first() {
                assert(a =~= seq![a[0]] + a.drop_first());
                assert(b =~= seq![b[0]] + b.drop_first());
            }
        } else {
            lemma_char_u32_injective(a[0], b[0]);
        }
    } else if a.len() == 0 && b.len() == 0 {
        assert(a =~= b);
    }
}

/// Distinct characters have distinct code points.
pub proof fn lemma_char_u32_injective(a: char, b: char)
    ensures
        a != b ==> (a as u32) != (b as u32),
{
}

/// `lex_lt` is asymmetric.
pub proof fn lemma_lex_asymmetric(a: Seq<char>, b: Seq<char>)
    requires
        lex_lt(a, b),
    ensures
        !lex_lt(b, a),
{
    if lex_lt(b, a) {
        lemma_lex_transitive(a, b, a);
        lemma_lex_irreflexive(a);
    }
}

/// Whether `a` sorts strictly before `b`.
pub fn seq_lt(a: &Vec<char>, b: &Vec<char>) -> (r: bool)
    ensures
        r == lex_lt(a@, b@),
{
    let mut i: usize = 0;
    assert(a@.skip(0) =~= a@);
    assert(b@.skip(0) =~= b@);
    while i < a.len() && i < b.len()
        invariant
            i <= a.len(),
            i <= b.len(),
            a@.take(i as int) == b@.take(i as int),
            lex_lt(a@, b@) == lex_lt(a@.skip(i as int), b@.skip(i as int)),
        decreases a.len() - i,
    {
        if a[i] != b[i] {
            proof {
                assert(a@.skip(i as int)[0] == a@[i as int]);
                assert(b@.skip(i as int)[0] == b@[i as int]);
            }
            return (a[i] as u32) < (b[i] as u32);
        }
        proof {
            assert(a@.skip(i as int).drop_first() =~= a@.skip(i as int + 1));
            assert(b@.skip(i as int).drop_first() =~= b@.skip(i as int + 1));
            assert(a@.take(i as int + 1) =~= a@.take(i as int).push(a@[i as int]));
            assert(b@.take(i as int + 1) =~= b@.take(i as int).push(b@[i as int]));
        }
        i = i + 1;
    }
    i < b.len()
}

/// Whether string `a` sorts strictly before string `b`.
pub fn str_lt(a: &str, b: &str) -> (r: bool)
    ensures
        r == lex_lt(a@, b@),
{
    let av = chars_of(a);
    let bv = chars_of(b);
    seq_lt(&av, &bv)
}

// ---------------------------------------------------------------------------
// ASCII case folding
// ---------------------------------------------------------------------------

/// ASCII lowercase of one character (`char::to_ascii_lowercase`).
pub open spec fn ascii_lower(c: char) -> char {
    if 65 <= (c as u32) && (c as u32) <= 90 {
        ((c as u32) + 32) as char
    } else {
        c
    }
}

/// ASCII lowercase of a character sequence.
pub open spec fn lower_seq(s: Seq<char>) -> Seq<char> {
    s.map_values(|c: char| ascii_lower(c))
}

/// Lowercasing twice is lowercasing once.
pub proof fn lemma_lower_idempotent(s: Seq<char>)
    ensures
        lower_seq(lower_seq(s)) == lower_seq(s),
{
    assert forall|i: int| 0 <= i < s.len() implies #[trigger] ascii_lower(ascii_lower(s[i])) == ascii_lower(s[i]) by {
        let c = s[i];
        if 65 <= (c as u32) && (c as u32) <= 90 {
            assert((((c as u32) + 32) as char) as u32 == (c as u32) + 32);
        }
    }
    assert(lower_seq(lower_seq(s)) =~= lower_seq(s));
}

/// ASCII lowercase of one character.
pub fn to_ascii_lower(c: char) -> (r: char)
    ensures
        r == ascii_lower(c),
{
    let cu = c as u32;
    if 65 <= cu && cu <= 90 {
        let v: u32 = cu + 32;
        assert(v < 128);
        let b: u8 = v as u8;
        b as char
    } else {
        c
    }
}

/// ASCII lowercase of a string (`str::to_ascii_lowercase`).
pub fn lower_ascii(s: &str) -> (r: String)
    ensures
        r@ == lower_seq(s@),
{
    let v = chars_of(s);
    let mut out: Vec<char> = Vec::new();
    let mut i: usize = 0;
    while i < v.len()
        invariant
            i <= v.len(),
            v@ == s@,
            out@ == lower_seq(v@.take(i as int)),
        decreases v.len() - i,
    {
        let c = to_ascii_lower(v[i]);
        out.push(c);
        assert(lower_seq(v@.take(i as int + 1)) =~= lower_seq(v@.take(i as int)).push(
            ascii_lower(v@[i as int]),
        ));
        i = i + 1;
    }
    assert(v@.take(v@.len() as int) =~= v@);
    string_of(&out)
}

/// Equality up to ASCII case (`str::eq_ignore_ascii_case`).
pub fn eq_ignore_ascii_case(a: &str, b: &str) -> (r: bool)
    ensures
        r == (lower_seq(a@) == lower_seq(b@)),
{
    let la = lower_ascii(a);
    let lb = lower_ascii(b);
    str_eq(la.as_str(), lb.as_str())
}

// ---------------------------------------------------------------------------
// Searching
// ---------------------------------------------------------------------------

/// Whether a sequence contains a character.
pub open spec fn has_char(s: Seq<char>, c: char) -> bool {
    exists|i: int| 0 <= i < s.len() && s[i] == c
}

/// Whether `s` contains the character `c`.
pub fn contains_char(s: &str, c: char) -> (r: bool)
    ensures
        r == has_char(s@, c),
{
    let v = chars_of(s);
    let mut i: usize = 0;
    while i < v.len()
        invariant
            i <= v.len(),
            v@ == s@,
            forall|j: int| 0 <= j < i ==> v@[j] != c,
        decreases v.len() - i,
    {
        if v[i] == c {
            return true;
        }
        i = i + 1;
    }
    false
}

/// The index of the first occurrence of `c` in `s`, if any.
pub open spec fn first_index_of(s: Seq<char>, c: char) -> Option<int> {
    if has_char(s, c) {
        Some(choose|i: int| 0 <= i < s.len() && s[i] == c && forall|j: int| 0 <= j < i ==> s[j] != c)
    } else {
        None
    }
}

/// Finds the first position of `c` in `v`.
pub fn find_char(v: &Vec<char>, c: char) -> (r: Option<usize>)
    ensures
        match r {
            Some(i) => i < v.len() && v@[i as int] == c && forall|j: int| 0 <= j < i ==> v@[j] != c,
            None => !has_char(v@, c),
        },
{
    let mut i: usize = 0;
    while i < v.len()
        invariant
            i <= v.len(),
            forall|j: int| 0 <= j < i ==> v@[j] != c,
        decreases v.len() - i,
    {
        if v[i] == c {
            return Some(i);
        }
        i = i + 1;
    }
    None
}

/// The slice `v[from..to]` as a string.
pub fn substring(v: &Vec<char>, from: usize, to: usize) -> (s: String)
    requires
        from <= to <= v@.len(),
    ensures
        s@ == v@.subrange(from as int, to as int),
{
    let mut s = String::new();
    let mut i: usize = from;
    while i < to
        invariant
            from <= i <= to,
            to <= v@.len(),
            s@ == v@.subrange(from as int, i as int),
        decreases to - i,
    {
        string_push(&mut s, v[i]);
        assert(v@.subrange(from as int, i as int + 1) =~= v@.subrange(from as int, i as int).push(
            v@[i as int],
        ));
        i = i + 1;
    }
    s
}

/// Splits at the first occurrence of `c` (`str::split_once`).
pub open spec fn spec_split_once(s: Seq<char>, c: char) -> Option<(Seq<char>, Seq<char>)> {
    match first_index_of(s, c) {
        Some(i) => Some((s.take(i), s.skip(i + 1))),
        None => None,
    }
}

/// Splits `s` at the first `c`, returning the parts before and after it.
pub fn split_once(s: &str, c: char) -> (r: Option<(String, String)>)
    ensures
        match r {
            Some((a, b)) => spec_split_once(s@, c) == Some((a@, b@)),
            None => spec_split_once(s@, c) is None,
        },
{
    let v = chars_of(s);
    match find_char(&v, c) {
        Some(i) => {
            let a = substring(&v, 0, i);
            let b = substring(&v, i + 1, v.len());
            proof {
                let k = choose|k: int|
                    0 <= k < s@.len() && s@[k] == c && forall|j: int| 0 <= j < k ==> s@[j] != c;
                assert(k == i as int) by {
                    if k < i as int {
                    } else if k > i as int {
                    }
                }
                assert(a@ =~= s@.take(i as int));
                assert(b@ =~= s@.skip(i as int + 1));
            }
            Some((a, b))
        },
        None => None,
    }
}

/// `s` with every trailing `c` removed (`str::trim_end_matches` with a char).
pub open spec fn trim_end_char(s: Seq<char>, c: char) -> Seq<char>
    decreases s.len(),
{
    if s.len() > 0 && s.last() == c {
        trim_end_char(s.drop_last(), c)
    } else {
        s
    }
}

/// Removes every trailing `c` from `s`.
pub fn trim_end_matches(s: &str, c: char) -> (r: String)
    ensures
        r@ == trim_end_char(s@, c),
{
    let v = chars_of(s);
    let mut n: usize = v.len();
    assert(v@.take(n as int) =~= v@);
    while n > 0 && v[n - 1] == c
        invariant
            n <= v.len(),
            v@ == s@,
            trim_end_char(s@, c) == trim_end_char(v@.take(n as int), c),
        decreases n,
    {
        assert(v@.take(n as int).drop_last() =~= v@.take(n as int - 1));
        n = n - 1;
    }
    substring(&v, 0, n)
}

/// Whether `p` is a prefix of `s`.
pub fn starts_with(s: &str, p: &str) -> (r: bool)
    ensures
        r == (p@.len() <= s@.len() && s@.take(p@.len() as int) == p@),
{
    let sv = chars_of(s);
    let pv = chars_of(p);
    if pv.len() > sv.len() {
        return false;
    }
    let mut i: usize = 0;
    while i < pv.len()
        invariant
            pv.len() <= sv.len(),
            sv@ == s@,
            pv@ == p@,
            i <= pv.len(),
            forall|j: int| 0 <= j < i ==> sv@[j] == pv@[j],
        decreases pv.len() - i,
    {
        if sv[i] != pv[i] {
            assert(s@.take(p@.len() as int)[i as int] != p@[i as int]);
            return false;
        }
        i = i + 1;
    }
    assert(s@.take(p@.len() as int) =~= p@);
    true
}

// ---------------------------------------------------------------------------
// Numbers
// ---------------------------------------------------------------------------

/// Whether `c` is an ASCII decimal digit.
pub open spec fn is_digit(c: char) -> bool {
    48 <= (c as u32) && (c as u32) <= 57
}

/// The digit character for `d < 10`.
pub open spec fn digit_char(d: nat) -> char {
    ((d + 48) as u32) as char
}

/// The decimal value of a sequence of digit characters.
pub open spec fn digits_value(s: Seq<char>) -> nat
    decreases s.len(),
{
    if s.len() == 0 {
        0
    } else {
        digits_value(s.drop_last()) * 10 + ((s.last() as u32) - 48) as nat
    }
}

/// The decimal notation of a natural number, without leading zeros.
pub open spec fn dec(n: nat) -> Seq<char>
    decreases n,
{
    if n < 10 {
        seq![digit_char(n)]
    } else {
        dec(n / 10).push(digit_char(n % 10))
    }
}

/// The decimal notation of an integer, with a leading `-` when negative.
pub open spec fn dec_int(i: int) -> Seq<char> {
    if i < 0 {
        seq!['-'] + dec((-i) as nat)
    } else {
        dec(i as nat)
    }
}

/// What `u64::from_str` accepts: an optional `+`, then one or more decimal
/// digits whose value fits in 64 bits.
pub open spec fn spec_parse_u64(s: Seq<char>) -> Option<u64> {
    let body = parse_body(s);
    if body.len() > 0 && (forall|i: int| 0 <= i < body.len() ==> is_digit(#[trigger] body[i]))
        && digits_value(body) <= u64::MAX {
        Some(digits_value(body) as u64)
    } else {
        None
    }
}

/// The body that `spec_parse_u64` reads digits from.
pub open spec fn parse_body(s: Seq<char>) -> Seq<char> {
    if s.len() > 0 && s[0] == '+' { s.drop_first() } else { s }
}

proof fn lemma_parse_none_non_digit(s: Seq<char>, k: int)
    requires
        0 <= k < parse_body(s).len(),
        !is_digit(parse_body(s)[k]),
    ensures
        spec_parse_u64(s) is None,
{
}

proof fn lemma_parse_none_too_big(s: Seq<char>)
    requires
        digits_value(parse_body(s)) > u64::MAX,
    ensures
        spec_parse_u64(s) is None,
{
}

proof fn lemma_digits_value_take(s: Seq<char>, i: int)
    requires
        0 <= i < s.len(),
    ensures
        digits_value(s.take(i + 1)) == digits_value(s.take(i)) * 10 + ((s[i] as u32) - 48) as nat,
{
    assert(s.take(i + 1).drop_last() =~= s.take(i));
}

proof fn lemma_digits_value_mono(s: Seq<char>, i: int, j: int)
    requires
        0 <= i <= j <= s.len(),
        forall|k: int| 0 <= k < s.len() ==> is_digit(#[trigger] s[k]),
    ensures
        digits_value(s.take(i)) <= digits_value(s.take(j)),
    decreases j - i,
{
    if i < j {
        lemma_digits_value_mono(s, i, j - 1);
        lemma_digits_value_take(s, j - 1);
        assert(digits_value(s.take(j - 1)) <= digits_value(s.take(j - 1)) * 10) by (nonlinear_arith);
    }
}

/// Parses an unsigned decimal number the way `u64::from_str` does.
pub fn parse_u64(s: &str) -> (r: Option<u64>)
    ensures
        r == spec_parse_u64(s@),
{
    let v = chars_of(s);
    let start: usize = if v.len() > 0 && v[0] == '+' { 1 } else { 0 };
    let ghost body = parse_body(s@);
    assert(body =~= v@.skip(start as int));
    if start >= v.len() {
        assert(body.len() == 0);
        return None;
    }
    let mut acc: u64 = 0;
    let mut i: usize = start;
    while i < v.len()
        invariant
            start <= i <= v.len(),
            v@ == s@,
            body == v@.skip(start as int),
            body == parse_body(s@),
            forall|k: int| start <= k < i ==> is_digit(#[trigger] v@[k]),
            acc as nat == digits_value(body.take(i - start)),
        decreases v.len() - i,
    {
        let c = v[i];
        proof {
            assert(body[i - start] == v@[i as int]);
        }
        let cu = c as u32;
        if !(48 <= cu && cu <= 57) {
            assert(!is_digit(body[i - start]));
            proof {
                lemma_parse_none_non_digit(s@, i - start);
            }
            return None;
        }
        let d: u64 = (cu - 48) as u64;
        proof {
            lemma_digits_value_take(body, i - start);
        }
        if acc > (u64::MAX - d) / 10 {
            proof {
                assert(acc * 10 + d > u64::MAX) by (nonlinear_arith)
                    requires
                        acc > (u64::MAX - d) / 10,
                        d <= 9,
                ;
                if forall|k: int| 0 <= k < body.len() ==> is_digit(#[trigger] body[k]) {
                    lemma_digits_value_mono(body, i - start + 1, body.len() as int);
                    assert(body.take(body.len() as int) =~= body);
                    assert(digits_value(body) > u64::MAX);
                    lemma_parse_none_too_big(s@);
                } else {
                    let k = choose|k: int| 0 <= k < body.len() && !is_digit(#[trigger] body[k]);
                    lemma_parse_none_non_digit(s@, k);
                }
            }
            return None;
        }
        assert(acc * 10 + d <= u64::MAX) by (nonlinear_arith)
            requires
                acc <= (u64::MAX - d) / 10,
                d <= 9,
        ;
        acc = acc * 10 + d;
        i = i + 1;
    }
    assert(body.take(body.len() as int) =~= body);
    assert forall|k: int| 0 <= k < body.len() implies is_digit(#[trigger] body[k]) by {
        assert(body[k] == v@[start + k]);
    }
    Some(acc)
}

/// Decimal notation of an unsigned number (`u128::to_string`).
pub fn u128_to_string(n: u128) -> (s: String)
    ensures
        s@ == dec(n as nat),
    decreases n,
{
    if n < 10 {
        let c: char = ((n as u8) + 48) as char;
        let mut s = String::new();
        string_push(&mut s, c);
        assert(s@ =~= seq![digit_char(n as nat)]);
        s
    } else {
        let mut s = u128_to_string(n / 10);
        let c: char = (((n % 10) as u8) + 48) as char;
        string_push(&mut s, c);
        s
    }
}

/// Decimal notation of a `u64`.
pub fn u64_to_string(n: u64) -> (s: String)
    ensures
        s@ == dec(n as nat),
{
    u128_to_string(n as u128)
}

/// Decimal notation of a signed number (`i128::to_string`).
pub fn i128_to_string(n: i128) -> (s: String)
    ensures
        s@ == dec_int(n as int),
{
    if n < 0 {
        let m: u128 = if n == i128::MIN {
            (i128::MAX as u128) + 1
        } else {
            (-n) as u128
        };
        let digits = u128_to_string(m);
        let mut s = String::new();
        string_push(&mut s, '-');
        s.append(digits.as_str());
        assert(s@ =~= seq!['-'] + dec((-(n as int)) as nat));
        s
    } else {
        u128_to_string(n as u128)
    }
}

/// `"true"` or `"false"` (`bool::to_string`).
pub open spec fn bool_text(b: bool) -> Seq<char> {
    if b {
        seq!['t', 'r', 'u', 'e']
    } else {
        seq!['f', 'a', 'l', 's', 'e']
    }
}

/// The text of a boolean.
pub fn bool_to_string(b: bool) -> (s: String)
    ensures
        s@ == bool_text(b),
{
    let mut s = String::new();
    if b {
        string_push(&mut s, 't');
        string_push(&mut s, 'r');
        string_push(&mut s, 'u');
        string_push(&mut s, 'e');
    } else {
        string_push(&mut s, 'f');
        string_push(&mut s, 'a');
        string_push(&mut s, 'l');
        string_push(&mut s, 's');
        string_push(&mut s, 'e');
    }
    assert(s@ =~= bool_text(b));
    s
}

// ---------------------------------------------------------------------------
// Joining
// ---------------------------------------------------------------------------

/// The elements of `parts` joined by `sep` (`[String]::join`).
pub open spec fn join_seq(parts: Seq<Seq<char>>, sep: Seq<char>) -> Seq<char>
    decreases parts.len(),
{
    if parts.len() == 0 {
        Seq::empty()
    } else if parts.len() == 1 {
        parts[0]
    } else {
        join_seq(parts.drop_last(), sep) + sep + parts.last()
    }
}

/// The views of a vector of strings.
pub open spec fn views(v: Seq<String>) -> Seq<Seq<char>> {
    v.map_values(|s: String| s@)
}

/// Joins strings with a separator.
pub fn join(parts: &Vec<String>, sep: &str) -> (r: String)
    ensures
        r@ == join_seq(views(parts@), sep@),
{
    let mut r = String::new();
    let mut i: usize = 0;
    while i < parts.len()
        invariant
            i <= parts.len(),
            r@ == join_seq(views(parts@.take(i as int)), sep@),
        decreases parts.len() - i,
    {
        proof {
            let pre = views(parts@.take(i as int));
            let post = views(parts@.take(i as int + 1));
            assert(post.drop_last() =~= pre);
            assert(post.last() == parts@[i as int]@);
        }
        if i > 0 {
            r.append(sep);
        } else {
            assert(views(parts@.take(0)) =~= Seq::<Seq<char>>::empty());
        }
        r.append(parts[i].as_str());
        proof {
            if i == 0 {
                assert(views(parts@.take(1)).len() == 1);
                assert(r@ =~= views(parts@.take(1))[0]);
            }
        }
        i = i + 1;
    }
    assert(parts@.take(parts@.len() as int) =~= parts@);
    r
}

// ---------------------------------------------------------------------------
// UTF-8 width
// ---------------------------------------------------------------------------

/// Bytes that `c` takes in UTF-8 (`char::len_utf8`).
pub open spec fn utf8_width(c: char) -> nat {
    if (c as u32) < 0x80 {
        1
    } else if (c as u32) < 0x800 {
        2
    } else if (c as u32) < 0x10000 {
        3
    } else {
        4
    }
}

/// Bytes that `s` takes in UTF-8 (`str::len`).
pub open spec fn utf8_len(s: Seq<char>) -> nat
    decreases s.len(),
{
    if s.len() == 0 {
        0
    } else {
        utf8_len(s.drop_last()) + utf8_width(s.last())
    }
}

/// The UTF-8 length of a string, in bytes (`str::len`).
pub fn byte_len(s: &str) -> (n: u128)
    ensures
        n == utf8_len(s@),
{
    let v = chars_of(s);
    let mut n: u128 = 0;
    let mut i: usize = 0;
    while i < v.len()
        invariant
            i <= v.len(),
            v@ == s@,
            n == utf8_len(v@.take(i as int)),
            n <= 4 * i,
        decreases v.len() - i,
    {
        proof {
            assert(v@.take(i as int + 1).drop_last() =~= v@.take(i as int));
        }
        let c = v[i] as u32;
        let w: u128 = if c < 0x80 {
            1
        } else if c < 0x800 {
            2
        } else if c < 0x10000 {
            3
        } else {
            4
        };
        n = n + w;
        i = i + 1;
    }
    assert(v@.take(v@.len() as int) =~= v@);
    n
}

/// A prefix is never longer in UTF-8 than the whole.
pub proof fn lemma_utf8_len_prefix(s: Seq<char>, i: int)
    requires
        0 <= i <= s.len(),
    ensures
        utf8_len(s.take(i)) <= utf8_len(s),
    decreases s.len() - i,
{
    if i < s.len() {
        lemma_utf8_len_prefix(s, i + 1);
        assert(s.take(i + 1).drop_last() =~= s.take(i));
    } else {
        assert(s.take(i) =~= s);
    }
}

/// The number of characters in `s`.
pub fn char_count(s: &str) -> (n: usize)
    ensures
        n == s@.len(),
{
    let v = chars_of(s);
    v.len()
}


/// `s` with every `c` replaced by `w` (`str::replace` with a `char` pattern).
pub open spec fn replaced(s: Seq<char>, c: char, w: Seq<char>) -> Seq<char>
    decreases s.len(),
{
    if s.len() == 0 {
        Seq::empty()
    } else {
        replaced(s.drop_last(), c, w) + if s.last() == c {
            w
        } else {
            seq![s.last()]
        }
    }
}

/// Replaces every `c` in `s` by `w`.
pub fn replace_char(s: &str, c: char, w: &str) -> (r: String)
    ensures
        r@ == replaced(s@, c, w@),
{
    let v = chars_of(s);
    let mut r = String::new();
    let mut i: usize = 0;
    while i < v.len()
        invariant
            i <= v@.len(),
            v@ == s@,
            r@ == replaced(v@.take(i as int), c, w@),
        decreases v.len() - i,
    {
        proof {
            assert(v@.take(i + 1).drop_last() =~= v@.take(i as int));
        }
        if v[i] == c {
            r.append(w);
        } else {
            string_push(&mut r, v[i]);
            assert(r@ =~= replaced(v@.take(i + 1), c, w@));
        }
        i = i + 1;
    }
    assert(v@.take(v@.len() as int) =~= v@);
    r
}

/// Whether position `i` holds the last `c` of `s`.
pub open spec fn is_last_index(s: Seq<char>, c: char, i: int) -> bool {
    0 <= i < s.len() && s[i] == c && forall|j: int| i < j < s.len() ==> s[j] != c
}

/// The parts of `s` before and after its last `c` (`str::rsplit_once`).
pub open spec fn spec_rsplit_once(s: Seq<char>, c: char) -> Option<(Seq<char>, Seq<char>)> {
    if has_char(s, c) {
        let i = choose|i: int| is_last_index(s, c, i);
        Some((s.take(i), s.skip(i + 1)))
    } else {
        None
    }
}

/// Splits `s` at its last `c`, returning the parts before and after it.
pub fn rsplit_once(s: &str, c: char) -> (r: Option<(String, String)>)
    ensures
        match r {
            Some((a, b)) => spec_rsplit_once(s@, c) == Some((a@, b@)),
            None => spec_rsplit_once(s@, c) is None,
        },
{
    let v = chars_of(s);
    let mut i: usize = v.len();
    while i > 0 && v[i - 1] != c
        invariant
            i <= v@.len(),
            v@ == s@,
            forall|j: int| i <= j < v@.len() ==> v@[j] != c,
        decreases i,
    {
        i = i - 1;
    }
    if i == 0 {
        proof {
            assert forall|j: int| 0 <= j < v@.len() implies v@[j] != c by {}
        }
        None
    } else {
        let k = i - 1;
        proof {
            assert(is_last_index(s@, c, k as int));
            assert(has_char(s@, c));
            let w = choose|w: int| is_last_index(s@, c, w);
            assert(w == k as int);
        }
        let a = substring(&v, 0, k);
        let b = substring(&v, i, v.len());
        assert(a@ =~= s@.take(k as int));
        assert(b@ =~= s@.skip(i as int));
        Some((a, b))
    }
}


/// Whether `c` is white space (`char::is_whitespace`: the Unicode
/// `White_Space` property).
pub open spec fn is_space(c: char) -> bool {
    let u = c as u32;
    (9 <= u && u <= 13) || u == 32 || u == 0x85 || u == 0xA0 || u == 0x1680 || (0x2000 <= u && u <= 0x200A) || u
        == 0x2028 || u == 0x2029 || u == 0x202F || u == 0x205F || u == 0x3000
}

fn is_space_exec(c: char) -> (b: bool)
    ensures
        b == is_space(c),
{
    let u = c as u32;
    (9 <= u && u <= 13) || u == 32 || u == 0x85 || u == 0xA0 || u == 0x1680 || (0x2000 <= u && u <= 0x200A) || u
        == 0x2028 || u == 0x2029 || u == 0x202F || u == 0x205F || u == 0x3000
}

/// `s` without leading white space.
pub open spec fn trim_start_spaces(s: Seq<char>) -> Seq<char>
    decreases s.len(),
{
    if s.len() > 0 && is_space(s[0]) {
        trim_start_spaces(s.drop_first())
    } else {
        s
    }
}

/// `s` without trailing white space.
pub open spec fn trim_end_spaces(s: Seq<char>) -> Seq<char>
    decreases s.len(),
{
    if s.len() > 0 && is_space(s.last()) {
        trim_end_spaces(s.drop_last())
    } else {
        s
    }
}

/// `s` without leading and trailing white space (`str::trim`).
pub open spec fn trim_spaces(s: Seq<char>) -> Seq<char> {
    trim_end_spaces(trim_start_spaces(s))
}

/// Removes leading and trailing white space.
pub fn trim(v: &Vec<char>) -> (r: Vec<char>)
    ensures
        r@ == trim_spaces(v@),
{
    let mut a: usize = 0;
    assert(v@.skip(0) =~= v@);
    while a < v.len() && is_space_exec(v[a])
        invariant
            a <= v@.len(),
            trim_start_spaces(v@) == trim_start_spaces(v@.skip(a as int)),
        decreases v.len() - a,
    {
        proof {
            assert(v@.skip(a as int).drop_first() =~= v@.skip(a + 1));
        }
        a = a + 1;
    }
    let mut b: usize = v.len();
    proof {
        assert(v@.skip(a as int).len() == 0 || !is_space(v@.skip(a as int)[0]));
        assert(trim_start_spaces(v@) == v@.subrange(a as int, v@.len() as int)) by {
            assert(v@.skip(a as int) =~= v@.subrange(a as int, v@.len() as int));
        }
    }
    while b > a && is_space_exec(v[b - 1])
        invariant
            a <= b <= v@.len(),
            trim_start_spaces(v@) == v@.subrange(a as int, v@.len() as int),
            trim_spaces(v@) == trim_end_spaces(v@.subrange(a as int, b as int)),
        decreases b - a,
    {
        proof {
            assert(v@.subrange(a as int, b as int).drop_last() =~= v@.subrange(a as int, b - 1));
        }
        b = b - 1;
    }
    let mut r: Vec<char> = Vec::new();
    let mut i: usize = a;
    while i < b
        invariant
            a <= i <= b <= v@.len(),
            r@ == v@.subrange(a as int, i as int),
        decreases b - i,
    {
        r.push(v[i]);
        assert(r@ =~= v@.subrange(a as int, i + 1));
        i = i + 1;
    }
    r
}

/// The parts of `s` between the occurrences of `c` (`str::split`).
pub open spec fn split_on(s: Seq<char>, c: char) -> Seq<Seq<char>>
    decreases s.len(),
{
    if s.len() == 0 {
        seq![Seq::empty()]
    } else {
        let rest = split_on(s.drop_last(), c);
        if s.last() == c {
            rest.push(Seq::empty())
        } else {
            rest.update(rest.len() - 1, rest.last().push(s.last()))
        }
    }
}

/// `split_on` never gives an empty list.
pub proof fn lemma_split_on_nonempty(s: Seq<char>, c: char)
    ensures
        split_on(s, c).len() > 0,
    decreases s.len(),
{
    if s.len() > 0 {
        lemma_split_on_nonempty(s.drop_last(), c);
    }
}

/// Splitting a string that starts with `c` gives an empty first part, then
/// the parts of the rest.
pub proof fn lemma_split_on_lead_sep(s: Seq<char>, c: char)
    ensures
        split_on(seq![c] + s, c) == seq![Seq::<char>::empty()] + split_on(s, c),
    decreases s.len(),
{
    if s.len() == 0 {
        reveal_with_fuel(split_on, 2);
        assert(seq![c] + s =~= seq![c]);
        assert((seq![c] + s).drop_last() =~= Seq::<char>::empty());
        assert(split_on(Seq::<char>::empty(), c) =~= seq![Seq::<char>::empty()]);
        assert(split_on(seq![c] + s, c) =~= seq![Seq::<char>::empty()] + split_on(s, c));
    } else {
        lemma_split_on_lead_sep(s.drop_last(), c);
        lemma_split_on_nonempty(s.drop_last(), c);
        assert((seq![c] + s).drop_last() =~= seq![c] + s.drop_last());
        assert((seq![c] + s).last() == s.last());
        let rest = split_on(s.drop_last(), c);
        if s.last() == c {
            assert(split_on(seq![c] + s, c) =~= seq![Seq::<char>::empty()] + split_on(s, c));
        } else {
            assert((seq![Seq::<char>::empty()] + rest).update(rest.len() as int, rest.last().push(s.last())) =~= seq![
                Seq::<char>::empty(),
            ] + rest.update(rest.len() - 1, rest.last().push(s.last())));
            assert(split_on(seq![c] + s, c) =~= seq![Seq::<char>::empty()] + split_on(s, c));
        }
    }
}

/// Splitting a string that starts with another character than `c` gives
/// the parts of the rest, the first one led by that character.
pub proof fn lemma_split_on_lead_char(s: Seq<char>, c: char, d: char)
    requires
        d != c,
    ensures
        split_on(seq![d] + s, c) == split_on(s, c).update(0, seq![d] + split_on(s, c)[0]),
        split_on(seq![d] + s, c).len() == split_on(s, c).len(),
    decreases s.len(),
{
    lemma_split_on_nonempty(s, c);
    if s.len() == 0 {
        reveal_with_fuel(split_on, 2);
        assert(seq![d] + s =~= seq![d]);
        assert((seq![d] + s).drop_last() =~= Seq::<char>::empty());
        assert(split_on(Seq::<char>::empty(), c) =~= seq![Seq::<char>::empty()]);
        assert(split_on(seq![d] + s, c) =~= split_on(s, c).update(0, seq![d] + split_on(s, c)[0]));
    } else {
        lemma_split_on_lead_char(s.drop_last(), c, d);
        lemma_split_on_nonempty(s.drop_last(), c);
        assert((seq![d] + s).drop_last() =~= seq![d] + s.drop_last());
        assert((seq![d] + s).last() == s.last());
        let rest = split_on(s.drop_last(), c);
        if s.last() == c {
            assert(split_on(seq![d] + s, c) =~= split_on(s, c).update(0, seq![d] + split_on(s, c)[0]));
        } else {
            if rest.len() == 1 {
                assert(seq![d] + rest[0].push(s.last()) =~= (seq![d] + rest[0]).push(s.last()));
            }
            assert(split_on(seq![d] + s, c) =~= split_on(s, c).update(0, seq![d] + split_on(s, c)[0]));
        }
    }
}

/// Lexicographic order of sequences of strings: by the first place where
/// they differ, strings ordered by `lex_lt`, a proper prefix first.
pub open spec fn parts_lt(a: Seq<Seq<char>>, b: Seq<Seq<char>>) -> bool
    decreases a.len(),
{
    if a.len() == 0 {
        b.len() > 0
    } else if b.len() == 0 {
        false
    } else if a[0] != b[0] {
        lex_lt(a[0], b[0])
    } else {
        parts_lt(a.drop_first(), b.drop_first())
    }
}

/// Where `z` sorts before every other character, comparing two strings
/// character by character is comparing their parts between the `z`s one by
/// one: lexicographic order survives joining with a least separator.
pub proof fn lemma_lex_lt_by_parts(x: Seq<char>, y: Seq<char>, z: char)
    requires
        forall|i: int| 0 <= i < x.len() && x[i] != z ==> (z as u32) < (#[trigger] x[i] as u32),
        forall|i: int| 0 <= i < y.len() && y[i] != z ==> (z as u32) < (#[trigger] y[i] as u32),
    ensures
        lex_lt(x, y) == parts_lt(split_on(x, z), split_on(y, z)),
    decreases x.len() + y.len(),
{
    lemma_split_on_nonempty(x, z);
    lemma_split_on_nonempty(y, z);
    if x.len() == 0 {
        assert(split_on(x, z) =~= seq![Seq::<char>::empty()]);
        if y.len() > 0 {
            let yr = y.drop_first();
            assert(y =~= seq![y[0]] + yr);
            if y[0] == z {
                lemma_split_on_lead_sep(yr, z);
                lemma_split_on_nonempty(yr, z);
                assert(split_on(x, z).drop_first() =~= Seq::<Seq<char>>::empty());
                assert(split_on(y, z).drop_first() =~= split_on(yr, z));
                assert(split_on(y, z)[0] == Seq::<char>::empty());
                assert(parts_lt(Seq::<Seq<char>>::empty(), split_on(yr, z)));
                assert(lex_lt(x, y) == parts_lt(split_on(x, z), split_on(y, z)));
            } else {
                lemma_split_on_lead_char(yr, z, y[0]);
                assert(split_on(y, z)[0].len() > 0);
                assert(split_on(x, z)[0] != split_on(y, z)[0]);
                assert(lex_lt(x, y) == parts_lt(split_on(x, z), split_on(y, z)));
            }
        } else {
            assert(split_on(y, z) =~= seq![Seq::<char>::empty()]);
            assert(split_on(x, z).drop_first() =~= Seq::<Seq<char>>::empty());
            assert(split_on(y, z).drop_first() =~= Seq::<Seq<char>>::empty());
            assert(!parts_lt(Seq::<Seq<char>>::empty(), Seq::<Seq<char>>::empty()));
            assert(lex_lt(x, y) == parts_lt(split_on(x, z), split_on(y, z)));
        }
    } else if y.len() == 0 {
        assert(split_on(y, z) =~= seq![Seq::<char>::empty()]);
        let xr = x.drop_first();
        assert(x =~= seq![x[0]] + xr);
        if x[0] == z {
            lemma_split_on_lead_sep(xr, z);
            lemma_split_on_nonempty(xr, z);
            assert(split_on(x, z).drop_first() =~= split_on(xr, z));
            assert(split_on(y, z).drop_first() =~= Seq::<Seq<char>>::empty());
            assert(split_on(x, z)[0] == Seq::<char>::empty());
            assert(!parts_lt(split_on(xr, z), Seq::<Seq<char>>::empty()));
            assert(lex_lt(x, y) == parts_lt(split_on(x, z), split_on(y, z)));
        } else {
            lemma_split_on_lead_char(xr, z, x[0]);
            assert(split_on(x, z)[0].len() > 0);
            assert(split_on(x, z)[0] != split_on(y, z)[0]);
            assert(lex_lt(x, y) == parts_lt(split_on(x, z), split_on(y, z)));
        }
    } else {
        let xr = x.drop_first();
        let yr = y.drop_first();
        assert(x =~= seq![x[0]] + xr);
        assert(y =~= seq![y[0]] + yr);
        assert forall|i: int| 0 <= i < xr.len() && xr[i] != z implies (z as u32) < (#[trigger] xr[i] as u32) by {
            assert(xr[i] == x[i + 1]);
        }
        assert forall|i: int| 0 <= i < yr.len() && yr[i] != z implies (z as u32) < (#[trigger] yr[i] as u32) by {
            assert(yr[i] == y[i + 1]);
        }
        lemma_split_on_nonempty(xr, z);
        lemma_split_on_nonempty(yr, z);
        if x[0] == z && y[0] == z {
            lemma_split_on_lead_sep(xr, z);
            lemma_split_on_lead_sep(yr, z);
            lemma_lex_lt_by_parts(xr, yr, z);
            assert(split_on(x, z).drop_first() =~= split_on(xr, z));
            assert(split_on(y, z).drop_first() =~= split_on(yr, z));
        } else if x[0] == z {
            lemma_split_on_lead_sep(xr, z);
            lemma_split_on_lead_char(yr, z, y[0]);
            assert(split_on(y, z)[0][0] == y[0]);
        } else if y[0] == z {
            lemma_split_on_lead_sep(yr, z);
            lemma_split_on_lead_char(xr, z, x[0]);
            assert(split_on(x, z)[0][0] == x[0]);
        } else {
            lemma_split_on_lead_char(xr, z, x[0]);
            lemma_split_on_lead_char(yr, z, y[0]);
            let px = split_on(xr, z);
            let py = split_on(yr, z);
            let cx = split_on(x, z)[0];
            let cy = split_on(y, z)[0];
            assert(cx == seq![x[0]] + px[0]);
            assert(cy == seq![y[0]] + py[0]);
            assert(cx.drop_first() =~= px[0]);
            assert(cy.drop_first() =~= py[0]);
            if x[0] == y[0] {
                lemma_lex_lt_by_parts(xr, yr, z);
                assert(split_on(x, z).drop_first() =~= px.drop_first());
                assert(split_on(y, z).drop_first() =~= py.drop_first());
                if px[0] == py[0] {
                    assert(cx == cy);
                } else {
                    assert(cx != cy) by {
                        if cx == cy {
                            assert(cx.drop_first() == cy.drop_first());
                        }
                    }
                }
            } else {
                assert(cx[0] != cy[0]);
            }
        }
    }
}

/// The parts of `s` between the occurrences of `c`.
pub fn split_char(s: &str, c: char) -> (r: Vec<String>)
    ensures
        views(r@) == split_on(s@, c),
{
    let v = chars_of(s);
    let mut out: Vec<String> = Vec::new();
    let mut cur: Vec<char> = Vec::new();
    let mut i: usize = 0;
    assert(v@.take(0) =~= Seq::<char>::empty());
    assert(views(out@) =~= Seq::<Seq<char>>::empty());
    while i < v.len()
        invariant
            i <= v@.len(),
            v@ == s@,
            split_on(v@.take(i as int), c) == views(out@).push(cur@),
        decreases v.len() - i,
    {
        proof {
            assert(v@.take(i + 1).drop_last() =~= v@.take(i as int));
        }
        if v[i] == c {
            let ghost prev = views(out@);
            let ghost part = cur@;
            out.push(string_of(&cur));
            cur = Vec::new();
            assert(views(out@) =~= prev.push(part));
            assert(split_on(v@.take(i + 1), c) =~= views(out@).push(cur@));
        } else {
            cur.push(v[i]);
            assert(split_on(v@.take(i + 1), c) =~= views(out@).push(cur@));
        }
        i = i + 1;
    }
    let ghost prev = views(out@);
    out.push(string_of(&cur));
    assert(views(out@) =~= prev.push(cur@));
    assert(v@.take(v@.len() as int) =~= v@);
    out
}

} // verus!
