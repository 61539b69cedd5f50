use vstd::prelude::*;

use crate::Amount;
use crate::errors::StudiFiError;
use crate::errors::StudiFiResult;
use vstd::string::StringSliceAdditionalSpecFns;

verus! {

/// The decimal digit character for `d` (0 through 9).
pub open spec fn digit_char(d: int) -> char {
    if d == 0 {
        '0'
    } else if d == 1 {
        '1'
    } else if d == 2 {
        '2'
    } else if d == 3 {
        '3'
    } else if d == 4 {
        '4'
    } else if d == 5 {
        '5'
    } else if d == 6 {
        '6'
    } else if d == 7 {
        '7'
    } else if d == 8 {
        '8'
    } else {
        '9'
    }
}

/// The numeric value of a decimal digit character; 10 for any other character.
pub open spec fn digit_value(c: char) -> int {
    if c == '0' {
        0
    } else if c == '1' {
        1
    } else if c == '2' {
        2
    } else if c == '3' {
        3
    } else if c == '4' {
        4
    } else if c == '5' {
        5
    } else if c == '6' {
        6
    } else if c == '7' {
        7
    } else if c == '8' {
        8
    } else if c == '9' {
        9
    } else {
        10
    }
}

/// True when `c` is a decimal digit.
pub open spec fn is_digit(c: char) -> bool {
    digit_value(c) < 10
}

/// The decimal writing of `n`, most significant digit first, no leading zeros
/// (a single zero for `n == 0`).
pub open spec fn dec_digits(n: nat) -> Seq<char>
    decreases n,
{
    if n < 10 {
        seq![digit_char(n as int)]
    } else {
        dec_digits(n / 10) + seq![digit_char((n % 10) as int)]
    }
}

/// `w` zero characters.
pub open spec fn zeros(w: nat) -> Seq<char>
    decreases w,
{
    if w == 0 {
        Seq::empty()
    } else {
        zeros((w - 1) as nat) + seq!['0']
    }
}

/// `s` left-padded with zeros to at least `w` characters.
pub open spec fn zero_pad(s: Seq<char>, w: nat) -> Seq<char> {
    if s.len() >= w {
        s
    } else {
        zeros((w - s.len()) as nat) + s
    }
}

/// Relies on std's `String::push`: appends one character at the end.
#[verifier::external_body]
fn push_char(s: &mut String, c: char)
    ensures
        final(s)@ == old(s)@.push(c),
{
    s.push(c);
}

/// The digit character for a value below ten.
fn digit_to_char(d: u64) -> (c: char)
    requires
        d < 10,
    ensures
        c == digit_char(d as int),
{
    match d {
        0 => '0',
        1 => '1',
        2 => '2',
        3 => '3',
        4 => '4',
        5 => '5',
        6 => '6',
        7 => '7',
        8 => '8',
        _ => '9',
    }
}

/// Append the decimal writing of `n` to `out`.
fn append_dec(out: &mut String, n: u64)
    ensures
        final(out)@ == old(out)@ + dec_digits(n as nat),
    decreases n,
{
    if n < 10 {
        push_char(out, digit_to_char(n));
        proof {
            assert(out@ =~= old(out)@ + dec_digits(n as nat));
        }
    } else {
        append_dec(out, n / 10);
        push_char(out, digit_to_char(n % 10));
        proof {
            assert(out@ =~= old(out)@ + dec_digits(n as nat));
        }
    }
}

/// The decimal writing of `n` as an owned string.
pub fn u64_to_dec_string(n: u64) -> (r: String)
    ensures
        r@ == dec_digits(n as nat),
{
    let mut s = String::new();
    append_dec(&mut s, n);
    proof {
        assert(s@ =~= dec_digits(n as nat));
    }
    s
}

/// What `generate_id` promises: the prefix, a dash, and the counter written in
/// decimal and zero-padded to eight digits.
pub open spec fn id_text(prefix: Seq<char>, counter: nat) -> Seq<char> {
    prefix + seq!['-'] + zero_pad(dec_digits(counter), 8)
}

/// Stable, sortable identifier: prefix, dash, and the counter zero-padded to
/// eight digits.
pub fn generate_id(prefix: &str, counter: u64) -> (r: String)
    ensures
        r@ == id_text(prefix@, counter as nat),
{
    let digits = u64_to_dec_string(counter);
    let mut s = prefix.to_owned();
    push_char(&mut s, '-');
    let dlen: usize = digits.as_str().unicode_len();
    let mut w: usize = dlen;
    proof {
        assert(s@ + zeros(0) =~= prefix@ + seq!['-']);
    }
    while w < 8
        invariant
            dlen <= w <= 8 || w == dlen,
            dlen == digits@.len(),
            s@ == prefix@ + seq!['-'] + zeros((w - dlen) as nat),
        decreases 8 - w,
    {
        push_char(&mut s, '0');
        proof {
            assert(s@ =~= prefix@ + seq!['-'] + zeros((w + 1 - dlen) as nat));
        }
        w += 1;
    }
    s.append(digits.as_str());
    proof {
        assert(s@ =~= id_text(prefix@, counter as nat));
    }
    s
}

/// What `format_currency` promises: a dollar sign, the whole dollars in
/// decimal, a point, and the cents zero-padded to two digits.
pub open spec fn currency_text(amount: nat) -> Seq<char> {
    seq!['$'] + dec_digits(amount / 100) + seq!['.'] + zero_pad(dec_digits(amount % 100), 2)
}

/// Write a cent amount as dollars, e.g. `$123.45`.
pub fn format_currency(amount: Amount) -> (r: String)
    ensures
        r@ == currency_text(amount as nat),
{
    let mut s = String::new();
    push_char(&mut s, '$');
    append_dec(&mut s, amount / 100);
    push_char(&mut s, '.');
    let cents = amount % 100;
    if cents < 10 {
        push_char(&mut s, '0');
    }
    append_dec(&mut s, cents);
    proof {
        let c = (amount % 100) as nat;
        if cents < 10 {
            assert(zeros(0) =~= Seq::<char>::empty());
            assert(zeros(1) =~= seq!['0']);
            assert(dec_digits(c) =~= seq![digit_char(c as int)]);
            assert(zero_pad(dec_digits(c), 2) =~= seq!['0'] + dec_digits(c));
        } else {
            assert(dec_digits(c) =~= dec_digits(c / 10) + seq![digit_char((c % 10) as int)]);
            assert(dec_digits(c / 10) =~= seq![digit_char((c / 10) as int)]);
            assert(dec_digits(c).len() == 2);
        }
        assert(s@ =~= currency_text(amount as nat));
    }
    s
}

/// True when two string slices spell the same characters.
pub fn str_eq(a: &str, b: &str) -> (r: bool)
    ensures
        r == (a@ == b@),
{
    let na = a.unicode_len();
    let nb = b.unicode_len();
    if na != nb {
        return false;
    }
    let mut i: usize = 0;
    while i < na
        invariant
            i <= na == a@.len(),
            na == nb == b@.len(),
            forall|j: int| 0 <= j < i ==> a@[j] == b@[j],
        decreases na - i,
    {
        if a.get_char(i) != b.get_char(i) {
            return false;
        }
        i += 1;
    }
    proof {
        assert(a@ =~= b@);
    }
    true
}

/// True when `c` occurs in `s`.
pub fn contains_char(s: &str, c: char) -> (r: bool)
    ensures
        r == s@.contains(c),
{
    let n = s.unicode_len();
    let mut i: usize = 0;
    while i < n
        invariant
            i <= n == s@.len(),
            forall|j: int| 0 <= j < i ==> s@[j] != c,
        decreases n - i,
    {
        if s.get_char(i) == c {
            return true;
        }
        i += 1;
    }
    false
}

/// Accept an address that has an at sign, a dot, and more than five characters.
pub fn validate_email(email: &str) -> (r: StudiFiResult<()>)
    ensures
        r is Ok <==> (email@.contains('@') && email@.contains('.') && email@.len() > 5),
        r matches Err(e) ==> e is InvalidInput,
{
    if contains_char(email, '@') && contains_char(email, '.') && email.unicode_len() > 5 {
        Ok(())
    } else {
        Err(StudiFiError::InvalidInput("Invalid email format".to_owned()))
    }
}

/// Placeholder encoding that tags the byte length of its input.
pub fn base64_encode(input: &str) -> (r: String)
    ensures
        r@ == "base64_"@ + dec_digits((input.spec_bytes().len() as usize) as nat),
{
    let mut s = "base64_".to_owned();
    let byte_len: usize = input.len();
    append_dec(&mut s, byte_len as u64);
    s
}

/// What `char::is_alphanumeric` answers; depends on the character alone.
pub uninterp spec fn alphanumeric(c: char) -> bool;

/// What `char::is_whitespace` answers; depends on the character alone.
pub uninterp spec fn white_space(c: char) -> bool;

/// Relies on std's `char::is_alphanumeric`: letter-or-digit test over the
/// character alone.
#[verifier::external_body]
fn char_is_alphanumeric(c: char) -> (r: bool)
    ensures
        r == alphanumeric(c),
{
    c.is_alphanumeric()
}

/// Relies on std's `char::is_whitespace`: whitespace test over the character
/// alone.
#[verifier::external_body]
fn char_is_whitespace(c: char) -> (r: bool)
    ensures
        r == white_space(c),
{
    c.is_whitespace()
}

/// True when the character counts as whitespace.
pub fn is_whitespace_char(c: char) -> (r: bool)
    ensures
        r == white_space(c),
{
    char_is_whitespace(c)
}

/// `s` without its longest prefix of characters satisfying `p`.
pub open spec fn drop_while(s: Seq<char>, p: spec_fn(char) -> bool) -> Seq<char>
    decreases s.len(),
{
    if s.len() > 0 && p(s.first()) {
        drop_while(s.drop_first(), p)
    } else {
        s
    }
}

/// `s` without its longest suffix of characters satisfying `p`.
pub open spec fn drop_while_end(s: Seq<char>, p: spec_fn(char) -> bool) -> Seq<char>
    decreases s.len(),
{
    if s.len() > 0 && p(s.last()) {
        drop_while_end(s.drop_last(), p)
    } else {
        s
    }
}

/// Dropping a satisfying prefix is skipping up to its first non-satisfying
/// position.
proof fn lemma_drop_while_skip(s: Seq<char>, p: spec_fn(char) -> bool, a: int)
    requires
        0 <= a <= s.len(),
        forall|j: int| 0 <= j < a ==> p(s[j]),
        a < s.len() ==> !p(s[a]),
    ensures
        drop_while(s, p) == s.skip(a),
    decreases a,
{
    if a == 0 {
        assert(s.skip(0) =~= s);
    } else {
        let t = s.drop_first();
        lemma_drop_while_skip(t, p, a - 1);
        assert(t.skip(a - 1) =~= s.skip(a));
    }
}

/// Dropping a satisfying suffix is keeping everything before it.
proof fn lemma_drop_while_end_take(s: Seq<char>, p: spec_fn(char) -> bool, b: int)
    requires
        0 <= b <= s.len(),
        forall|j: int| b <= j < s.len() ==> p(s[j]),
        b > 0 ==> !p(s[b - 1]),
    ensures
        drop_while_end(s, p) == s.take(b),
    decreases s.len() - b,
{
    if b == s.len() {
        assert(s.take(b) =~= s);
    } else {
        let t = s.drop_last();
        lemma_drop_while_end_take(t, p, b);
        assert(t.take(b) =~= s.take(b));
    }
}

/// A character that survives sanitizing: a letter or digit, whitespace, or one
/// of a small set of punctuation marks.
pub open spec fn kept_char(c: char) -> bool {
    alphanumeric(c) || white_space(c) || c == '.' || c == ',' || c == '!' || c == '?' || c == '-'
        || c == '_' || c == '@'
}

/// The subsequence of `s` made of its kept characters, in order.
pub open spec fn kept_seq(s: Seq<char>) -> Seq<char>
    decreases s.len(),
{
    if s.len() == 0 {
        Seq::empty()
    } else if kept_char(s.last()) {
        kept_seq(s.drop_last()) + seq![s.last()]
    } else {
        kept_seq(s.drop_last())
    }
}

/// `s` with surrounding whitespace trimmed.
pub open spec fn trimmed(s: Seq<char>) -> Seq<char> {
    drop_while_end(drop_while(s, |c: char| white_space(c)), |c: char| white_space(c))
}

/// What `sanitize_text` promises: trim, keep only harmless characters, and cap
/// the length.
pub open spec fn sanitized(s: Seq<char>) -> Seq<char> {
    let k = kept_seq(trimmed(s));
    if k.len() <= 1000 {
        k
    } else {
        k.take(1000)
    }
}

/// Trim `input`, drop every character that is not kept, and cap the result at
/// one thousand characters.
pub fn sanitize_text(input: &str) -> (r: String)
    ensures
        r@ == sanitized(input@),
{
    let n = input.unicode_len();
    let mut a: usize = 0;
    while a < n && char_is_whitespace(input.get_char(a))
        invariant
            a <= n == input@.len(),
            forall|j: int| 0 <= j < a ==> white_space(input@[j]),
        decreases n - a,
    {
        a += 1;
    }
    let ghost ws = |c: char| white_space(c);
    proof {
        lemma_drop_while_skip(input@, ws, a as int);
    }
    let mut b: usize = n;
    while b > a && char_is_whitespace(input.get_char(b - 1))
        invariant
            a <= b <= n == input@.len(),
            forall|j: int| b <= j < n ==> white_space(input@[j]),
        decreases b,
    {
        b -= 1;
    }
    proof {
        let t = input@.skip(a as int);
        assert(forall|j: int|
            b - a <= j < t.len() ==> white_space(#[trigger] t[j]) == white_space(
                input@[j + a],
            ) && white_space(input@[j + a]));
        if b > a {
            assert(t[b - a - 1] == input@[b - 1]);
        }
        lemma_drop_while_end_take(t, ws, b - a);
        assert(trimmed(input@) =~= input@.subrange(a as int, b as int));
    }
    let mut out = String::new();
    let mut cnt: usize = 0;
    let mut i: usize = a;
    while i < b
        invariant
            a <= i <= b <= input@.len(),
            cnt == out@.len(),
            ({
                let k = kept_seq(input@.subrange(a as int, i as int));
                out@ == if k.len() <= 1000 {
                    k
                } else {
                    k.take(1000)
                }
            }),
        decreases b - i,
    {
        let c = input.get_char(i);
        let ghost pre = input@.subrange(a as int, i as int);
        let ghost post = input@.subrange(a as int, i + 1 as int);
        proof {
            assert(post.drop_last() =~= pre);
            assert(post.last() == input@[i as int]);
        }
        if char_is_alphanumeric(c) || char_is_whitespace(c) || c == '.' || c == ','
            || c == '!' || c == '?' || c == '-' || c == '_' || c == '@' {
            if cnt < 1000 {
                push_char(&mut out, c);
                cnt += 1;
            } else {
                proof {
                    let k = kept_seq(pre);
                    assert(kept_seq(post) =~= k + seq![input@[i as int]]);
                    assert(kept_seq(post).take(1000) =~= k.take(1000));
                }
            }
        }
        i += 1;
    }
    proof {
        assert(input@.subrange(a as int, b as int) == trimmed(input@));
        assert(out@ =~= sanitized(input@));
    }
    out
}

/// `s` with every comma removed.
pub open spec fn sans_commas(s: Seq<char>) -> Seq<char>
    decreases s.len(),
{
    if s.len() == 0 {
        Seq::empty()
    } else if s.last() == ',' {
        sans_commas(s.drop_last())
    } else {
        sans_commas(s.drop_last()) + seq![s.last()]
    }
}

/// The index of the first dot in `s`, or its length when it has none.
pub open spec fn find_dot(s: Seq<char>) -> int
    decreases s.len(),
{
    if s.len() == 0 {
        0
    } else if s.first() == '.' {
        0
    } else {
        1 + find_dot(s.drop_first())
    }
}

/// The number written by a digit sequence, read most significant digit first.
pub open spec fn digits_value(s: Seq<char>) -> int
    decreases s.len(),
{
    if s.len() == 0 {
        0
    } else {
        digits_value(s.drop_last()) * 10 + digit_value(s.last())
    }
}

/// The cent value of up to two fraction digits, later digits truncated.
pub open spec fn frac_pair(f: Seq<char>) -> int {
    (if f.len() >= 1 {
        digit_value(f[0]) * 10
    } else {
        0
    }) + (if f.len() >= 2 {
        digit_value(f[1])
    } else {
        0
    })
}

/// A well-formed currency number: non-empty, at least one digit, and digits
/// everywhere but at a single dot.
pub open spec fn currency_wf(t: Seq<char>) -> bool {
    let d = find_dot(t);
    t.len() > 0 && !(t.len() == 1 && d == 0) && (forall|i: int|
        0 <= i < t.len() && i != d ==> is_digit(#[trigger] t[i]))
}

/// The cent value of a well-formed currency number: whole part times one
/// hundred plus the first two fraction digits.
pub open spec fn currency_value(t: Seq<char>) -> int {
    let d = find_dot(t);
    digits_value(t.take(d)) * 100 + if d < t.len() {
        frac_pair(t.skip(d + 1))
    } else {
        0
    }
}

/// The text `parse_currency` actually reads: leading dollar signs stripped and
/// commas removed.
pub open spec fn currency_digits_of(s: Seq<char>) -> Seq<char> {
    sans_commas(drop_while(s, |c: char| c == '$'))
}

proof fn lemma_find_dot_props(s: Seq<char>)
    ensures
        0 <= find_dot(s) <= s.len(),
        find_dot(s) < s.len() ==> s[find_dot(s)] == '.',
        forall|j: int| 0 <= j < find_dot(s) ==> s[j] != '.',
    decreases s.len(),
{
    if s.len() > 0 && s.first() != '.' {
        let t = s.drop_first();
        lemma_find_dot_props(t);
        assert forall|j: int| 0 <= j < find_dot(s) implies s[j] != '.' by {
            if j >= 1 {
                assert(s[j] == t[j - 1]);
            }
        }
    }
}

proof fn lemma_digits_value_nonneg(s: Seq<char>)
    ensures
        digits_value(s) >= 0,
    decreases s.len(),
{
    if s.len() > 0 {
        lemma_digits_value_nonneg(s.drop_last());
    }
}

/// A digit prefix never writes a larger number than the whole sequence.
proof fn lemma_digits_value_take(s: Seq<char>, m: int)
    requires
        0 <= m <= s.len(),
    ensures
        digits_value(s.take(m)) <= digits_value(s),
    decreases s.len() - m,
{
    if m == s.len() {
        assert(s.take(m) =~= s);
    } else {
        lemma_digits_value_take(s, m + 1);
        let u = s.take(m + 1);
        assert(u.drop_last() =~= s.take(m));
        lemma_digits_value_nonneg(s.take(m));
        assert(digits_value(s.take(m)) <= digits_value(u));
    }
}

/// The numeric value of a digit character, ten for anything else.
fn char_digit_value(c: char) -> (v: u64)
    ensures
        v == digit_value(c),
{
    match c {
        '0' => 0,
        '1' => 1,
        '2' => 2,
        '3' => 3,
        '4' => 4,
        '5' => 5,
        '6' => 6,
        '7' => 7,
        '8' => 8,
        '9' => 9,
        _ => 10,
    }
}

/// Read a cent amount out of a currency string such as `$1,234.56`. Leading
/// dollar signs are dropped and commas ignored; the rest must be digits with
/// at most one dot, and fraction digits past the second are truncated.
pub fn parse_currency(s: &str) -> (r: StudiFiResult<Amount>)
    ensures
        r is Ok <==> (currency_wf(currency_digits_of(s@)) && currency_value(currency_digits_of(s@))
            <= u64::MAX),
        r matches Ok(v) ==> v == currency_value(currency_digits_of(s@)),
        r matches Err(e) ==> e is InvalidInput,
{
    let ghost target = currency_digits_of(s@);
    let n = s.unicode_len();
    let mut a: usize = 0;
    while a < n && s.get_char(a) == '$'
        invariant
            a <= n == s@.len(),
            forall|j: int| 0 <= j < a ==> s@[j] == '$',
        decreases n - a,
    {
        a += 1;
    }
    proof {
        lemma_drop_while_skip(s@, |c: char| c == '$', a as int);
    }
    let mut t: Vec<char> = Vec::new();
    let mut i: usize = a;
    while i < n
        invariant
            a <= i <= n == s@.len(),
            t@ == sans_commas(s@.subrange(a as int, i as int)),
        decreases n - i,
    {
        let c = s.get_char(i);
        proof {
            let post = s@.subrange(a as int, i + 1 as int);
            assert(post.drop_last() =~= s@.subrange(a as int, i as int));
            assert(post.last() == s@[i as int]);
        }
        if c != ',' {
            t.push(c);
        }
        i += 1;
    }
    proof {
        assert(s@.subrange(a as int, n as int) =~= s@.skip(a as int));
        assert(t@ == target);
    }
    let m = t.len();
    let mut d: usize = 0;
    while d < m && t[d] != '.'
        invariant
            d <= m == t@.len(),
            forall|j: int| 0 <= j < d ==> t@[j] != '.',
        decreases m - d,
    {
        d += 1;
    }
    proof {
        lemma_find_dot_props(t@);
        assert(find_dot(t@) == d);
    }
    if m == 0 || (m == 1 && d == 0) {
        return Err(StudiFiError::InvalidInput("Invalid currency format".to_owned()));
    }
    let mut acc: u64 = 0;
    let mut j: usize = 0;
    while j < d
        invariant
            j <= d <= m == t@.len(),
            t@ == currency_digits_of(s@),
            m >= 1,
            !(m == 1 && d == 0),
            find_dot(t@) == d,
            acc == digits_value(t@.take(j as int)),
            forall|k: int| 0 <= k < j ==> is_digit(#[trigger] t@[k]),
        decreases d - j,
    {
        let v = char_digit_value(t[j]);
        proof {
            let u = t@.take(j + 1 as int);
            assert(u.drop_last() =~= t@.take(j as int));
            assert(u.last() == t@[j as int]);
        }
        if v >= 10 {
            proof {
                assert(!currency_wf(t@));
            }
            return Err(StudiFiError::InvalidInput("Invalid currency format".to_owned()));
        }
        if acc > (u64::MAX - v) / 10 {
            proof {
                lemma_digits_value_nonneg(t@.take(j + 1 as int));
                assert(digits_value(t@.take(j + 1 as int)) > u64::MAX);
                let dd = d as int;
                assert(t@.take(dd).take(j + 1 as int) =~= t@.take(j + 1 as int));
                lemma_digits_value_take(t@.take(dd), j + 1 as int);
                assert(digits_value(t@.take(dd)) > u64::MAX);
                if d < m {
                    let f = t@.skip(dd + 1);
                    assert(frac_pair(f) >= 0);
                }
                assert(currency_value(t@) > u64::MAX);
            }
            return Err(StudiFiError::InvalidInput("Invalid currency format".to_owned()));
        }
        acc = acc * 10 + v;
        j += 1;
    }
    let mut f: u64 = 0;
    if d < m {
        let mut k: usize = d + 1;
        while k < m
            invariant
                d + 1 <= k <= m == t@.len(),
                t@ == currency_digits_of(s@),
                d == find_dot(t@),
                d < m,
                f == (if k >= d + 2 {
                    digit_value(t@[d + 1]) * 10
                } else {
                    0
                }) + (if k >= d + 3 {
                    digit_value(t@[d + 2])
                } else {
                    0
                }),
                f <= 99,
                forall|q: int| d < q < k ==> is_digit(#[trigger] t@[q]),
            decreases m - k,
        {
            let v = char_digit_value(t[k]);
            if v >= 10 {
                proof {
                    assert(!currency_wf(t@));
                }
                return Err(StudiFiError::InvalidInput("Invalid currency format".to_owned()));
            }
            if k == d + 1 {
                f = v * 10;
            } else if k == d + 2 {
                f = f + v;
            }
            k += 1;
        }
        proof {
            let ff = t@.skip(d + 1 as int);
            assert(forall|q: int| 0 <= q < ff.len() ==> ff[q] == t@[q + d + 1]);
            assert(f == frac_pair(ff));
        }
    }
    proof {
        assert(currency_wf(t@));
    }
    let total: u128 = acc as u128 * 100 + f as u128;
    if total > u64::MAX as u128 {
        return Err(StudiFiError::InvalidInput("Invalid currency format".to_owned()));
    }
    Ok(total as u64)
}

} // verus!
