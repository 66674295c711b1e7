//! Character-sequence helpers shared by the name handling of the library.

use vstd::prelude::*;

verus! {

/// The Unicode `White_Space` property, the set of characters that
/// `char::is_whitespace` and `str::trim` treat as white space.
pub open spec fn is_white_space(c: char) -> bool {
    let u: u32 = c as u32;
    ||| 0x9 <= u <= 0xd
    ||| u == 0x20
    ||| u == 0x85
    ||| u == 0xa0
    ||| u == 0x1680
    ||| 0x2000 <= u <= 0x200a
    ||| u == 0x2028
    ||| u == 0x2029
    ||| u == 0x202f
    ||| u == 0x205f
    ||| u == 0x3000
}

/// `s` without its leading white space.
pub open spec fn trim_start(s: Seq<char>) -> Seq<char>
    decreases s.len(),
{
    if s.len() > 0 && is_white_space(s[0]) {
        trim_start(s.drop_first())
    } else {
        s
    }
}

/// `s` without its trailing white space.
pub open spec fn trim_end(s: Seq<char>) -> Seq<char>
    decreases s.len(),
{
    if s.len() > 0 && is_white_space(s.last()) {
        trim_end(s.drop_last())
    } else {
        s
    }
}

/// `s` without leading and trailing white space, as `str::trim` gives it.
pub open spec fn trim(s: Seq<char>) -> Seq<char> {
    trim_end(trim_start(s))
}

/// The texts of a list of strings.
pub open spec fn string_views(v: Seq<String>) -> Seq<Seq<char>> {
    v.map_values(|s: String| s@)
}

/// A string made of the concatenation of two string slices.
pub fn concat_str(a: &str, b: &str) -> (r: String)
    ensures
        r@ == a@ + b@,
{
    let mut r = String::from_str(a);
    r.append(b);
    r
}

/// Whether two string slices hold the same text.
pub fn str_eq(a: &str, b: &str) -> (r: bool)
    ensures
        r == (a@ == b@),
{
    let x = String::from_str(a);
    let y = String::from_str(b);
    x == y
}

/// Trimming ASCII text leaves ASCII text.
pub proof fn lemma_trim_keeps_ascii(s: Seq<char>)
    requires
        all_ascii(s),
    ensures
        all_ascii(trim(s)),
{
    lemma_trim_start_suffix(s);
    let t = trim_start(s);
    assert(all_ascii(t));
    lemma_trim_end_prefix(t);
}

/// `trim_start(s)` is a suffix of `s`.
pub proof fn lemma_trim_start_suffix(s: Seq<char>)
    ensures
        exists|k: int| 0 <= k <= s.len() && trim_start(s) == s.skip(k),
    decreases s.len(),
{
    if s.len() > 0 && is_white_space(s[0]) {
        lemma_trim_start_suffix(s.drop_first());
        let k: int = choose|k: int|
            0 <= k <= s.drop_first().len() && trim_start(s.drop_first()) == s.drop_first().skip(k);
        assert(s.drop_first().skip(k) == s.skip(k + 1));
    } else {
        assert(s.skip(0) == s);
    }
}

/// `trim_end(s)` is a prefix of `s`.
pub proof fn lemma_trim_end_prefix(s: Seq<char>)
    ensures
        exists|k: int| 0 <= k <= s.len() && trim_end(s) == s.take(k),
    decreases s.len(),
{
    if s.len() > 0 && is_white_space(s.last()) {
        lemma_trim_end_prefix(s.drop_last());
        let k: int = choose|k: int|
            0 <= k <= s.drop_last().len() && trim_end(s.drop_last()) == s.drop_last().take(k);
        assert(s.drop_last().take(k) == s.take(k));
    } else {
        assert(s.take(s.len() as int) == s);
    }
}

/// Whether `c` is white space.
pub fn is_white_space_char(c: char) -> (b: bool)
    ensures
        b == is_white_space(c),
{
    let u: u32 = c as u32;
    (0x9 <= u && u <= 0xd) || u == 0x20 || u == 0x85 || u == 0xa0 || u == 0x1680 || (0x2000 <= u
        && u <= 0x200a) || u == 0x2028 || u == 0x2029 || u == 0x202f || u == 0x205f || u == 0x3000
}

/// Appends one character to a string. Trusted: calls `String::push`, of
/// which it claims that the text afterwards is the text before with `c`
/// appended.
#[verifier::external_body]
pub(crate) fn push_char(s: &mut String, c: char)
    ensures
        final(s)@ == old(s)@.push(c),
{
    s.push(c)
}

/// The characters of `s`, in order.
pub fn chars_of(s: &str) -> (v: Vec<char>)
    ensures
        v@ == s@,
{
    let mut v: Vec<char> = Vec::new();
    for c in it: s.chars()
        invariant
            v@ == it.seq().take(it.index() as int),
            it.seq() == s@,
    {
        v.push(c);
    }
    v
}

/// The string made of the characters `v[from..to]`.
pub fn string_from_range(v: &Vec<char>, from: usize, to: usize) -> (s: String)
    requires
        from <= to <= v.len(),
    ensures
        s@ == v@.subrange(from as int, to as int),
{
    let mut s = String::new();
    let mut k: usize = from;
    while k < to
        invariant
            from <= k <= to <= v.len(),
            s@ == v@.subrange(from as int, k as int),
        decreases to - k,
    {
        push_char(&mut s, v[k]);
        assert(v@.subrange(from as int, k + 1) == v@.subrange(from as int, k as int).push(v@[k as int]));
        k = k + 1;
    }
    s
}

/// `s` without leading and trailing white space (`str::trim`).
pub fn trim_str(s: &str) -> (t: String)
    ensures
        t@ == trim(s@),
{
    let v = chars_of(s);
    let len: usize = v.len();
    let mut i: usize = 0;
    assert(v@.subrange(0, len as int) == v@);
    while i < len && is_white_space_char(v[i])
        invariant
            i <= len == v.len(),
            trim_start(v@) == trim_start(v@.subrange(i as int, len as int)),
        decreases len - i,
    {
        assert(v@.subrange(i as int, len as int).drop_first() == v@.subrange(i + 1, len as int));
        i = i + 1;
    }
    assert(trim_start(v@) == v@.subrange(i as int, len as int));
    let mut j: usize = len;
    while j > i && is_white_space_char(v[j - 1])
        invariant
            i <= j <= len == v.len(),
            trim_end(v@.subrange(i as int, len as int)) == trim_end(v@.subrange(i as int, j as int)),
        decreases j - i,
    {
        assert(v@.subrange(i as int, j as int).drop_last() == v@.subrange(i as int, j - 1));
        j = j - 1;
    }
    assert(trim_end(v@.subrange(i as int, j as int)) == v@.subrange(i as int, j as int));
    string_from_range(&v, i, j)
}

/// Whether `pat` occurs in `s` (`str::contains` with a string pattern).
pub open spec fn contains(s: Seq<char>, pat: Seq<char>) -> bool
    decreases s.len(),
{
    if pat.len() > s.len() {
        false
    } else if s.take(pat.len() as int) == pat {
        true
    } else if s.len() == 0 {
        false
    } else {
        contains(s.drop_first(), pat)
    }
}

/// `s` with its first occurrence of `pat` replaced by `rep`
/// (`str::replacen(pat, rep, 1)`); `s` itself where `pat` does not occur.
pub open spec fn replace_first(s: Seq<char>, pat: Seq<char>, rep: Seq<char>) -> Seq<char>
    decreases s.len(),
{
    if pat.len() > s.len() {
        s
    } else if s.take(pat.len() as int) == pat {
        rep + s.skip(pat.len() as int)
    } else if s.len() == 0 {
        s
    } else {
        seq![s[0]] + replace_first(s.drop_first(), pat, rep)
    }
}

/// Whether `pat` stands in `v` at position `i`.
fn matches_at(v: &Vec<char>, pat: &Vec<char>, i: usize) -> (b: bool)
    requires
        i + pat.len() <= v.len(),
    ensures
        b == (v@.subrange(i as int, i + pat.len()) == pat@),
{
    let m: usize = pat.len();
    let mut k: usize = 0;
    while k < m
        invariant
            m == pat.len(),
            i + m <= v.len(),
            k <= m,
            forall|t: int| 0 <= t < k ==> v@[i + t] == pat@[t],
        decreases m - k,
    {
        if v[i + k] != pat[k] {
            assert(v@.subrange(i as int, i + m)[k as int] != pat@[k as int]);
            return false;
        }
        k = k + 1;
    }
    assert(v@.subrange(i as int, i + m) =~= pat@);
    true
}

/// The first position at which `pat` occurs in `v`, if any.
fn find_first(v: &Vec<char>, pat: &Vec<char>) -> (r: Option<usize>)
    ensures
        r is None ==> !contains(v@, pat@) && replace_first(v@, pat@, seq![]) == v@,
        r matches Some(i) ==> i + pat.len() <= v.len() && v@.subrange(i as int, i + pat.len())
            == pat@ && contains(v@, pat@) && forall|rep: Seq<char>| #[trigger]
            replace_first(v@, pat@, rep) == v@.take(i as int) + rep + v@.skip(i + pat.len()),
{
    let n: usize = v.len();
    let m: usize = pat.len();
    if m > n {
        return None;
    }
    if m == 0 {
        assert(v@.subrange(0, 0) =~= pat@);
        assert(v@.take(0) =~= pat@);
        assert forall|rep: Seq<char>| #[trigger]
            replace_first(v@, pat@, rep) == v@.take(0) + rep + v@.skip(0) by {
            assert(v@.take(0) + rep =~= rep);
            assert(v@.skip(0) =~= v@);
        }
        return Some(0);
    }
    let mut i: usize = 0;
    assert(v@.skip(0) == v@);
    while i <= n - m
        invariant
            n == v.len(),
            m == pat.len(),
            0 < m <= n,
            i <= n - m + 1,
            contains(v@, pat@) == contains(v@.skip(i as int), pat@),
            forall|rep: Seq<char>| #[trigger]
                replace_first(v@, pat@, rep) == v@.take(i as int) + replace_first(
                    v@.skip(i as int),
                    pat@,
                    rep,
                ),
        decreases n - i,
    {
        let ghost tail = v@.skip(i as int);
        assert(tail.take(m as int) == v@.subrange(i as int, i + m));
        if matches_at(v, pat, i) {
            assert forall|rep: Seq<char>| #[trigger]
                replace_first(v@, pat@, rep) == v@.take(i as int) + rep + v@.skip(i + m) by {
                assert(tail.skip(m as int) == v@.skip(i + m));
                assert(replace_first(tail, pat@, rep) == rep + tail.skip(m as int));
                assert(v@.take(i as int) + (rep + v@.skip(i + m)) == v@.take(i as int) + rep
                    + v@.skip(i + m));
            }
            return Some(i);
        }
        assert(tail.drop_first() == v@.skip(i + 1));
        assert forall|rep: Seq<char>| #[trigger]
            replace_first(v@, pat@, rep) == v@.take(i + 1) + replace_first(
                v@.skip(i + 1),
                pat@,
                rep,
            ) by {
            assert(replace_first(tail, pat@, rep) == seq![tail[0]] + replace_first(
                tail.drop_first(),
                pat@,
                rep,
            ));
            assert(v@.take(i + 1) == v@.take(i as int) + seq![tail[0]]);
            assert(v@.take(i as int) + (seq![tail[0]] + replace_first(v@.skip(i + 1), pat@, rep))
                == v@.take(i + 1) + replace_first(v@.skip(i + 1), pat@, rep));
        }
        i = i + 1;
    }
    let ghost tail = v@.skip(i as int);
    assert(pat@.len() > tail.len());
    assert(v@.take(i as int) + tail == v@);
    None
}

/// Whether `pat` occurs in `s`.
pub fn contains_str(s: &str, pat: &str) -> (b: bool)
    ensures
        b == contains(s@, pat@),
{
    let v = chars_of(s);
    let p = chars_of(pat);
    find_first(&v, &p).is_some()
}

/// `s` with the first occurrence of `pat` replaced by `rep`.
pub fn replace_first_str(s: &str, pat: &str, rep: &str) -> (r: String)
    ensures
        r@ == replace_first(s@, pat@, rep@),
{
    let v = chars_of(s);
    let p = chars_of(pat);
    match find_first(&v, &p) {
        None => {
            let r = string_from_range(&v, 0, v.len());
            assert(v@.subrange(0, v@.len() as int) == v@);
            proof {
                lemma_no_match_keeps(v@, p@, rep@);
            }
            r
        },
        Some(i) => {
            let mut r = string_from_range(&v, 0, i);
            r.append(rep);
            let rest = string_from_range(&v, i + p.len(), v.len());
            r.append(rest.as_str());
            assert(v@.take(i as int) == v@.subrange(0, i as int));
            assert(v@.skip(i + p@.len()) == v@.subrange(i + p@.len(), v@.len() as int));
            assert(replace_first(v@, p@, rep@) == v@.take(i as int) + rep@ + v@.skip(i + p@.len()));
            r
        },
    }
}

/// Where `pat` occurs, replacing its first occurrence by `rep` changes the
/// length by the difference of their lengths, and `rep` then occurs.
pub proof fn lemma_replace_first_found(s: Seq<char>, pat: Seq<char>, rep: Seq<char>)
    requires
        contains(s, pat),
    ensures
        replace_first(s, pat, rep).len() == s.len() - pat.len() + rep.len(),
        contains(replace_first(s, pat, rep), rep),
    decreases s.len(),
{
    let r = replace_first(s, pat, rep);
    if pat.len() > s.len() {
    } else if s.take(pat.len() as int) == pat {
        assert(r.take(rep.len() as int) =~= rep);
    } else if s.len() == 0 {
    } else {
        lemma_replace_first_found(s.drop_first(), pat, rep);
        let t = replace_first(s.drop_first(), pat, rep);
        assert(r == seq![s[0]] + t);
        assert(r.drop_first() =~= t);
        lemma_contains_in_tail(r, rep);
    }
}

/// What occurs in the tail of a sequence occurs in the sequence.
proof fn lemma_contains_in_tail(s: Seq<char>, pat: Seq<char>)
    requires
        s.len() > 0,
        contains(s.drop_first(), pat),
    ensures
        contains(s, pat),
{
    if pat.len() > s.len() {
        assert(pat.len() > s.drop_first().len());
    }
}

/// Where `pat` does not occur, replacing its first occurrence changes nothing.
proof fn lemma_no_match_keeps(s: Seq<char>, pat: Seq<char>, rep: Seq<char>)
    requires
        !contains(s, pat),
    ensures
        replace_first(s, pat, rep) == s,
    decreases s.len(),
{
    if pat.len() > s.len() {
    } else if s.take(pat.len() as int) == pat {
    } else if s.len() == 0 {
    } else {
        lemma_no_match_keeps(s.drop_first(), pat, rep);
        assert(seq![s[0]] + s.drop_first() == s);
    }
}

/// Whether every character of `s` is ASCII.
pub open spec fn all_ascii(s: Seq<char>) -> bool {
    forall|i: int| 0 <= i < s.len() ==> (s[i] as u32) < 0x80
}

/// `c` with an ASCII capital letter mapped to its small letter.
pub open spec fn ascii_lower(c: char) -> char {
    if 0x41 <= (c as u32) <= 0x5a {
        ((c as u32) + 0x20) as char
    } else {
        c
    }
}

/// `s` with every ASCII capital letter mapped to its small letter.
pub open spec fn ascii_lowercase(s: Seq<char>) -> Seq<char> {
    s.map_values(|c: char| ascii_lower(c))
}

/// What `str::to_lowercase` gives for `s`: the lowercase mapping of the
/// Unicode standard, which the standard library carries as tables.
pub uninterp spec fn lowercase(s: Seq<char>) -> Seq<char>;

/// Lowercases a string. Trusted: calls `str::to_lowercase`, of which it
/// claims that the result is the name `lowercase` of the argument's text,
/// and that on text made of ASCII characters only it is the ASCII lowercase
/// mapping (the Unicode mapping agrees with it there). Nothing else is said
/// of the Unicode tables.
#[verifier::external_body]
pub(crate) fn to_lowercase(s: &str) -> (r: String)
    ensures
        r@ == lowercase(s@),
        all_ascii(s@) ==> r@ == ascii_lowercase(s@),
{
    s.to_lowercase()
}

/// `c` with an ASCII capital letter mapped to its small letter (`char::to_ascii_lowercase`).
pub fn ascii_lower_char(c: char) -> (r: char)
    ensures
        r == ascii_lower(c),
{
    if 'A' <= c && c <= 'Z' {
        let b: u8 = c as u8;
        ((b + 0x20) as u8) as char
    } else {
        c
    }
}

/// Equality up to ASCII letter case (`str::eq_ignore_ascii_case`).
pub open spec fn eq_ignore_ascii_case(a: Seq<char>, b: Seq<char>) -> bool {
    &&& a.len() == b.len()
    &&& forall|i: int| 0 <= i < a.len() ==> ascii_lower(a[i]) == ascii_lower(b[i])
}

/// Whether `a` and `b` are equal up to ASCII letter case.
pub fn eq_ignore_ascii_case_str(a: &str, b: &str) -> (r: bool)
    ensures
        r == eq_ignore_ascii_case(a@, b@),
{
    let va = chars_of(a);
    let vb = chars_of(b);
    if va.len() != vb.len() {
        return false;
    }
    let mut i: usize = 0;
    while i < va.len()
        invariant
            va@ == a@,
            vb@ == b@,
            va.len() == vb.len(),
            i <= va.len(),
            forall|t: int| 0 <= t < i ==> ascii_lower(va@[t]) == ascii_lower(vb@[t]),
        decreases va.len() - i,
    {
        if ascii_lower_char(va[i]) != ascii_lower_char(vb[i]) {
            return false;
        }
        i = i + 1;
    }
    true
}

/// The decimal digit character for `d < 10`.
pub open spec fn digit_char(d: nat) -> char {
    (0x30 + d) as char
}

/// The decimal representation of `n`, without sign or leading zeros
/// (`u64::to_string`).
pub open spec fn decimal(n: nat) -> Seq<char>
    decreases n,
{
    if n < 10 {
        seq![digit_char(n)]
    } else {
        decimal(n / 10).push(digit_char(n % 10))
    }
}

/// Appends the decimal representation of `n` to `s`.
pub fn push_decimal(s: &mut String, n: u64)
    ensures
        final(s)@ == old(s)@ + decimal(n as nat),
    decreases n,
{
    if n >= 10 {
        push_decimal(s, n / 10);
    }
    let d: u8 = (n % 10) as u8;
    push_char(s, (0x30u8 + d) as char);
    assert(old(s)@ + decimal(n as nat) == old(s)@ + (if n >= 10 {
        decimal((n / 10) as nat)
    } else {
        seq![]
    }) + seq![digit_char((n % 10) as nat)]);
}

/// Whether `c` is an ASCII decimal digit.
pub open spec fn is_digit(c: char) -> bool {
    0x30 <= (c as u32) <= 0x39
}

/// The value of the decimal digit `c`.
pub open spec fn digit_value(c: char) -> nat {
    ((c as u32) - 0x30) as nat
}

/// The value of the decimal digit string `d`.
pub open spec fn digits_value(d: Seq<char>) -> nat
    decreases d.len(),
{
    if d.len() == 0 {
        0
    } else {
        digits_value(d.drop_last()) * 10 + digit_value(d.last())
    }
}

/// Whether `d` is made of ASCII digits only.
pub open spec fn all_digits(d: Seq<char>) -> bool {
    forall|i: int| 0 <= i < d.len() ==> is_digit(d[i])
}

/// `s` without one leading `+`.
pub open spec fn without_plus(s: Seq<char>) -> Seq<char> {
    if s.len() > 0 && s[0] == '+' {
        s.drop_first()
    } else {
        s
    }
}

/// What `str::parse::<u32>` accepts: an optional `+`, then one or more ASCII
/// digits whose value fits in a `u32`.
pub open spec fn parse_u32(s: Seq<char>) -> Option<u32> {
    let d = without_plus(s);
    if d.len() > 0 && all_digits(d) && digits_value(d) <= u32::MAX {
        Some(digits_value(d) as u32)
    } else {
        None
    }
}

/// A longer digit string never has a smaller value than its prefix.
proof fn lemma_digits_value_grows(d: Seq<char>, k: int)
    requires
        0 <= k <= d.len(),
        forall|i: int| 0 <= i < d.len() ==> is_digit(d[i]),
    ensures
        digits_value(d.take(k)) <= digits_value(d),
    decreases d.len() - k,
{
    if k < d.len() {
        lemma_digits_value_grows(d, k + 1);
        assert(d.take(k + 1).drop_last() == d.take(k));
    } else {
        assert(d.take(k) == d);
    }
}

/// Parses a `u32` the way `str::parse::<u32>` does.
pub fn parse_u32_str(s: &str) -> (r: Option<u32>)
    ensures
        r == parse_u32(s@),
{
    let v = chars_of(s);
    let n: usize = v.len();
    let start: usize = if n > 0 && v[0] == '+' {
        1
    } else {
        0
    };
    let ghost d = without_plus(v@);
    assert(d == v@.skip(start as int));
    if start == n {
        return None;
    }
    let mut value: u64 = 0;
    let mut i: usize = start;
    while i < n
        invariant
            v@ == s@,
            n == v.len(),
            start < n,
            start <= i <= n,
            d == v@.skip(start as int),
            d == without_plus(v@),
            forall|t: int| 0 <= t < i - start ==> is_digit(d[t]),
            value == digits_value(d.take(i - start)),
            value <= u32::MAX,
        decreases n - i,
    {
        let c: char = v[i];
        assert(c == d[i - start]);
        let cu: u32 = c as u32;
        if !(0x30 <= cu && cu <= 0x39) {
            assert(!is_digit(d[i - start]));
            assert(!all_digits(d));
            return None;
        }
        let dv: u64 = (cu - 0x30) as u64;
        let next: u64 = value * 10 + dv;
        assert(d.take(i + 1 - start).drop_last() == d.take(i - start));
        assert(next == digits_value(d.take(i + 1 - start)));
        if next > 0xffff_ffff {
            proof {
                if all_digits(d) {
                    lemma_digits_value_grows(d, i + 1 - start);
                }
            }
            return None;
        }
        value = next;
        i = i + 1;
    }
    assert(d.take(n - start) == d);
    Some(value as u32)
}

/// Reading back a number that was written in decimal gives the number:
/// the text is one or more digits, without sign, and its value is `n`.
pub proof fn law_decimal_parses_back(n: nat)
    ensures
        decimal(n).len() > 0,
        all_digits(decimal(n)),
        digits_value(decimal(n)) == n,
        n <= u32::MAX ==> parse_u32(decimal(n)) == Some(n as u32),
    decreases n,
{
    let d = decimal(n);
    if n >= 10 {
        law_decimal_parses_back(n / 10);
        let q = decimal(n / 10);
        assert(d.drop_last() == q);
        assert forall|i: int| 0 <= i < d.len() implies is_digit(d[i]) by {
            if i < q.len() {
                assert(d[i] == q[i]);
            }
        }
        assert((n / 10) * 10 + n % 10 == n) by (nonlinear_arith);
        assert(digits_value(d) == digits_value(q) * 10 + digit_value(d.last()));
    } else {
        assert(d.drop_last() =~= Seq::<char>::empty());
        assert(digits_value(d) == digits_value(d.drop_last()) * 10 + digit_value(d.last()));
    }
    assert(is_digit(d[0]));
    assert(without_plus(d) == d);
}

/// What `String::from_utf8_lossy` gives for `b`: the decoded text, with each
/// invalid sequence replaced by U+FFFD.
pub uninterp spec fn utf8_lossy(b: Seq<u8>) -> Seq<char>;

/// Decodes bytes as UTF-8, replacing invalid sequences. Trusted: calls
/// `String::from_utf8_lossy`, of which it claims that the result is the name
/// `utf8_lossy` of the bytes, and that on valid UTF-8 it is the decoded text.
/// What replaces invalid sequences is left unsaid.
#[verifier::external_body]
pub(crate) fn from_utf8_lossy(b: &[u8]) -> (r: String)
    ensures
        r@ == utf8_lossy(b@),
        vstd::utf8::valid_utf8(b@) ==> r@ == vstd::utf8::decode_utf8(b@),
{
    String::from_utf8_lossy(b).into_owned()
}

} // verus!
