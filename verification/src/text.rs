//! Reading and taking apart text.
//!
//! Every text is a sequence of characters. Positions count characters, and a
//! separator is itself a text, so that one search serves all callers.
use vstd::prelude::*;
use vstd::string::*;

verus! {

/// Whether `p` stands in `s` at position `i`.
pub open spec fn occurs_at(s: Seq<char>, p: Seq<char>, i: int) -> bool {
    0 <= i && i + p.len() <= s.len() && s.subrange(i, i + p.len()) == p
}

/// The first position at or after `i` where `p` stands in `s`.
pub open spec fn position_from(s: Seq<char>, p: Seq<char>, i: int) -> Option<int>
    decreases s.len() + 1 - i,
{
    if i < 0 || i + p.len() > s.len() {
        None
    } else if occurs_at(s, p, i) {
        Some(i)
    } else {
        position_from(s, p, i + 1)
    }
}

/// The first position where `p` stands in `s`.
pub open spec fn position(s: Seq<char>, p: Seq<char>) -> Option<int> {
    position_from(s, p, 0)
}

/// Whether `p` stands somewhere in `s`.
pub open spec fn contains(s: Seq<char>, p: Seq<char>) -> bool {
    position(s, p) is Some
}

/// `s` cut at every occurrence of `p`, the cuts left out. There is always at
/// least one piece; where two occurrences touch, the piece between is empty.
pub open spec fn pieces(s: Seq<char>, p: Seq<char>) -> Seq<Seq<char>>
    decreases s.len(),
{
    match position(s, p) {
        Some(i) => if p.len() == 0 || i < 0 || i + p.len() > s.len() {
            seq![s]
        } else {
            seq![s.take(i)] + pieces(s.skip(i + p.len()), p)
        },
        None => seq![s],
    }
}

/// Whether `s` begins with `p`.
pub open spec fn starts(s: Seq<char>, p: Seq<char>) -> bool {
    p.len() <= s.len() && s.take(p.len() as int) == p
}

/// Whether `s` ends with `p`.
pub open spec fn ends(s: Seq<char>, p: Seq<char>) -> bool {
    p.len() <= s.len() && s.skip(s.len() - p.len()) == p
}

/// `s` without the copies of `p` that it begins with.
pub open spec fn without_prefixes(s: Seq<char>, p: Seq<char>) -> Seq<char>
    decreases s.len(),
{
    if p.len() > 0 && starts(s, p) {
        without_prefixes(s.skip(p.len() as int), p)
    } else {
        s
    }
}

/// `s` without the copies of `p` that it ends with.
pub open spec fn without_suffixes(s: Seq<char>, p: Seq<char>) -> Seq<char>
    decreases s.len(),
{
    if p.len() > 0 && ends(s, p) {
        without_suffixes(s.take(s.len() - p.len()), p)
    } else {
        s
    }
}

/// The texts of a list of string slices.
pub open spec fn texts(v: Seq<&str>) -> Seq<Seq<char>> {
    Seq::new(v.len(), |i: int| v[i]@)
}

/// The text of an optional string.
pub open spec fn optional(s: Option<String>) -> Option<Seq<char>> {
    match s {
        Some(text) => Some(text@),
        None => None,
    }
}

/// The characters of `s`.
pub fn chars_of(s: &str) -> (chars: Vec<char>)
    ensures
        chars@ == s@,
{
    let mut chars: Vec<char> = Vec::new();
    for c in it: s.chars()
        invariant
            it.seq() == s@,
            chars@ == it.seq().take(it.index() as int),
    {
        chars.push(c);
    }
    chars
}

/// Whether `a` and `b` are the same text.
pub fn same(a: &str, b: &str) -> (yes: bool)
    ensures
        yes == (a@ == b@),
{
    let x = a.to_owned();
    let y = b.to_owned();
    x == y
}

/// Whether `s` begins with `p`.
pub fn starts_with(s: &str, p: &str) -> (yes: bool)
    ensures
        yes == starts(s@, p@),
{
    let n: usize = p.unicode_len();
    if s.unicode_len() < n {
        return false;
    }
    same(s.substring_char(0, n), p)
}

/// Whether `s` ends with `p`.
pub fn ends_with(s: &str, p: &str) -> (yes: bool)
    ensures
        yes == ends(s@, p@),
{
    let n: usize = p.unicode_len();
    let len: usize = s.unicode_len();
    if len < n {
        return false;
    }
    same(s.substring_char(len - n, len), p)
}

/// What follows `p` in `s`, where `s` begins with `p`.
pub fn after_prefix<'a>(s: &'a str, p: &str) -> (rest: Option<&'a str>)
    ensures
        rest is Some <==> starts(s@, p@),
        rest matches Some(r) ==> r@ == s@.skip(p@.len() as int),
{
    if starts_with(s, p) {
        Some(s.substring_char(p.unicode_len(), s.unicode_len()))
    } else {
        None
    }
}

/// The first position where `p` stands in `s`.
pub fn find(s: &str, p: &str) -> (at: Option<usize>)
    ensures
        at is Some <==> position(s@, p@) is Some,
        at matches Some(i) ==> position(s@, p@) == Some(i as int) && occurs_at(s@, p@, i as int),
{
    let hay = chars_of(s);
    let needle = chars_of(p);
    let n: usize = needle.len();
    let mut i: usize = 0;
    if n > hay.len() {
        return None;
    }
    while i <= hay.len() - n
        invariant
            hay@ == s@,
            needle@ == p@,
            n == needle@.len(),
            n <= hay@.len(),
            i <= hay@.len() - n + 1,
            position(s@, p@) == position_from(s@, p@, i as int),
        decreases hay@.len() + 1 - i,
    {
        let mut k: usize = 0;
        while k < n && hay[i + k] == needle[k]
            invariant
                n == needle@.len(),
                i + n <= hay.len(),
                k <= n,
                hay@.subrange(i as int, i + k) == needle@.take(k as int),
            decreases n - k,
        {
            proof {
                assert(hay@.subrange(i as int, i + k + 1) == hay@.subrange(i as int, i + k).push(
                    hay@[i + k],
                ));
                assert(needle@.take(k + 1) == needle@.take(k as int).push(needle@[k as int]));
            }
            k = k + 1;
        }
        if k == n {
            proof {
                assert(needle@.take(n as int) == needle@);
            }
            return Some(i);
        }
        proof {
            if occurs_at(s@, p@, i as int) {
                assert(s@.subrange(i as int, i + n)[k as int] == p@[k as int]);
            }
        }
        if i == hay.len() - n {
            proof {
                assert(position_from(s@, p@, i + 1) is None);
            }
            return None;
        }
        i = i + 1;
    }
    None
}

/// `s` cut at every occurrence of `p`.
pub fn split<'a>(s: &'a str, p: &str) -> (parts: Vec<&'a str>)
    requires
        p@.len() > 0,
    ensures
        texts(parts@) == pieces(s@, p@),
        parts@.len() >= 1,
{
    let mut parts: Vec<&'a str> = Vec::new();
    let mut rest: &'a str = s;
    let n: usize = p.unicode_len();
    loop
        invariant
            n == p@.len(),
            n > 0,
            texts(parts@) + pieces(rest@, p@) == pieces(s@, p@),
        decreases rest@.len(),
    {
        match find(rest, p) {
            Some(i) => {
                let ghost before = rest@;
                let ghost taken = texts(parts@);
                let len: usize = rest.unicode_len();
                parts.push(rest.substring_char(0, i));
                rest = rest.substring_char(i + n, len);
                proof {
                    assert(before.subrange(0, i as int) == before.take(i as int));
                    assert(before.subrange(i + n, before.len() as int) == before.skip(i + n));
                    assert(texts(parts@) == taken.push(before.take(i as int)));
                    assert(taken + (seq![before.take(i as int)] + pieces(rest@, p@))
                        == taken.push(before.take(i as int)) + pieces(rest@, p@));
                }
            },
            None => {
                let ghost taken = texts(parts@);
                parts.push(rest);
                proof {
                    assert(texts(parts@) == taken.push(rest@));
                    assert(taken + seq![rest@] == taken.push(rest@));
                }
                return parts;
            },
        }
    }
}

/// `s` without the copies of `p` that it begins with.
pub fn trim_start_matches<'a>(s: &'a str, p: &str) -> (rest: &'a str)
    requires
        p@.len() > 0,
    ensures
        rest@ == without_prefixes(s@, p@),
{
    let mut rest: &'a str = s;
    let n: usize = p.unicode_len();
    while starts_with(rest, p)
        invariant
            n == p@.len(),
            n > 0,
            without_prefixes(rest@, p@) == without_prefixes(s@, p@),
        decreases rest@.len(),
    {
        let ghost before = rest@;
        rest = rest.substring_char(n, rest.unicode_len());
        proof {
            assert(before.subrange(n as int, before.len() as int) == before.skip(n as int));
        }
    }
    rest
}

/// `s` without the copies of `p` that it ends with.
pub fn trim_end_matches<'a>(s: &'a str, p: &str) -> (rest: &'a str)
    requires
        p@.len() > 0,
    ensures
        rest@ == without_suffixes(s@, p@),
{
    let mut rest: &'a str = s;
    let n: usize = p.unicode_len();
    while ends_with(rest, p)
        invariant
            n == p@.len(),
            n > 0,
            without_suffixes(rest@, p@) == without_suffixes(s@, p@),
        decreases rest@.len(),
    {
        let ghost before = rest@;
        rest = rest.substring_char(0, rest.unicode_len() - n);
        proof {
            assert(before.subrange(0, before.len() - n) == before.take(before.len() - n));
        }
    }
    rest
}

/// Whether `c` has the Unicode property `White_Space`.
pub open spec fn white_space(c: char) -> bool {
    ||| '\u{9}' <= c <= '\u{d}'
    ||| c == ' '
    ||| c == '\u{85}'
    ||| c == '\u{a0}'
    ||| c == '\u{1680}'
    ||| '\u{2000}' <= c <= '\u{200a}'
    ||| c == '\u{2028}'
    ||| c == '\u{2029}'
    ||| c == '\u{202f}'
    ||| c == '\u{205f}'
    ||| c == '\u{3000}'
}

/// `char::is_whitespace` of the standard library tests the Unicode property
/// `White_Space`.
pub assume_specification[ char::is_whitespace ](c: char) -> (yes: bool)
    ensures
        yes == white_space(c),
;

/// `s` without the white space that it begins with.
pub open spec fn trimmed_start(s: Seq<char>) -> Seq<char>
    decreases s.len(),
{
    if s.len() > 0 && white_space(s[0]) {
        trimmed_start(s.skip(1))
    } else {
        s
    }
}

/// `s` without the white space that it ends with.
pub open spec fn trimmed_end(s: Seq<char>) -> Seq<char>
    decreases s.len(),
{
    if s.len() > 0 && white_space(s.last()) {
        trimmed_end(s.drop_last())
    } else {
        s
    }
}

/// `s` without the white space around it.
pub open spec fn trimmed(s: Seq<char>) -> Seq<char> {
    trimmed_end(trimmed_start(s))
}

/// `s` without the white space around it.
pub fn trim(s: &str) -> (rest: &str)
    ensures
        rest@ == trimmed(s@),
{
    let chars = chars_of(s);
    let len: usize = chars.len();
    let mut from: usize = 0;
    proof {
        assert(s@.skip(0) == s@);
    }
    while from < len && chars[from].is_whitespace()
        invariant
            chars@ == s@,
            len == chars@.len(),
            from <= len,
            trimmed_start(s@.skip(from as int)) == trimmed_start(s@),
        decreases len - from,
    {
        proof {
            assert(s@.skip(from as int).skip(1) == s@.skip(from + 1));
        }
        from = from + 1;
    }
    let ghost head = s@.skip(from as int);
    let mut to: usize = len;
    proof {
        assert(trimmed_start(s@) == head);
        assert(s@.subrange(from as int, to as int) == head);
    }
    while to > from && chars[to - 1].is_whitespace()
        invariant
            chars@ == s@,
            len == chars@.len(),
            from <= to <= len,
            trimmed_end(s@.subrange(from as int, to as int)) == trimmed_end(head),
        decreases to,
    {
        proof {
            assert(s@.subrange(from as int, to as int).drop_last() == s@.subrange(
                from as int,
                to - 1,
            ));
        }
        to = to - 1;
    }
    s.substring_char(from, to)
}

/// The lower-case form of an ASCII letter, any other character unchanged.
pub open spec fn ascii_lower(c: char) -> char {
    if 'A' <= c <= 'Z' {
        (c as u32 + 32) as char
    } else {
        c
    }
}

/// Whether `a` and `b` differ at most in the case of ASCII letters.
pub open spec fn same_ignoring_case(a: Seq<char>, b: Seq<char>) -> bool {
    a.len() == b.len() && forall|i: int|
        0 <= i < a.len() ==> ascii_lower(#[trigger] a[i]) == ascii_lower(b[i])
}

fn lower_ascii_char(c: char) -> (lower: char)
    ensures
        lower == ascii_lower(c),
{
    if 'A' <= c && c <= 'Z' {
        (c as u8 + 32) as char
    } else {
        c
    }
}

/// Whether `a` and `b` differ at most in the case of ASCII letters.
pub fn eq_ignore_ascii_case(a: &str, b: &str) -> (yes: bool)
    ensures
        yes == same_ignoring_case(a@, b@),
{
    let x = chars_of(a);
    let y = chars_of(b);
    if x.len() != y.len() {
        return false;
    }
    let mut i: usize = 0;
    while i < x.len()
        invariant
            x@ == a@,
            y@ == b@,
            x@.len() == y@.len(),
            i <= x@.len(),
            forall|j: int| 0 <= j < i ==> ascii_lower(#[trigger] a@[j]) == ascii_lower(b@[j]),
        decreases x@.len() - i,
    {
        if lower_ascii_char(x[i]) != lower_ascii_char(y[i]) {
            proof {
                assert(ascii_lower(a@[i as int]) != ascii_lower(b@[i as int]));
            }
            return false;
        }
        i = i + 1;
    }
    true
}

/// The lower-case form of a text, as Unicode defines it.
pub uninterp spec fn unicode_lowercased(s: Seq<char>) -> Seq<char>;

/// `str::to_lowercase` of the standard library gives the lower-case form of a
/// text, as Unicode defines it.
#[verifier::external_body]
fn unicode_lowercase(s: &str) -> (lower: String)
    ensures
        lower@ == unicode_lowercased(s@),
{
    s.to_lowercase()
}

/// Whether every character of `s` is an ASCII character.
pub open spec fn all_ascii(s: Seq<char>) -> bool {
    forall|i: int| 0 <= i < s.len() ==> '\0' <= #[trigger] s[i] <= '\u{7f}'
}

/// The lower-case form of a text. Of an ASCII text it differs in the letters
/// from `A` to `Z` alone.
pub open spec fn lowercased(s: Seq<char>) -> Seq<char> {
    if all_ascii(s) {
        Seq::new(s.len(), |i: int| ascii_lower(s[i]))
    } else {
        unicode_lowercased(s)
    }
}

/// The lower-case form of `s`.
pub fn to_lowercase(s: &str) -> (lower: String)
    ensures
        lower@ == lowercased(s@),
{
    if !s.is_ascii() {
        return unicode_lowercase(s);
    }
    let chars = chars_of(s);
    let mut lower = String::new();
    let mut i: usize = 0;
    proof {
        reveal_strlit("abcdefghijklmnopqrstuvwxyz");
    }
    while i < chars.len()
        invariant
            chars@ == s@,
            i <= chars@.len(),
            lower@ == Seq::new(i as nat, |j: int| ascii_lower(s@[j])),
            "abcdefghijklmnopqrstuvwxyz"@.len() == 26,
            forall|k: int|
                0 <= k < 26 ==> #[trigger] "abcdefghijklmnopqrstuvwxyz"@[k] == (97 + k) as char,
        decreases chars@.len() - i,
    {
        let c = chars[i];
        if 'A' <= c && c <= 'Z' {
            let k: usize = (c as u32 - 65) as usize;
            lower.append("abcdefghijklmnopqrstuvwxyz".substring_char(k, k + 1));
        } else {
            lower.append(s.substring_char(i, i + 1));
        }
        i = i + 1;
    }
    lower
}

/// Whether `c` is one of the ten decimal digits.
pub open spec fn is_digit(c: char) -> bool {
    '0' <= c <= '9'
}

/// Whether `s` is a row of one or more decimal digits.
pub open spec fn all_digits(s: Seq<char>) -> bool {
    s.len() > 0 && forall|i: int| 0 <= i < s.len() ==> is_digit(#[trigger] s[i])
}

/// The number that a row of decimal digits stands for.
pub open spec fn number(s: Seq<char>) -> nat
    decreases s.len(),
{
    if s.len() == 0 {
        0
    } else {
        number(s.drop_last()) * 10 + (s.last() as u32 - '0' as u32) as nat
    }
}

/// `s` without one leading plus sign.
pub open spec fn unsigned_part(s: Seq<char>) -> Seq<char> {
    if s.len() > 0 && s[0] == '+' {
        s.skip(1)
    } else {
        s
    }
}

/// The 64-bit number that `s` spells: decimal digits, perhaps after a plus sign.
pub open spec fn spelled_u64(s: Seq<char>) -> Option<u64> {
    let digits = unsigned_part(s);
    if all_digits(digits) && number(digits) <= u64::MAX {
        Some(number(digits) as u64)
    } else {
        None
    }
}

/// The signed 32-bit number that `s` spells: decimal digits, perhaps after a sign.
pub open spec fn spelled_i32(s: Seq<char>) -> Option<i32> {
    if s.len() > 0 && s[0] == '-' {
        let digits = s.skip(1);
        if all_digits(digits) && -number(digits) >= i32::MIN {
            Some((-number(digits)) as i32)
        } else {
            None
        }
    } else {
        let digits = unsigned_part(s);
        if all_digits(digits) && number(digits) <= i32::MAX {
            Some(number(digits) as i32)
        } else {
            None
        }
    }
}

proof fn lemma_number_prefix(s: Seq<char>, k: int)
    requires
        0 <= k <= s.len(),
        forall|i: int| 0 <= i < s.len() ==> is_digit(#[trigger] s[i]),
    ensures
        number(s.take(k)) <= number(s),
    decreases s.len(),
{
    if k == s.len() {
        assert(s.take(k) == s);
    } else {
        lemma_number_prefix(s.drop_last(), k);
        assert(s.drop_last().take(k) == s.take(k));
    }
}

/// The number that `chars` from position `from` on spells, where it is a row
/// of digits and fits.
fn digits_from(chars: &Vec<char>, from: usize) -> (value: Option<u64>)
    requires
        from <= chars@.len(),
    ensures
        value is Some <==> all_digits(chars@.skip(from as int)) && number(
            chars@.skip(from as int),
        ) <= u64::MAX,
        value matches Some(v) ==> v == number(chars@.skip(from as int)),
{
    let ghost digits = chars@.skip(from as int);
    if from == chars.len() {
        return None;
    }
    let mut i: usize = from;
    let mut value: u64 = 0;
    while i < chars.len()
        invariant
            digits == chars@.skip(from as int),
            from <= i <= chars@.len(),
            forall|j: int| 0 <= j < i - from ==> is_digit(#[trigger] digits[j]),
            value == number(digits.take(i - from)),
        decreases chars@.len() - i,
    {
        let c = chars[i];
        proof {
            assert(digits[i - from] == c);
            assert(digits.take(i - from + 1).drop_last() == digits.take(i - from));
        }
        if c < '0' || c > '9' {
            return None;
        }
        let d: u64 = (c as u32 - 48) as u64;
        proof {
            assert(number(digits.take(i - from + 1)) == value * 10 + d);
        }
        if value > (u64::MAX - d) / 10 {
            proof {
                assert(value * 10 + d > u64::MAX);
                if all_digits(digits) {
                    lemma_number_prefix(digits, i - from + 1);
                }
            }
            return None;
        }
        value = value * 10 + d;
        i = i + 1;
    }
    proof {
        assert(digits.take(digits.len() as int) == digits);
    }
    Some(value)
}

/// The 64-bit number that `s` spells.
pub fn parse_u64(s: &str) -> (value: Option<u64>)
    ensures
        value == spelled_u64(s@),
{
    let chars = chars_of(s);
    if chars.len() > 0 && chars[0] == '+' {
        digits_from(&chars, 1)
    } else {
        proof {
            assert(s@.skip(0) == s@);
        }
        digits_from(&chars, 0)
    }
}

/// The signed 32-bit number that `s` spells.
pub fn parse_i32(s: &str) -> (value: Option<i32>)
    ensures
        value == spelled_i32(s@),
{
    let chars = chars_of(s);
    if chars.len() > 0 && chars[0] == '-' {
        match digits_from(&chars, 1) {
            Some(v) => if v <= 2147483648 {
                Some((-(v as i64)) as i32)
            } else {
                None
            },
            None => None,
        }
    } else {
        proof {
            assert(s@.skip(0) == s@);
        }
        let from: usize = if chars.len() > 0 && chars[0] == '+' {
            1
        } else {
            0
        };
        match digits_from(&chars, from) {
            Some(v) => if v <= 2147483647 {
                Some(v as i32)
            } else {
                None
            },
            None => None,
        }
    }
}

/// The decimal digits of `n`, most significant first.
pub open spec fn decimal(n: nat) -> Seq<char>
    decreases n,
{
    let last = "0123456789"@.subrange((n % 10) as int, (n % 10) as int + 1);
    if n < 10 {
        last
    } else {
        decimal(n / 10) + last
    }
}

/// `n` in decimal digits.
pub fn decimal_text(n: u64) -> (digits: String)
    ensures
        digits@ == decimal(n as nat),
    decreases n,
{
    proof {
        reveal_strlit("0123456789");
    }
    let d: usize = (n % 10) as usize;
    let last = "0123456789".substring_char(d, d + 1);
    if n < 10 {
        last.to_owned()
    } else {
        decimal_text(n / 10).concat(last)
    }
}

/// What is found is the first occurrence.
pub proof fn lemma_position_from(s: Seq<char>, p: Seq<char>, i: int, k: int)
    requires
        0 <= i <= k,
        occurs_at(s, p, k),
        forall|j: int| i <= j < k ==> !occurs_at(s, p, j),
    ensures
        position_from(s, p, i) == Some(k),
    decreases k - i,
{
    if i < k {
        lemma_position_from(s, p, i + 1, k);
    }
}

/// Nothing is found where nothing occurs.
pub proof fn lemma_position_none(s: Seq<char>, p: Seq<char>, i: int)
    requires
        0 <= i,
        forall|j: int| i <= j ==> !occurs_at(s, p, j),
    ensures
        position_from(s, p, i) is None,
    decreases s.len() + 1 - i,
{
    if i + p.len() <= s.len() {
        lemma_position_none(s, p, i + 1);
    }
}

/// What is found occurs, and nothing occurs before it.
pub proof fn lemma_position_found(s: Seq<char>, p: Seq<char>, i: int)
    requires
        0 <= i,
    ensures
        position_from(s, p, i) matches Some(k) ==> i <= k && occurs_at(s, p, k) && forall|j: int|
            i <= j < k ==> !occurs_at(s, p, j),
        position_from(s, p, i) is None ==> forall|j: int| i <= j ==> !occurs_at(s, p, j),
    decreases s.len() + 1 - i,
{
    if i + p.len() <= s.len() && !occurs_at(s, p, i) {
        lemma_position_found(s, p, i + 1);
    }
}

/// A text of one character occurs where that character stands.
pub proof fn lemma_occurs_char(s: Seq<char>, p: Seq<char>, i: int)
    requires
        p.len() == 1,
    ensures
        occurs_at(s, p, i) <==> 0 <= i < s.len() && s[i] == p[0],
{
    if 0 <= i < s.len() {
        assert(s.subrange(i, i + 1) =~= seq![s[i]]);
        assert(seq![s[i]][0] == s[i]);
        if s[i] == p[0] {
            assert(s.subrange(i, i + 1) =~= p);
        }
    }
}

/// Whether the character of the one-character text `p` stands nowhere in `s`.
pub open spec fn lacks(s: Seq<char>, p: Seq<char>) -> bool {
    forall|i: int| 0 <= i < s.len() ==> #[trigger] s[i] != p[0]
}

/// A text without the separator is its only piece.
pub proof fn lemma_pieces_single(s: Seq<char>, p: Seq<char>)
    requires
        p.len() == 1,
        lacks(s, p),
    ensures
        pieces(s, p) == seq![s],
{
    assert forall|j: int| 0 <= j implies !occurs_at(s, p, j) by {
        lemma_occurs_char(s, p, j);
    }
    lemma_position_none(s, p, 0);
}

/// What stands before the first separator is the first piece.
pub proof fn lemma_pieces_join(a: Seq<char>, p: Seq<char>, b: Seq<char>)
    requires
        p.len() == 1,
        lacks(a, p),
    ensures
        pieces(a + p + b, p) == seq![a] + pieces(b, p),
{
    let s = a + p + b;
    assert forall|j: int| 0 <= j < a.len() implies !occurs_at(s, p, j) by {
        lemma_occurs_char(s, p, j);
        assert(s[j] == a[j]);
    }
    lemma_occurs_char(s, p, a.len() as int);
    assert(s[a.len() as int] == p[0]);
    lemma_position_from(s, p, 0, a.len() as int);
    assert(s.take(a.len() as int) == a);
    assert(s.skip(a.len() as int + 1) == b);
}

/// What stands after the last separator is the last piece.
pub proof fn lemma_pieces_last(a: Seq<char>, p: Seq<char>, b: Seq<char>)
    requires
        p.len() == 1,
        lacks(b, p),
    ensures
        pieces(a + p + b, p).len() > 0,
        pieces(a + p + b, p).last() == b,
    decreases a.len(),
{
    lemma_position_found(a, p, 0);
    match position(a, p) {
        Some(k) => {
            let head = a.take(k);
            let rest = a.skip(k + 1);
            assert forall|j: int| 0 <= j < head.len() implies #[trigger] head[j] != p[0] by {
                lemma_occurs_char(a, p, j);
            }
            lemma_occurs_char(a, p, k);
            assert(a == head + p + rest);
            assert(a + p + b == head + p + (rest + p + b));
            lemma_pieces_join(head, p, rest + p + b);
            lemma_pieces_last(rest, p, b);
        },
        None => {
            assert forall|j: int| 0 <= j < a.len() implies #[trigger] a[j] != p[0] by {
                lemma_occurs_char(a, p, j);
            }
            lemma_pieces_join(a, p, b);
            lemma_pieces_single(b, p);
        },
    }
}

/// The number of pieces is at least one.
pub proof fn lemma_pieces_nonempty(s: Seq<char>, p: Seq<char>)
    ensures
        pieces(s, p).len() > 0,
{
}

/// Where `p` stands in `s` first, what is before it is the first piece, and the
/// rest is cut in the same way.
pub proof fn law_pieces_are_cut_at_separators(a: Seq<char>, p: Seq<char>, b: Seq<char>)
    requires
        p.len() > 0,
        forall|i: int|
            0 <= i < a.len() ==> #[trigger] (a + p + b).subrange(i, i + p.len()) != p,
    ensures
        pieces(a + p + b, p) == seq![a] + pieces(b, p),
{
    let s = a + p + b;
    assert forall|j: int| 0 <= j < a.len() implies !occurs_at(s, p, j) by {
        assert(s.subrange(j, j + p.len()) != p);
    }
    assert(s.subrange(a.len() as int, a.len() as int + p.len()) =~= p);
    lemma_position_from(s, p, 0, a.len() as int);
    assert(s.take(a.len() as int) =~= a);
    assert(s.skip(a.len() as int + p.len()) =~= b);
}

/// A text in which `p` does not stand is its only piece, and `p` is not found
/// in it; in a text that holds `p` it is found.
pub proof fn law_contained_is_found(a: Seq<char>, p: Seq<char>, b: Seq<char>, s: Seq<char>)
    ensures
        contains(a + p + b, p),
        position(a + p + b, p)->0 <= a.len(),
        (forall|i: int|
            0 <= i && i + p.len() <= s.len() ==> #[trigger] s.subrange(i, i + p.len()) != p)
            ==> !contains(s, p) && pieces(s, p) == seq![s],
{
    let t = a + p + b;
    assert(t.subrange(a.len() as int, a.len() as int + p.len()) =~= p);
    lemma_position_found(t, p, 0);
    assert(occurs_at(t, p, a.len() as int));
    lemma_position_found(s, p, 0);
}

/// What a text begins or ends with is what was put in front of it or behind it.
pub proof fn law_starts_and_ends(s: Seq<char>, p: Seq<char>)
    ensures
        starts(p + s, p),
        ends(s + p, p),
        starts(s, p) ==> s == p + s.skip(p.len() as int),
        ends(s, p) ==> s == s.take(s.len() - p.len()) + p,
{
    assert((p + s).take(p.len() as int) =~= p);
    assert((s + p).skip((s + p).len() - p.len()) =~= p);
    if starts(s, p) {
        assert(s =~= p + s.skip(p.len() as int));
    }
    if ends(s, p) {
        assert(s =~= s.take(s.len() - p.len()) + p);
    }
}

/// Copies of a text in front of another, or behind it, are taken away one after
/// the other, and nothing else is.
pub proof fn law_copies_are_taken_away(s: Seq<char>, p: Seq<char>)
    requires
        p.len() > 0,
    ensures
        without_prefixes(p + s, p) == without_prefixes(s, p),
        without_suffixes(s + p, p) == without_suffixes(s, p),
        !(p.len() <= s.len() && s.subrange(0, p.len() as int) == p) ==> without_prefixes(s, p)
            == s,
        !(p.len() <= s.len() && s.subrange(s.len() - p.len(), s.len() as int) == p)
            ==> without_suffixes(s, p) == s,
{
    law_starts_and_ends(s, p);
    assert((p + s).skip(p.len() as int) =~= s);
    assert((s + p).take((s + p).len() - p.len()) =~= s);
    if p.len() <= s.len() {
        assert(s.take(p.len() as int) =~= s.subrange(0, p.len() as int));
        assert(s.skip(s.len() - p.len()) =~= s.subrange(s.len() - p.len(), s.len() as int));
    }
}

/// White space around a text is trimmed off, and what is left begins and ends
/// with none.
pub proof fn law_white_space_is_trimmed(before: Seq<char>, s: Seq<char>, after: Seq<char>)
    requires
        forall|i: int| 0 <= i < before.len() ==> white_space(#[trigger] before[i]),
        forall|i: int| 0 <= i < after.len() ==> white_space(#[trigger] after[i]),
        s.len() > 0 ==> !white_space(s[0]) && !white_space(s.last()),
    ensures
        trimmed(before + s + after) == s,
    decreases before.len() + after.len(),
{
    let full = before + s + after;
    if before.len() > 0 {
        let rest = before.skip(1);
        assert(full[0] == before[0]);
        assert(full.skip(1) =~= rest + s + after);
        assert forall|i: int| 0 <= i < rest.len() implies white_space(#[trigger] rest[i]) by {
            assert(rest[i] == before[i + 1]);
        }
        law_white_space_is_trimmed(rest, s, after);
    } else if s.len() == 0 {
        assert(full =~= after);
        lemma_all_trimmed(after);
    } else {
        assert(full =~= s + after);
        assert(full[0] == s[0]);
        assert(trimmed_start(full) == full);
        lemma_end_trimmed(s, after);
    }
}

proof fn lemma_all_trimmed(s: Seq<char>)
    requires
        forall|i: int| 0 <= i < s.len() ==> white_space(#[trigger] s[i]),
    ensures
        trimmed_start(s).len() == 0,
        trimmed(s) == Seq::<char>::empty(),
    decreases s.len(),
{
    if s.len() > 0 {
        let rest = s.skip(1);
        assert forall|i: int| 0 <= i < rest.len() implies white_space(#[trigger] rest[i]) by {
            assert(rest[i] == s[i + 1]);
        }
        lemma_all_trimmed(rest);
    }
    assert(trimmed_start(s) =~= Seq::<char>::empty());
}

proof fn lemma_end_trimmed(s: Seq<char>, after: Seq<char>)
    requires
        s.len() > 0,
        !white_space(s.last()),
        forall|i: int| 0 <= i < after.len() ==> white_space(#[trigger] after[i]),
    ensures
        trimmed_end(s + after) == s,
    decreases after.len(),
{
    if after.len() > 0 {
        assert((s + after).last() == after.last());
        assert((s + after).drop_last() =~= s + after.drop_last());
        lemma_end_trimmed(s, after.drop_last());
    } else {
        assert(s + after =~= s);
    }
}

/// Of an ASCII text the letters from `A` to `Z` become those from `a` to `z`,
/// and all else stays.
pub proof fn law_ascii_is_lowercased(s: Seq<char>, i: int)
    requires
        forall|j: int| 0 <= j < s.len() ==> '\0' <= #[trigger] s[j] <= '\u{7f}',
        0 <= i < s.len(),
    ensures
        lowercased(s).len() == s.len(),
        65 <= s[i] as u32 <= 90 ==> lowercased(s)[i] as u32 == s[i] as u32 + 32,
        !(65 <= s[i] as u32 <= 90) ==> lowercased(s)[i] == s[i],
{
    let c: char = s[i];
}

/// Two texts are the same but for the case of ASCII letters exactly where they
/// are as long as each other, and two characters at one place are the same or the
/// two cases of one letter.
pub proof fn law_case_is_ignored(a: Seq<char>, b: Seq<char>)
    ensures
        same_ignoring_case(a, b) <==> a.len() == b.len() && forall|i: int|
            0 <= i < a.len() ==> {
                ||| #[trigger] a[i] == b[i]
                ||| 65 <= a[i] as u32 <= 90 && b[i] as u32 == a[i] as u32 + 32
                ||| 65 <= b[i] as u32 <= 90 && a[i] as u32 == b[i] as u32 + 32
            },
{
    if a.len() == b.len() {
        assert forall|i: int| 0 <= i < a.len() implies (ascii_lower(#[trigger] a[i]) == ascii_lower(
            b[i],
        ) <==> {
            ||| a[i] == b[i]
            ||| 65 <= a[i] as u32 <= 90 && b[i] as u32 == a[i] as u32 + 32
            ||| 65 <= b[i] as u32 <= 90 && a[i] as u32 == b[i] as u32 + 32
        }) by {
            let x: char = a[i];
            let y: char = b[i];
        }
    }
}

/// One more digit behind a number counts ten times the number and the digit.
pub proof fn law_digits_count_in_tens(s: Seq<char>, c: char, n: nat, d: nat)
    requires
        '0' <= c <= '9',
        d < 10,
    ensures
        number(s.push(c)) == 10 * number(s) + (c as u32 - 48),
        number(Seq::<char>::empty()) == 0,
        decimal(d) == seq![(48 + d) as char],
        n > 0 ==> decimal(10 * n + d) == decimal(n).push((48 + d) as char),
{
    reveal_strlit("0123456789");
    assert(s.push(c).drop_last() =~= s);
    assert("0123456789"@.subrange(d as int, d as int + 1) =~= seq![(48 + d) as char]);
    if n > 0 {
        assert((10 * n + d) / 10 == n);
        assert((10 * n + d) % 10 == d);
        assert(decimal(10 * n + d) =~= decimal(n).push((48 + d) as char));
    }
}

proof fn lemma_decimal_reads_back(n: nat)
    ensures
        all_digits(decimal(n)),
        number(decimal(n)) == n,
    decreases n,
{
    let d = n % 10;
    law_digits_count_in_tens(Seq::empty(), (48 + d) as char, n / 10, d);
    if n < 10 {
        assert(decimal(n) == seq![(48 + d) as char]);
        assert(decimal(n).drop_last() =~= Seq::<char>::empty());
    } else {
        lemma_decimal_reads_back(n / 10);
        let head = decimal(n / 10);
        assert(10 * (n / 10) + d == n);
        law_digits_count_in_tens(head, (48 + d) as char, n / 10, d);
        assert(decimal(n) == head.push((48 + d) as char));
        assert forall|i: int| 0 <= i < decimal(n).len() implies is_digit(
            #[trigger] decimal(n)[i],
        ) by {
            if i < head.len() {
                assert(decimal(n)[i] == head[i]);
            }
        }
    }
}

/// A number is read from its digits, perhaps with a sign in front, as far as it
/// fits; with a sign that the type does not have, it is not.
pub proof fn law_numbers_read_back(n: nat)
    ensures
        spelled_u64(decimal(n)) == (if n <= u64::MAX {
            Some(n as u64)
        } else {
            None
        }),
        spelled_u64("+"@ + decimal(n)) == spelled_u64(decimal(n)),
        spelled_u64("-"@ + decimal(n)) is None,
        spelled_i32(decimal(n)) == (if n <= i32::MAX {
            Some(n as i32)
        } else {
            None
        }),
        spelled_i32("+"@ + decimal(n)) == spelled_i32(decimal(n)),
        spelled_i32("-"@ + decimal(n)) == (if n <= 2147483648 {
            Some((-n) as i32)
        } else {
            None
        }),
{
    reveal_strlit("+");
    reveal_strlit("-");
    lemma_decimal_reads_back(n);
    let d = decimal(n);
    assert(is_digit(d[0]));
    assert(("+"@ + d).skip(1) =~= d);
    assert(("-"@ + d).skip(1) =~= d);
    assert(("+"@ + d)[0] == '+');
    assert(("-"@ + d)[0] == '-');
    assert(!all_digits("-"@ + d)) by {
        assert(!is_digit(("-"@ + d)[0]));
    }
}

/// A text that holds anything but digits behind its first character, or holds
/// no digit, spells no number.
pub proof fn law_other_texts_spell_no_number(s: Seq<char>, i: int)
    requires
        s.len() == 0 || (0 < i < s.len() && !('0' <= s[i] <= '9')) || (s.len() == 1 && !('0'
            <= s[0] <= '9')) || !('0' <= s[0] <= '9' || s[0] == '+' || s[0] == '-'),
    ensures
        spelled_u64(s) is None,
        spelled_i32(s) is None,
{
    if s.len() > 0 {
        if 0 < i < s.len() && !('0' <= s[i] <= '9') {
            assert(s.skip(1)[i - 1] == s[i]);
            assert(!is_digit(s.skip(1)[i - 1]));
            assert(!is_digit(s[i]));
        } else {
            assert(!is_digit(s[0]));
        }
    }
}

} // verus!
