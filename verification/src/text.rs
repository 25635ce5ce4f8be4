//! Character-level rules over `String` and `&str`: Unicode white space and
//! trimming, ASCII digits and case, decimal rendering and parsing.
use vstd::prelude::*;
use vstd::std_specs::iter::IteratorSpec;

verus! {

broadcast use vstd::string::group_string_axioms;

/// The `White_Space` property of Unicode, which `char::is_whitespace` tests.
pub open spec fn is_white_space(c: char) -> bool {
    let u = c as u32;
    ||| (0x9 <= u && u <= 0xd)
    ||| u == 0x20
    ||| u == 0x85
    ||| u == 0xa0
    ||| u == 0x1680
    ||| (0x2000 <= u && u <= 0x200a)
    ||| u == 0x2028
    ||| u == 0x2029
    ||| u == 0x202f
    ||| u == 0x205f
    ||| u == 0x3000
}

/// `s` without its leading white space.
pub open spec fn trim_start(s: Seq<char>) -> Seq<char>
    decreases s.len(),
{
    if s.len() > 0 && is_white_space(s[0]) {
        trim_start(s.drop_first())
    } else {
        s
    }
}

/// `s` without its trailing white space.
pub open spec fn trim_end(s: Seq<char>) -> Seq<char>
    decreases s.len(),
{
    if s.len() > 0 && is_white_space(s.last()) {
        trim_end(s.drop_last())
    } else {
        s
    }
}

/// `s` without leading and trailing white space (`str::trim`).
pub open spec fn trimmed(s: Seq<char>) -> Seq<char> {
    trim_end(trim_start(s))
}

/// True when `s` holds nothing but white space.
pub open spec fn is_blank(s: Seq<char>) -> bool {
    trimmed(s).len() == 0
}

pub open spec fn is_ascii_digit(c: char) -> bool {
    0x30 <= (c as u32) && (c as u32) <= 0x39
}

pub open spec fn all_ascii_digits(s: Seq<char>) -> bool {
    forall|i: int| 0 <= i < s.len() ==> #[trigger] is_ascii_digit(s[i])
}

/// A non-empty run of ASCII digits: the shape of a comic id.
pub open spec fn is_digit_id(s: Seq<char>) -> bool {
    s.len() > 0 && all_ascii_digits(s)
}

pub open spec fn digit_value(c: char) -> nat {
    ((c as u32) - 0x30) as nat
}

pub open spec fn digit_char(d: nat) -> char {
    (0x30 + d) as char
}

/// The number that a run of ASCII digits spells in base ten.
pub open spec fn digits_value(s: Seq<char>) -> nat
    decreases s.len(),
{
    if s.len() == 0 {
        0
    } else {
        digits_value(s.drop_last()) * 10 + digit_value(s.last())
    }
}

/// The base-ten rendering of `n`, with no leading zero.
pub open spec fn decimal(n: nat) -> Seq<char>
    decreases n,
{
    if n < 10 {
        seq![digit_char(n)]
    } else {
        decimal(n / 10).push(digit_char(n % 10))
    }
}

/// The rendering of a signed integer: `-` before the magnitude of a negative one.
pub open spec fn signed_decimal(v: int) -> Seq<char> {
    if v < 0 {
        seq!['-'] + decimal((-v) as nat)
    } else {
        decimal(v as nat)
    }
}

/// What `str::parse::<u32>` gives: an optional `+`, then one or more digits
/// whose value fits in 32 bits.
pub open spec fn parse_u32(s: Seq<char>) -> Option<u32> {
    let body = if s.len() > 0 && s[0] == '+' {
        s.drop_first()
    } else {
        s
    };
    if is_digit_id(body) && digits_value(body) <= u32::MAX {
        Some(digits_value(body) as u32)
    } else {
        None
    }
}

/// What `str::parse::<i64>` gives: an optional `+` or `-`, then one or more
/// digits whose signed value fits in 64 bits.
pub open spec fn parse_i64(s: Seq<char>) -> Option<i64> {
    if s.len() > 0 && s[0] == '-' {
        let body = s.drop_first();
        if is_digit_id(body) && digits_value(body) <= 0x8000_0000_0000_0000 {
            Some((-(digits_value(body) as int)) as i64)
        } else {
            None
        }
    } else {
        let body = if s.len() > 0 && s[0] == '+' {
            s.drop_first()
        } else {
            s
        };
        if is_digit_id(body) && digits_value(body) <= i64::MAX {
            Some(digits_value(body) as i64)
        } else {
            None
        }
    }
}

/// The code of `char::to_ascii_lowercase(c)`.
pub open spec fn ascii_lower_code(c: char) -> u32 {
    if 0x41 <= (c as u32) && (c as u32) <= 0x5a {
        ((c as u32) + 32) as u32
    } else {
        c as u32
    }
}

/// True when `s.to_ascii_lowercase()` equals `word`.
pub open spec fn lowercase_is(s: Seq<char>, word: Seq<char>) -> bool {
    &&& s.len() == word.len()
    &&& forall|i: int| 0 <= i < s.len() ==> ascii_lower_code(#[trigger] s[i]) == word[i] as u32
}

/// Collects the characters of `s`, in order.
pub fn chars_of(s: &str) -> (out: Vec<char>)
    ensures
        out@ == s@,
{
    let mut it = s.chars();
    let mut out: Vec<char> = Vec::new();
    loop
        invariant
            it.obeys_prophetic_iter_laws(),
            s@ == out@ + it.remaining(),
            it.decrease() is Some,
        decreases it.decrease()->0,
    {
        match it.next() {
            Some(c) => {
                out.push(c);
            },
            None => {
                assert(s@ == out@);
                return out;
            },
        }
    }
}

/// Appends one character to `s` (`String::push`).
#[verifier::external_body]
fn push_char(s: &mut String, c: char)
    ensures
        final(s)@ == old(s)@.push(c),
{
    s.push(c);
}

/// The string of the characters `chars[from..to]`.
pub fn string_from_chars(chars: &Vec<char>, from: usize, to: usize) -> (out: String)
    requires
        from <= to <= chars.len(),
    ensures
        out@ == chars@.subrange(from as int, to as int),
{
    let mut out = String::new();
    let mut i = from;
    while i < to
        invariant
            from <= i <= to <= chars.len(),
            out@ == chars@.subrange(from as int, i as int),
        decreases to - i,
    {
        push_char(&mut out, chars[i]);
        assert(chars@.subrange(from as int, i + 1) == chars@.subrange(from as int, i as int).push(
            chars@[i as int],
        ));
        i = i + 1;
    }
    out
}

pub fn is_white_space_char(c: char) -> (b: bool)
    ensures
        b == is_white_space(c),
{
    let u = c as u32;
    (0x9 <= u && u <= 0xd) || u == 0x20 || u == 0x85 || u == 0xa0 || u == 0x1680 || (0x2000 <= u
        && u <= 0x200a) || u == 0x2028 || u == 0x2029 || u == 0x202f || u == 0x205f || u == 0x3000
}

pub fn is_ascii_digit_char(c: char) -> (b: bool)
    ensures
        b == is_ascii_digit(c),
{
    let u = c as u32;
    0x30 <= u && u <= 0x39
}

proof fn lemma_trim_start_skips(s: Seq<char>, i: int)
    requires
        0 <= i <= s.len(),
        forall|k: int| 0 <= k < i ==> is_white_space(#[trigger] s[k]),
        i == s.len() || !is_white_space(s[i]),
    ensures
        trim_start(s) == s.subrange(i, s.len() as int),
    decreases i,
{
    if i == 0 {
        assert(s.subrange(0, s.len() as int) == s);
    } else {
        let t = s.drop_first();
        assert forall|k: int| 0 <= k < i - 1 implies is_white_space(#[trigger] t[k]) by {
            assert(t[k] == s[k + 1]);
        }
        if i - 1 < t.len() {
            assert(t[i - 1] == s[i]);
        }
        lemma_trim_start_skips(t, i - 1);
        assert(t.subrange(i - 1, t.len() as int) == s.subrange(i, s.len() as int));
    }
}

proof fn lemma_trim_end_skips(s: Seq<char>, j: int)
    requires
        0 <= j <= s.len(),
        forall|k: int| j <= k < s.len() ==> is_white_space(#[trigger] s[k]),
        j == 0 || !is_white_space(s[j - 1]),
    ensures
        trim_end(s) == s.subrange(0, j),
    decreases s.len() - j,
{
    if j == s.len() {
        assert(s.subrange(0, j) == s);
    } else {
        let t = s.drop_last();
        assert forall|k: int| j <= k < t.len() implies is_white_space(#[trigger] t[k]) by {
            assert(t[k] == s[k]);
        }
        if j > 0 {
            assert(t[j - 1] == s[j - 1]);
        }
        lemma_trim_end_skips(t, j);
        assert(t.subrange(0, j) == s.subrange(0, j));
    }
}

/// The bounds `[i, j)` of `str::trim` within `chars`.
fn trim_bounds(chars: &Vec<char>) -> (r: (usize, usize))
    ensures
        r.0 <= r.1 <= chars.len(),
        chars@.subrange(r.0 as int, r.1 as int) == trimmed(chars@),
{
    let n = chars.len();
    let mut i: usize = 0;
    while i < n && is_white_space_char(chars[i])
        invariant
            i <= n == chars.len(),
            forall|k: int| 0 <= k < i ==> is_white_space(#[trigger] chars@[k]),
        decreases n - i,
    {
        i = i + 1;
    }
    let mut j: usize = n;
    while j > i && is_white_space_char(chars[j - 1])
        invariant
            i <= j <= n == chars.len(),
            forall|k: int| j <= k < n ==> is_white_space(#[trigger] chars@[k]),
        decreases j,
    {
        j = j - 1;
    }
    proof {
        lemma_trim_start_skips(chars@, i as int);
        let rest = chars@.subrange(i as int, n as int);
        assert forall|k: int| j - i <= k < rest.len() implies is_white_space(#[trigger] rest[k]) by {
            assert(rest[k] == chars@[k + i]);
        }
        if j > i {
            assert(rest[j - i - 1] == chars@[j - 1]);
        }
        lemma_trim_end_skips(rest, j - i);
        assert(rest.subrange(0, j - i) == chars@.subrange(i as int, j as int));
    }
    (i, j)
}

/// `s.trim().to_string()`.
pub fn trim_string(s: &str) -> (out: String)
    ensures
        out@ == trimmed(s@),
{
    let chars = chars_of(s);
    let (i, j) = trim_bounds(&chars);
    string_from_chars(&chars, i, j)
}

/// True when `s.trim()` is empty.
pub fn is_blank_str(s: &str) -> (b: bool)
    ensures
        b == is_blank(s@),
{
    let chars = chars_of(s);
    let (i, j) = trim_bounds(&chars);
    i == j
}

/// True when `s` is a non-empty run of ASCII digits.
pub fn is_digit_id_str(s: &str) -> (b: bool)
    ensures
        b == is_digit_id(s@),
{
    let chars = chars_of(s);
    let n = chars.len();
    if n == 0 {
        return false;
    }
    let mut i: usize = 0;
    while i < n
        invariant
            i <= n == chars.len(),
            chars@ == s@,
            forall|k: int| 0 <= k < i ==> #[trigger] is_ascii_digit(chars@[k]),
        decreases n - i,
    {
        if !is_ascii_digit_char(chars[i]) {
            return false;
        }
        i = i + 1;
    }
    true
}

proof fn lemma_decimal_nonempty(n: nat)
    ensures
        decimal(n).len() >= 1,
    decreases n,
{
    if n >= 10 {
        lemma_decimal_nonempty(n / 10);
    }
}

/// The base-ten rendering of an unsigned integer (`u64::to_string`).
pub fn u64_to_decimal(n: u64) -> (out: String)
    ensures
        out@ == decimal(n as nat),
{
    let mut digits: Vec<char> = Vec::new();
    let mut m = n;
    while m >= 10
        invariant
            decimal(n as nat) == decimal(m as nat) + digits@,
        decreases m,
    {
        let d = m % 10;
        let c = char_of_digit(d);
        digits.insert(0, c);
        proof {
            assert(decimal(m as nat) == decimal((m / 10) as nat).push(digit_char((m % 10) as nat)));
            assert(decimal((m / 10) as nat).push(digit_char((m % 10) as nat)) + digits@.drop_first()
                == decimal((m / 10) as nat) + digits@);
        }
        m = m / 10;
    }
    let c = char_of_digit(m);
    digits.insert(0, c);
    assert(decimal(m as nat) == seq![c]);
    assert(decimal(n as nat) == digits@);
    string_from_chars(&digits, 0, digits.len())
}

fn char_of_digit(d: u64) -> (c: char)
    requires
        d < 10,
    ensures
        c == digit_char(d as nat),
{
    let c = if d == 0 {
        '0'
    } else if d == 1 {
        '1'
    } else if d == 2 {
        '2'
    } else if d == 3 {
        '3'
    } else if d == 4 {
        '4'
    } else if d == 5 {
        '5'
    } else if d == 6 {
        '6'
    } else if d == 7 {
        '7'
    } else if d == 8 {
        '8'
    } else {
        '9'
    };
    assert(c as u32 == 0x30 + d);
    c
}

/// The rendering of a signed integer (`i64::to_string`).
pub fn i64_to_decimal(v: i64) -> (out: String)
    ensures
        out@ == signed_decimal(v as int),
{
    if v < 0 {
        let magnitude: u64 = if v == i64::MIN {
            0x8000_0000_0000_0000u64
        } else {
            (-v) as u64
        };
        let digits = u64_to_decimal(magnitude);
        let mut out = String::new();
        push_char(&mut out, '-');
        let chars = chars_of(digits.as_str());
        let mut i: usize = 0;
        while i < chars.len()
            invariant
                i <= chars.len(),
                chars@ == decimal(magnitude as nat),
                out@ == seq!['-'] + chars@.subrange(0, i as int),
            decreases chars.len() - i,
        {
            push_char(&mut out, chars[i]);
            assert(chars@.subrange(0, i + 1) == chars@.subrange(0, i as int).push(chars@[i as int]));
            i = i + 1;
        }
        assert(chars@.subrange(0, chars.len() as int) == chars@);
        out
    } else {
        u64_to_decimal(v as u64)
    }
}

proof fn lemma_digits_value_push(s: Seq<char>, c: char)
    ensures
        digits_value(s.push(c)) == digits_value(s) * 10 + digit_value(c),
{
    assert(s.push(c).drop_last() == s);
}

/// Reads the digits of `chars[from..]` into a number no greater than `limit`,
/// or `None` when a character is not a digit, there is none, or the value
/// passes `limit`.
fn digits_up_to(chars: &Vec<char>, from: usize, limit: u128) -> (r: Option<u128>)
    requires
        from <= chars.len(),
        limit <= 0x1_0000_0000_0000_0000,
    ensures
        ({
            let body = chars@.subrange(from as int, chars.len() as int);
            match r {
                Some(v) => is_digit_id(body) && digits_value(body) <= limit && v == digits_value(
                    body,
                ),
                None => !(is_digit_id(body) && digits_value(body) <= limit),
            }
        }),
{
    let n = chars.len();
    let ghost body = chars@.subrange(from as int, n as int);
    if from == n {
        return None;
    }
    let mut value: u128 = 0;
    let mut i = from;
    while i < n
        invariant
            from <= i <= n == chars.len(),
            body == chars@.subrange(from as int, n as int),
            limit <= 0x1_0000_0000_0000_0000,
            all_ascii_digits(chars@.subrange(from as int, i as int)),
            value == digits_value(chars@.subrange(from as int, i as int)),
            value <= limit,
        decreases n - i,
    {
        let c = chars[i];
        if !is_ascii_digit_char(c) {
            assert(body[i - from] == c);
            return None;
        }
        let d = (c as u32 - 0x30) as u128;
        let next = value * 10 + d;
        proof {
            let pre = chars@.subrange(from as int, i as int);
            assert(chars@.subrange(from as int, i + 1) == pre.push(c));
            lemma_digits_value_push(pre, c);
        }
        if next > limit {
            proof {
                lemma_digits_prefix_bound(body, (i + 1 - from) as int);
                assert(body.subrange(0, i + 1 - from) == chars@.subrange(from as int, i + 1));
            }
            return None;
        }
        value = next;
        i = i + 1;
    }
    assert(chars@.subrange(from as int, i as int) == body);
    Some(value)
}

/// A prefix of a digit run never spells more than the whole run.
proof fn lemma_digits_prefix_bound(s: Seq<char>, k: int)
    requires
        0 <= k <= s.len(),
    ensures
        all_ascii_digits(s) ==> digits_value(s.subrange(0, k)) <= digits_value(s),
    decreases s.len() - k,
{
    if k < s.len() {
        lemma_digits_prefix_bound(s, k + 1);
        let p = s.subrange(0, k + 1);
        assert(p.drop_last() == s.subrange(0, k));
    } else {
        assert(s.subrange(0, k) == s);
    }
}

/// `s.parse::<u32>().ok()`.
pub fn parse_u32_str(s: &str) -> (r: Option<u32>)
    ensures
        r == parse_u32(s@),
{
    let chars = chars_of(s);
    let from: usize = if chars.len() > 0 && chars[0] == '+' {
        1
    } else {
        0
    };
    assert(chars@.subrange(from as int, chars.len() as int) == (if s@.len() > 0 && s@[0] == '+' {
        s@.drop_first()
    } else {
        s@
    }));
    match digits_up_to(&chars, from, 0xffff_ffff) {
        Some(v) => Some(v as u32),
        None => None,
    }
}

/// `s.parse::<i64>().ok()`.
pub fn parse_i64_str(s: &str) -> (r: Option<i64>)
    ensures
        r == parse_i64(s@),
{
    let chars = chars_of(s);
    if chars.len() > 0 && chars[0] == '-' {
        assert(chars@.subrange(1, chars.len() as int) == s@.drop_first());
        match digits_up_to(&chars, 1, 0x8000_0000_0000_0000) {
            Some(v) => {
                if v == 0x8000_0000_0000_0000 {
                    Some(i64::MIN)
                } else {
                    Some(-(v as i64))
                }
            },
            None => None,
        }
    } else {
        let from: usize = if chars.len() > 0 && chars[0] == '+' {
            1
        } else {
            0
        };
        assert(chars@.subrange(from as int, chars.len() as int) == (if s@.len() > 0 && s@[0]
            == '+' {
            s@.drop_first()
        } else {
            s@
        }));
        match digits_up_to(&chars, from, 0x7fff_ffff_ffff_ffff) {
            Some(v) => Some(v as i64),
            None => None,
        }
    }
}

/// True when `s.to_ascii_lowercase()` equals `word`.
pub fn lowercase_equals(s: &str, word: &str) -> (b: bool)
    ensures
        b == lowercase_is(s@, word@),
{
    let a = chars_of(s);
    let w = chars_of(word);
    if a.len() != w.len() {
        return false;
    }
    let mut i: usize = 0;
    while i < a.len()
        invariant
            i <= a.len() == w.len(),
            a@ == s@,
            w@ == word@,
            forall|k: int| 0 <= k < i ==> ascii_lower_code(#[trigger] a@[k]) == w@[k] as u32,
        decreases a.len() - i,
    {
        let u = a[i] as u32;
        let lower = if 0x41 <= u && u <= 0x5a {
            u + 32
        } else {
            u
        };
        if lower != w[i] as u32 {
            return false;
        }
        i = i + 1;
    }
    true
}

} // verus!

verus! {

/// The views of a list of strings.
pub open spec fn texts(v: Seq<String>) -> Seq<Seq<char>> {
    v.map_values(|s: String| s@)
}

/// True when some string of `list` equals `s`.
pub fn strings_contain(list: &Vec<String>, s: &String) -> (b: bool)
    ensures
        b == texts(list@).contains(s@),
{
    let mut i: usize = 0;
    while i < list.len()
        invariant
            i <= list.len(),
            forall|k: int| 0 <= k < i ==> list@[k]@ != s@,
        decreases list.len() - i,
    {
        if list[i] == *s {
            assert(texts(list@)[i as int] == s@);
            return true;
        }
        i = i + 1;
    }
    assert forall|k: int| 0 <= k < texts(list@).len() implies texts(list@)[k] != s@ by {
        assert(texts(list@)[k] == list@[k]@);
    }
    false
}

/// A copy of a list of strings.
pub fn clone_strings(list: &Vec<String>) -> (out: Vec<String>)
    ensures
        out@ == list@,
{
    let mut out: Vec<String> = Vec::new();
    let mut i: usize = 0;
    while i < list.len()
        invariant
            i <= list.len(),
            out@ == list@.take(i as int),
        decreases list.len() - i,
    {
        out.push(list[i].clone());
        assert(list@.take(i + 1) == list@.take(i as int).push(list@[i as int]));
        i = i + 1;
    }
    assert(list@.take(list.len() as int) == list@);
    out
}

} // verus!

verus! {

/// The view of an optional string.
pub open spec fn opt_text(o: Option<String>) -> Option<Seq<char>> {
    match o {
        Some(s) => Some(s@),
        None => None,
    }
}

/// A copy of an optional string.
pub fn clone_opt_string(o: &Option<String>) -> (r: Option<String>)
    ensures
        r == *o,
{
    match o {
        Some(s) => Some(s.clone()),
        None => None,
    }
}

/// True when two optional strings are both absent or both hold the same text.
pub fn opt_strings_equal(a: &Option<String>, b: &Option<String>) -> (r: bool)
    ensures
        r == (opt_text(*a) == opt_text(*b)),
{
    match (a, b) {
        (Some(x), Some(y)) => *x == *y,
        (None, None) => true,
        _ => false,
    }
}

/// An owned copy of `s`.
pub fn owned(s: &str) -> (r: String)
    ensures
        r@ == s@,
{
    String::from_str(s)
}

} // verus!

verus! {

/// True when `a` and `b` hold the same text.
pub fn str_equals(a: &str, b: &str) -> (r: bool)
    ensures
        r == (a@ == b@),
{
    let x = chars_of(a);
    let y = chars_of(b);
    if x.len() != y.len() {
        return false;
    }
    let mut i: usize = 0;
    while i < x.len()
        invariant
            i <= x.len() == y.len(),
            x@ == a@,
            y@ == b@,
            forall|k: int| 0 <= k < i ==> x@[k] == y@[k],
        decreases x.len() - i,
    {
        if x[i] != y[i] {
            return false;
        }
        i = i + 1;
    }
    assert(x@ =~= y@);
    true
}

} // verus!

verus! {

proof fn lemma_trim_start_first(s: Seq<char>)
    ensures
        trim_start(s).len() == 0 || !is_white_space(trim_start(s)[0]),
        trim_start(s).len() <= s.len(),
    decreases s.len(),
{
    if s.len() > 0 && is_white_space(s[0]) {
        lemma_trim_start_first(s.drop_first());
    }
}

proof fn lemma_trim_end_shape(s: Seq<char>)
    ensures
        trim_end(s).len() <= s.len(),
        trim_end(s) == s.subrange(0, trim_end(s).len() as int),
        trim_end(s).len() == 0 || !is_white_space(trim_end(s).last()),
    decreases s.len(),
{
    if s.len() > 0 && is_white_space(s.last()) {
        lemma_trim_end_shape(s.drop_last());
        let t = trim_end(s.drop_last());
        assert(s.drop_last().subrange(0, t.len() as int) == s.subrange(0, t.len() as int));
    } else {
        assert(s.subrange(0, s.len() as int) == s);
    }
}

proof fn lemma_trim_start_cut(s: Seq<char>)
    ensures
        trim_start(s).len() <= s.len(),
        trim_start(s) == s.subrange(s.len() - trim_start(s).len(), s.len() as int),
        forall|k: int| 0 <= k < s.len() - trim_start(s).len() ==> is_white_space(#[trigger] s[k]),
    decreases s.len(),
{
    if s.len() > 0 && is_white_space(s[0]) {
        let t = s.drop_first();
        lemma_trim_start_cut(t);
        let n = trim_start(t).len();
        assert(t.subrange(t.len() - n, t.len() as int) == s.subrange(s.len() - n, s.len() as int));
        assert forall|k: int| 0 <= k < s.len() - n implies is_white_space(#[trigger] s[k]) by {
            if k > 0 {
                assert(s[k] == t[k - 1]);
            }
        }
    } else {
        assert(s.subrange(0, s.len() as int) == s);
    }
}

proof fn lemma_trim_end_cut(s: Seq<char>)
    ensures
        forall|k: int| trim_end(s).len() <= k < s.len() ==> is_white_space(#[trigger] s[k]),
    decreases s.len(),
{
    if s.len() > 0 && is_white_space(s.last()) {
        let t = s.drop_last();
        lemma_trim_end_cut(t);
        assert forall|k: int| trim_end(s).len() <= k < s.len() implies is_white_space(
            #[trigger] s[k],
        ) by {
            if k < t.len() {
                assert(s[k] == t[k]);
            }
        }
    }
}

/// Trimming cuts white space, and only white space, off both ends: the
/// trimmed text is a contiguous part of `s`, everything before and after it
/// is white space, and it neither starts nor ends with white space.
pub proof fn lemma_trimmed_is_the_core(s: Seq<char>)
    ensures
        exists|i: int, j: int|
            {
                &&& 0 <= i <= j <= s.len()
                &&& #[trigger] s.subrange(i, j) == trimmed(s)
                &&& forall|k: int| 0 <= k < i ==> is_white_space(#[trigger] s[k])
                &&& forall|k: int| j <= k < s.len() ==> is_white_space(#[trigger] s[k])
            },
        trimmed(s).len() == 0 || (!is_white_space(trimmed(s)[0]) && !is_white_space(
            trimmed(s).last(),
        )),
{
    lemma_trim_idempotent(s);
    let a = trim_start(s);
    lemma_trim_start_cut(s);
    lemma_trim_end_shape(a);
    lemma_trim_end_cut(a);
    let i = s.len() - a.len();
    let j = i + trim_end(a).len();
    assert(s.subrange(i, j) == a.subrange(0, trim_end(a).len() as int));
    assert forall|k: int| j <= k < s.len() implies is_white_space(#[trigger] s[k]) by {
        assert(s[k] == a[k - i]);
    }
    assert(s.subrange(i, j) == trimmed(s));
}

/// A number's decimal rendering is a run of digits, with no leading zero,
/// that spells the number; so `parse::<u32>` and `parse::<i64>` read a
/// rendering back as the number it renders.
pub proof fn lemma_decimal_reads_back(n: nat, v: int)
    ensures
        is_digit_id(decimal(n)),
        digits_value(decimal(n)) == n,
        decimal(n).len() > 1 ==> decimal(n)[0] != '0',
        n <= u32::MAX ==> parse_u32(decimal(n)) == Some(n as u32),
        i64::MIN <= v <= i64::MAX ==> parse_i64(signed_decimal(v)) == Some(v as i64),
    decreases n,
{
    lemma_decimal_digits(n);
    lemma_decimal_digits((if v < 0 {
        -v
    } else {
        v
    }) as nat);
    if v < 0 {
        let d = decimal((-v) as nat);
        assert((seq!['-'] + d).drop_first() == d);
        assert((seq!['-'] + d)[0] == '-');
    } else {
        let d = decimal(v as nat);
        assert(d[0] != '-') by {
            assert(is_ascii_digit(d[0]));
        }
    }
    if n <= u32::MAX {
        let d = decimal(n);
        assert(d[0] != '+') by {
            assert(is_ascii_digit(d[0]));
        }
    }
}

proof fn lemma_decimal_digits(n: nat)
    ensures
        is_digit_id(decimal(n)),
        digits_value(decimal(n)) == n,
        decimal(n).len() > 1 ==> decimal(n)[0] != '0',
    decreases n,
{
    if n < 10 {
        assert(is_ascii_digit(decimal(n)[0]));
        assert(decimal(n).drop_last() =~= Seq::<char>::empty());
        let d = decimal(n);
        assert(d.last() == digit_char(n));
        assert(digit_value(digit_char(n)) == n);
        assert(digits_value(d.drop_last()) == 0);
        assert(digits_value(d) == n);
    } else {
        lemma_decimal_digits(n / 10);
        let p = decimal(n / 10);
        let c = digit_char(n % 10);
        lemma_digits_value_push(p, c);
        assert(decimal(n) == p.push(c));
        assert(digit_value(c) == n % 10);
        assert((n / 10) * 10 + n % 10 == n);
        assert(digits_value(decimal(n)) == n);
        assert forall|i: int| 0 <= i < decimal(n).len() implies #[trigger] is_ascii_digit(
            decimal(n)[i],
        ) by {
            if i < p.len() {
                assert(decimal(n)[i] == p[i]);
            }
        }
        assert(decimal(n)[0] == p[0]);
        if n / 10 < 10 {
            assert(p == seq![digit_char(n / 10)]);
            assert(n / 10 >= 1);
            assert((p[0] as u32) == 0x30 + n / 10);
        } else {
            lemma_decimal_nonempty(n / 10 / 10);
            assert(p.len() > 1);
        }
    }
}

/// Trimming twice trims no more than trimming once: a trimmed text neither
/// starts nor ends with white space.
pub proof fn lemma_trim_idempotent(s: Seq<char>)
    ensures
        trimmed(trimmed(s)) == trimmed(s),
        trimmed(s).len() == 0 || (!is_white_space(trimmed(s)[0]) && !is_white_space(
            trimmed(s).last(),
        )),
{
    let a = trim_start(s);
    lemma_trim_start_first(s);
    lemma_trim_end_shape(a);
    let t = trim_end(a);
    if t.len() > 0 {
        assert(t[0] == a[0]);
        assert(trim_start(t) == t);
        lemma_trim_end_shape(t);
        assert(trim_end(t) == t);
    }
}

} // verus!
