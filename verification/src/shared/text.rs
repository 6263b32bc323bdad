use vstd::prelude::*;

verus! {

broadcast use vstd::string::group_string_axioms;

// ------------------------------------------------------------
// Comparing and reading strings
// ------------------------------------------------------------

/// Whether two string slices hold the same characters.
pub fn str_eq(a: &str, b: &str) -> (r: bool)
    ensures
        r == (a@ == b@),
{
    let x = a.to_owned();
    let y = b.to_owned();
    x == y
}

/// Whether an optional string slice is present and equal to `b`.
pub fn opt_str_eq(a: Option<&str>, b: &str) -> (r: bool)
    ensures
        r == (a matches Some(x) && x@ == b@),
{
    match a {
        Some(x) => str_eq(x, b),
        None => false,
    }
}

/// The characters of an optional string slice.
pub open spec fn opt_view(s: Option<&str>) -> Option<Seq<char>> {
    match s {
        Some(x) => Some(x@),
        None => None,
    }
}

/// The characters of `s`, in order.
pub fn char_vec(s: &str) -> (v: Vec<char>)
    ensures
        v@ == s@,
{
    let mut v: Vec<char> = Vec::new();
    for c in it: s.chars()
        invariant
            v@ == it.seq().take(it.index() as int),
            it.seq() == s@,
    {
        v.push(c);
    }
    v
}

/// Appends one character to a `String` (std's `String::push`).
#[verifier::external_body]
fn push_char(s: &mut String, c: char)
    ensures
        final(s)@ == old(s)@.push(c),
{
    s.push(c);
}

/// A new `String` holding the characters `v[from..to]`.
pub fn string_from_chars(v: &Vec<char>, from: usize, to: usize) -> (s: String)
    requires
        from <= to <= v.len(),
    ensures
        s@ == v@.subrange(from as int, to as int),
{
    let mut s = String::new();
    let mut i = from;
    while i < to
        invariant
            from <= i <= to <= v.len(),
            s@ == v@.subrange(from as int, i as int),
        decreases to - i,
    {
        push_char(&mut s, v[i]);
        assert(v@.subrange(from as int, i + 1) =~= v@.subrange(from as int, i as int).push(v@[i as int]));
        i = i + 1;
    }
    s
}

/// A new `String` holding the characters of `s` followed by those of `t`.
pub fn concat(s: &str, t: &str) -> (r: String)
    ensures
        r@ == s@ + t@,
{
    let mut r = String::new();
    r.append(s);
    r.append(t);
    r
}

/// `s` between two double quotes.
pub fn quote(s: &str) -> (r: String)
    ensures
        r@ == seq!['"'] + s@ + seq!['"'],
{
    let mut r = String::new();
    push_char(&mut r, '"');
    r.append(s);
    push_char(&mut r, '"');
    r
}

// ------------------------------------------------------------
// Prefixes
// ------------------------------------------------------------

/// Whether `s` begins with `prefix`.
pub fn starts_with(s: &str, prefix: &str) -> (r: bool)
    ensures
        r == prefix@.is_prefix_of(s@),
{
    let sv = char_vec(s);
    let pv = char_vec(prefix);
    if pv.len() > sv.len() {
        return false;
    }
    let mut i: usize = 0;
    while i < pv.len()
        invariant
            pv@ == prefix@,
            sv@ == s@,
            pv.len() <= sv.len(),
            i <= pv.len(),
            forall|j: int| 0 <= j < i ==> pv@[j] == sv@[j],
        decreases pv.len() - i,
    {
        if pv[i] != sv[i] {
            return false;
        }
        i = i + 1;
    }
    assert(prefix@ =~= s@.subrange(0, prefix@.len() as int));
    true
}

/// `s` without its leading `prefix`, or `None` when `s` does not begin with it.
pub fn strip_prefix(s: &str, prefix: &str) -> (r: Option<String>)
    ensures
        r is Some == prefix@.is_prefix_of(s@),
        r matches Some(rest) ==> rest@ == s@.skip(prefix@.len() as int),
{
    if starts_with(s, prefix) {
        let sv = char_vec(s);
        let n = prefix.unicode_len();
        Some(string_from_chars(&sv, n, sv.len()))
    } else {
        None
    }
}

// ------------------------------------------------------------
// Replacing a character
// ------------------------------------------------------------

/// `s` with every occurrence of the character `c` replaced by `with`
/// (what `str::replace` computes for a character pattern).
pub open spec fn replace_char(s: Seq<char>, c: char, with: Seq<char>) -> Seq<char>
    decreases s.len(),
{
    if s.len() == 0 {
        Seq::empty()
    } else {
        replace_char(s.drop_last(), c, with) + if s.last() == c {
            with
        } else {
            seq![s.last()]
        }
    }
}

/// Replaces every occurrence of the character `c` in `s` by `with`.
pub fn replace_char_exec(s: &str, c: char, with: &str) -> (r: String)
    ensures
        r@ == replace_char(s@, c, with@),
{
    let v = char_vec(s);
    let mut r = String::new();
    let mut i: usize = 0;
    while i < v.len()
        invariant
            v@ == s@,
            i <= v.len(),
            r@ == replace_char(v@.take(i as int), c, with@),
        decreases v.len() - i,
    {
        let ch = v[i];
        if ch == c {
            r.append(with);
        } else {
            push_char(&mut r, ch);
        }
        assert(v@.take(i + 1).drop_last() =~= v@.take(i as int));
        i = i + 1;
    }
    assert(v@.take(v.len() as int) =~= v@);
    r
}

// ------------------------------------------------------------
// Character classes
// ------------------------------------------------------------

/// An ASCII decimal digit.
pub open spec fn is_digit(c: char) -> bool {
    '0' <= c && c <= '9'
}

/// An ASCII letter.
pub open spec fn is_ascii_letter(c: char) -> bool {
    ('a' <= c && c <= 'z') || ('A' <= c && c <= 'Z')
}

/// Every character of `s` is an ASCII decimal digit.
pub open spec fn all_digits(s: Seq<char>) -> bool {
    forall|i: int| 0 <= i < s.len() ==> is_digit(#[trigger] s[i])
}

pub fn is_digit_exec(c: char) -> (r: bool)
    ensures
        r == is_digit(c),
{
    '0' <= c && c <= '9'
}

pub fn is_ascii_letter_exec(c: char) -> (r: bool)
    ensures
        r == is_ascii_letter(c),
{
    ('a' <= c && c <= 'z') || ('A' <= c && c <= 'Z')
}

/// Whether every character of `s` is an ASCII decimal digit (true of the empty string).
pub fn all_digits_exec(s: &str) -> (r: bool)
    ensures
        r == all_digits(s@),
{
    let v = char_vec(s);
    let mut i: usize = 0;
    while i < v.len()
        invariant
            v@ == s@,
            i <= v.len(),
            forall|j: int| 0 <= j < i ==> is_digit(#[trigger] v@[j]),
        decreases v.len() - i,
    {
        if !is_digit_exec(v[i]) {
            return false;
        }
        i = i + 1;
    }
    true
}

/// The characters Unicode marks `White_Space`, which `str::trim` removes.
pub open spec fn is_white_space(c: char) -> bool {
    ||| ('\u{9}' <= c && c <= '\u{d}')
    ||| c == ' '
    ||| c == '\u{85}'
    ||| c == '\u{a0}'
    ||| c == '\u{1680}'
    ||| ('\u{2000}' <= c && c <= '\u{200a}')
    ||| c == '\u{2028}'
    ||| c == '\u{2029}'
    ||| c == '\u{202f}'
    ||| c == '\u{205f}'
    ||| c == '\u{3000}'
}

pub fn is_white_space_exec(c: char) -> (r: bool)
    ensures
        r == is_white_space(c),
{
    ('\u{9}' <= c && c <= '\u{d}') || c == ' ' || c == '\u{85}' || c == '\u{a0}' || c
        == '\u{1680}' || ('\u{2000}' <= c && c <= '\u{200a}') || c == '\u{2028}' || c
        == '\u{2029}' || c == '\u{202f}' || c == '\u{205f}' || c == '\u{3000}'
}

// ------------------------------------------------------------
// Trimming
// ------------------------------------------------------------

/// `s` without its leading white space.
pub open spec fn trim_start(s: Seq<char>) -> Seq<char>
    decreases s.len(),
{
    if s.len() > 0 && is_white_space(s[0]) {
        trim_start(s.drop_first())
    } else {
        s
    }
}

/// `s` without its trailing white space.
pub open spec fn trim_end(s: Seq<char>) -> Seq<char>
    decreases s.len(),
{
    if s.len() > 0 && is_white_space(s.last()) {
        trim_end(s.drop_last())
    } else {
        s
    }
}

/// `s` without leading and trailing white space (what `str::trim` returns).
pub open spec fn trimmed(s: Seq<char>) -> Seq<char> {
    trim_end(trim_start(s))
}

/// `s` without leading and trailing white space.
pub fn trim(s: &str) -> (r: String)
    ensures
        r@ == trimmed(s@),
{
    let v = char_vec(s);
    let n = v.len();
    let mut i: usize = 0;
    assert(v@.subrange(0, n as int) =~= s@);
    while i < n && is_white_space_exec(v[i])
        invariant
            v@ == s@,
            n == v.len(),
            i <= n,
            trim_start(s@) == trim_start(v@.subrange(i as int, n as int)),
        decreases n - i,
    {
        assert(v@.subrange(i as int, n as int).drop_first() =~= v@.subrange(i + 1, n as int));
        i = i + 1;
    }
    assert(trim_start(s@) == v@.subrange(i as int, n as int));
    let mut j: usize = n;
    while j > i && is_white_space_exec(v[j - 1])
        invariant
            v@ == s@,
            n == v.len(),
            i <= j <= n,
            trimmed(s@) == trim_end(v@.subrange(i as int, j as int)),
        decreases j - i,
    {
        assert(v@.subrange(i as int, j as int).drop_last() =~= v@.subrange(i as int, j - 1));
        j = j - 1;
    }
    string_from_chars(&v, i, j)
}

// ------------------------------------------------------------
// Decimal numbers
// ------------------------------------------------------------

/// The ASCII digit for `d`, where `d < 10`.
pub open spec fn digit_char(d: nat) -> char {
    (d + 48) as char
}

/// The decimal notation of `n`, without sign or leading zeros (what `to_string` gives).
pub open spec fn decimal(n: nat) -> Seq<char>
    decreases n,
{
    if n < 10 {
        seq![digit_char(n)]
    } else {
        decimal(n / 10).push(digit_char(n % 10))
    }
}

/// The decimal notation of a signed integer (what `to_string` gives).
pub open spec fn signed_decimal(n: int) -> Seq<char> {
    if n < 0 {
        seq!['-'] + decimal((-n) as nat)
    } else {
        decimal(n as nat)
    }
}

fn digit_char_exec(d: u32) -> (c: char)
    requires
        d < 10,
    ensures
        c == digit_char(d as nat),
{
    let b: u8 = d as u8;
    (b + 48) as char
}

fn push_decimal(out: &mut String, n: u32)
    ensures
        final(out)@ == old(out)@ + decimal(n as nat),
    decreases n,
{
    if n >= 10 {
        push_decimal(out, n / 10);
    }
    push_char(out, digit_char_exec(n % 10));
}

/// The decimal notation of `n`.
pub fn u32_to_decimal(n: u32) -> (s: String)
    ensures
        s@ == decimal(n as nat),
{
    let mut s = String::new();
    push_decimal(&mut s, n);
    s
}

/// The decimal notation of `n`, with a leading `-` when negative.
pub fn i32_to_decimal(n: i32) -> (s: String)
    ensures
        s@ == signed_decimal(n as int),
{
    let mut s = String::new();
    if n < 0 {
        push_char(&mut s, '-');
        let wide: i64 = n as i64;
        let magnitude: u32 = (0 - wide) as u32;
        push_decimal(&mut s, magnitude);
    } else {
        push_decimal(&mut s, n as u32);
    }
    s
}

/// The value of a string of ASCII digits, read in base ten.
pub open spec fn digits_value(s: Seq<char>) -> nat
    decreases s.len(),
{
    if s.len() == 0 {
        0
    } else {
        digits_value(s.drop_last()) * 10 + (s.last() as int - 48) as nat
    }
}

/// The digits that `str::parse` reads for an unsigned type: `s` without one leading `+`.
pub open spec fn unsigned_digits(s: Seq<char>) -> Seq<char> {
    if s.len() > 0 && s[0] == '+' {
        s.drop_first()
    } else {
        s
    }
}

/// What `str::parse` gives for an unsigned integer type whose largest value is `max`:
/// an optional `+` followed by at least one ASCII digit and nothing else, of value at most `max`.
pub open spec fn parse_unsigned(s: Seq<char>, max: nat) -> Option<nat> {
    let d = unsigned_digits(s);
    if d.len() > 0 && all_digits(d) && digits_value(d) <= max {
        Some(digits_value(d))
    } else {
        None
    }
}

/// What `str::parse` gives for a signed integer type with range `[min, max]`:
/// an optional `+` or `-` followed by at least one ASCII digit and nothing else, within range.
pub open spec fn parse_signed(s: Seq<char>, min: int, max: int) -> Option<int> {
    if s.len() > 0 && s[0] == '-' {
        let d = s.drop_first();
        if d.len() > 0 && all_digits(d) && -(digits_value(d) as int) >= min {
            Some(-(digits_value(d) as int))
        } else {
            None
        }
    } else {
        let d = unsigned_digits(s);
        if d.len() > 0 && all_digits(d) && digits_value(d) <= max {
            Some(digits_value(d) as int)
        } else {
            None
        }
    }
}

proof fn lemma_digits_value_prefix(s: Seq<char>, k: int)
    requires
        0 <= k <= s.len(),
    ensures
        digits_value(s.take(k)) <= digits_value(s),
    decreases s.len() - k,
{
    if k < s.len() {
        lemma_digits_value_prefix(s, k + 1);
        assert(s.take(k + 1).drop_last() =~= s.take(k));
    } else {
        assert(s.take(k) =~= s);
    }
}

/// Reads `v[from..]` as a string of ASCII digits of value at most `max`.
fn digits_in_range(v: &Vec<char>, from: usize, max: u64) -> (r: Option<u64>)
    requires
        from <= v.len(),
    ensures
        ({
            let d = v@.skip(from as int);
            match r {
                Some(x) => all_digits(d) && digits_value(d) <= max && x == digits_value(d),
                None => !(all_digits(d) && digits_value(d) <= max),
            }
        }),
{
    let ghost d = v@.skip(from as int);
    let mut acc: u128 = 0;
    let mut i: usize = from;
    while i < v.len()
        invariant
            from <= i <= v.len(),
            d == v@.skip(from as int),
            all_digits(d.take(i - from)),
            acc == digits_value(d.take(i - from)),
            acc <= max,
        decreases v.len() - i,
    {
        let c = v[i];
        if !is_digit_exec(c) {
            assert(d[i - from] == c);
            return None;
        }
        let digit: u32 = (c as u32) - 48;
        let next: u128 = acc * 10 + (digit as u128);
        assert(d.take(i - from + 1).drop_last() =~= d.take(i - from));
        assert(d.take(i - from + 1).last() == c);
        if next > (max as u128) {
            proof {
                lemma_digits_value_prefix(d, i - from + 1);
            }
            return None;
        }
        acc = next;
        i = i + 1;
    }
    assert(d.take(i - from) =~= d);
    Some(acc as u64)
}

/// Reads an unsigned integer as `str::parse::<u32>` does.
pub fn parse_u32(s: &str) -> (r: Option<u32>)
    ensures
        match parse_unsigned(s@, u32::MAX as nat) {
            Some(x) => r == Some(x as u32),
            None => r is None,
        },
{
    match parse_u64_bounded(s, 0xffff_ffff) {
        Some(x) => Some(x as u32),
        None => None,
    }
}

/// Reads an unsigned integer as `str::parse::<u64>` does.
pub fn parse_u64(s: &str) -> (r: Option<u64>)
    ensures
        match parse_unsigned(s@, u64::MAX as nat) {
            Some(x) => r == Some(x as u64),
            None => r is None,
        },
{
    parse_u64_bounded(s, 0xffff_ffff_ffff_ffff)
}

fn parse_u64_bounded(s: &str, max: u64) -> (r: Option<u64>)
    ensures
        match parse_unsigned(s@, max as nat) {
            Some(x) => r == Some(x as u64),
            None => r is None,
        },
{
    let v = char_vec(s);
    let from: usize = if v.len() > 0 && v[0] == '+' {
        1
    } else {
        0
    };
    assert(unsigned_digits(s@) =~= v@.skip(from as int));
    if from >= v.len() {
        return None;
    }
    digits_in_range(&v, from, max)
}

/// Reads a signed integer as `str::parse::<i64>` does.
pub fn parse_i64(s: &str) -> (r: Option<i64>)
    ensures
        match parse_signed(s@, i64::MIN as int, i64::MAX as int) {
            Some(x) => r == Some(x as i64),
            None => r is None,
        },
{
    let v = char_vec(s);
    if v.len() > 0 && v[0] == '-' {
        assert(s@.drop_first() =~= v@.skip(1));
        if v.len() == 1 {
            return None;
        }
        match digits_in_range(&v, 1, 0x8000_0000_0000_0000) {
            Some(x) => {
                let wide: i128 = 0 - (x as i128);
                Some(wide as i64)
            },
            None => None,
        }
    } else {
        match parse_u64_bounded(s, 0x7fff_ffff_ffff_ffff) {
            Some(x) => Some(x as i64),
            None => None,
        }
    }
}

// ------------------------------------------------------------
// The last component of a path
// ------------------------------------------------------------

/// The index of the last `/` in `p`, or -1 when there is none.
pub open spec fn last_slash(p: Seq<char>) -> int
    decreases p.len(),
{
    if p.len() == 0 {
        -1
    } else if p.last() == '/' {
        p.len() - 1
    } else {
        last_slash(p.drop_last())
    }
}

proof fn lemma_last_slash_bounds(p: Seq<char>)
    ensures
        -1 <= last_slash(p) < p.len(),
        last_slash(p) >= 0 ==> p[last_slash(p)] == '/',
    decreases p.len(),
{
    if p.len() > 0 && p.last() != '/' {
        lemma_last_slash_bounds(p.drop_last());
    }
}

/// The final named component of the path `p`, with `/` as separator, as
/// `Path::file_name` gives it on Unix: trailing separators and `.` components are
/// skipped; there is none when what is left ends in `..` or holds no component.
pub open spec fn file_name_of(p: Seq<char>) -> Option<Seq<char>>
    decreases p.len(),
{
    let k = last_slash(p);
    let seg = p.subrange(k + 1, p.len() as int);
    if seg.len() == 0 || seg == seq!['.'] {
        if k < 0 || !(0 <= k < p.len()) {
            None
        } else {
            file_name_of(p.subrange(0, k))
        }
    } else if seg == seq!['.', '.'] {
        None
    } else {
        Some(seg)
    }
}

/// The final named component of the path `p` (see `file_name_of`).
pub fn file_name(p: &str) -> (r: Option<String>)
    ensures
        match file_name_of(p@) {
            Some(n) => r matches Some(s) && s@ == n,
            None => r is None,
        },
{
    let v = char_vec(p);
    let mut end: usize = v.len();
    assert(v@.subrange(0, end as int) =~= p@);
    loop
        invariant
            v@ == p@,
            end <= v.len(),
            file_name_of(p@) == file_name_of(v@.subrange(0, end as int)),
        decreases end,
    {
        let ghost q = v@.subrange(0, end as int);
        let mut j: usize = end;
        while j > 0 && v[j - 1] != '/'
            invariant
                v@ == p@,
                j <= end <= v.len(),
                q == v@.subrange(0, end as int),
                last_slash(q) == last_slash(v@.subrange(0, j as int)),
            decreases j,
        {
            assert(v@.subrange(0, j as int).drop_last() =~= v@.subrange(0, j - 1));
            j = j - 1;
        }
        // `j` is one past the last separator before `end`, or 0.
        assert(last_slash(q) == j - 1) by {
            if j > 0 {
                assert(v@.subrange(0, j as int).last() == '/');
            }
        }
        proof {
            lemma_last_slash_bounds(q);
        }
        assert(q.subrange(j as int, end as int) =~= v@.subrange(j as int, end as int));
        let len = end - j;
        if len == 0 || (len == 1 && v[j] == '.') {
            assert(len == 1 ==> q.subrange(j as int, end as int) =~= seq!['.']);
            if j == 0 {
                return None;
            }
            assert(q.subrange(0, j - 1) =~= v@.subrange(0, j - 1));
            end = j - 1;
        } else if len == 2 && v[j] == '.' && v[j + 1] == '.' {
            assert(q.subrange(j as int, end as int) =~= seq!['.', '.']);
            return None;
        } else {
            assert(len == 1 ==> q.subrange(j as int, end as int) != seq!['.']) by {
                if len == 1 {
                    assert(q.subrange(j as int, end as int)[0] == v@[j as int]);
                }
            }
            assert(len == 2 ==> q.subrange(j as int, end as int) != seq!['.', '.']) by {
                if len == 2 {
                    assert(q.subrange(j as int, end as int)[0] == v@[j as int]);
                    assert(q.subrange(j as int, end as int)[1] == v@[j + 1]);
                }
            }
            return Some(string_from_chars(&v, j, end));
        }
    }
}

} // verus!

verus! {

/// The decimal notation of a number is a nonempty string of digits whose value is the number.
pub proof fn lemma_decimal_shape(n: nat)
    ensures
        decimal(n).len() > 0,
        all_digits(decimal(n)),
        decimal(n)[0] != '+',
        digits_value(decimal(n)) == n,
    decreases n,
{
    assert((digit_char(n % 10) as int) == n % 10 + 48);
    if n >= 10 {
        assert(n == (n / 10) * 10 + n % 10);
        lemma_decimal_shape(n / 10);
        let d = decimal(n / 10);
        assert(decimal(n).drop_last() =~= d);
        assert(decimal(n).last() == digit_char(n % 10));
        assert(digits_value(decimal(n)) == digits_value(d) * 10 + (n % 10));
        assert forall|i: int| 0 <= i < decimal(n).len() implies is_digit(#[trigger] decimal(n)[i]) by {
            if i < d.len() {
                assert(decimal(n)[i] == d[i]);
            }
        }
    } else {
        assert(decimal(n).drop_last() =~= Seq::<char>::empty());
        assert(digits_value(Seq::<char>::empty()) == 0);
        assert(digits_value(decimal(n)) == n % 10);
    }
}

/// Reading back the decimal notation of a number gives the number: `parse` undoes
/// `to_string` for every value the type holds.
pub proof fn lemma_decimal_parse_round_trip(n: nat, max: nat)
    requires
        n <= max,
    ensures
        parse_unsigned(decimal(n), max) == Some(n),
{
    lemma_decimal_shape(n);
    assert(unsigned_digits(decimal(n)) == decimal(n));
}

/// Replacing a character in a concatenation replaces it in each part.
pub proof fn lemma_replace_char_concat(a: Seq<char>, b: Seq<char>, c: char, with: Seq<char>)
    ensures
        replace_char(a + b, c, with) == replace_char(a, c, with) + replace_char(b, c, with),
    decreases b.len(),
{
    if b.len() == 0 {
        assert(a + b =~= a);
        assert(replace_char(a, c, with) + replace_char(b, c, with) =~= replace_char(a, c, with));
    } else {
        lemma_replace_char_concat(a, b.drop_last(), c, with);
        assert((a + b).drop_last() =~= a + b.drop_last());
        assert((a + b).last() == b.last());
        assert(replace_char(a + b, c, with) =~= replace_char(a, c, with) + replace_char(b, c, with));
    }
}

/// Replacing a character in a one-character sequence.
pub proof fn lemma_replace_char_single(x: char, c: char, with: Seq<char>)
    ensures
        replace_char(seq![x], c, with) == if x == c {
            with
        } else {
            seq![x]
        },
{
    assert(seq![x].drop_last() =~= Seq::<char>::empty());
    assert(replace_char(Seq::<char>::empty(), c, with) =~= Seq::<char>::empty());
    assert(replace_char(seq![x], c, with) =~= (if x == c {
        with
    } else {
        seq![x]
    }));
}

} // verus!

verus! {

proof fn lemma_last_slash_after(dir: Seq<char>, name: Seq<char>)
    requires
        forall|i: int| 0 <= i < name.len() ==> name[i] != '/',
    ensures
        last_slash(dir + name) == last_slash(dir),
        last_slash(dir + seq!['/'] + name) == dir.len(),
    decreases name.len(),
{
    if name.len() > 0 {
        let n = name.drop_last();
        assert((dir + name).drop_last() =~= dir + n);
        assert((dir + seq!['/'] + name).drop_last() =~= dir + seq!['/'] + n);
        assert((dir + name).last() == name[name.len() - 1]);
        assert((dir + seq!['/'] + name).last() == name[name.len() - 1]);
        lemma_last_slash_after(dir, n);
    } else {
        assert(dir + name =~= dir);
        assert(dir + seq!['/'] + name =~= dir.push('/'));
    }
}

/// A name without `/` is its own last path component, unless it is empty, `.` or `..`,
/// which name no component.
pub proof fn lemma_file_name_of_plain(name: Seq<char>)
    requires
        forall|i: int| 0 <= i < name.len() ==> name[i] != '/',
    ensures
        file_name_of(name) == (if name.len() == 0 || name == seq!['.'] || name == seq!['.', '.'] {
            None
        } else {
            Some(name)
        }),
{
    lemma_last_slash_after(Seq::empty(), name);
    assert(Seq::<char>::empty() + name =~= name);
    assert(name.subrange(0, name.len() as int) =~= name);
}

/// The last path component of `dir/name`, for a name without `/` other than empty,
/// `.` and `..`, is `name`.
pub proof fn lemma_file_name_of_joined(dir: Seq<char>, name: Seq<char>)
    requires
        forall|i: int| 0 <= i < name.len() ==> name[i] != '/',
        name.len() > 0,
        name != seq!['.'],
        name != seq!['.', '.'],
    ensures
        file_name_of(dir + seq!['/'] + name) == Some(name),
{
    lemma_last_slash_after(dir, name);
    let p = dir + seq!['/'] + name;
    assert(p.subrange(dir.len() as int + 1, p.len() as int) =~= name);
}

} // verus!
