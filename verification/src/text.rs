//! Character-level string operations with exact specifications: Unicode
//! whitespace trimming, ASCII case-insensitive comparison, prefix tests and
//! decimal rendering of integers.

use vstd::prelude::*;
use vstd::string::*;

verus! {

/// Whether `c` has the Unicode `White_Space` property (the set that
/// `char::is_whitespace`, and so `str::trim`, strip).
pub open spec fn is_white_space(c: char) -> bool {
    let n = c as u32;
    ||| 0x09 <= n <= 0x0D
    ||| n == 0x20
    ||| n == 0x85
    ||| n == 0xA0
    ||| n == 0x1680
    ||| 0x2000 <= n <= 0x200A
    ||| n == 0x2028
    ||| n == 0x2029
    ||| n == 0x202F
    ||| n == 0x205F
    ||| n == 0x3000
}

/// Every character of `s` is whitespace.
pub open spec fn all_white_space(s: Seq<char>) -> bool {
    forall|i: int| 0 <= i < s.len() ==> is_white_space(#[trigger] s[i])
}

/// `s` without its leading whitespace.
pub open spec fn trim_start(s: Seq<char>) -> Seq<char>
    decreases s.len(),
{
    if s.len() > 0 && is_white_space(s[0]) {
        trim_start(s.drop_first())
    } else {
        s
    }
}

/// `s` without its trailing whitespace.
pub open spec fn trim_end(s: Seq<char>) -> Seq<char>
    decreases s.len(),
{
    if s.len() > 0 && is_white_space(s.last()) {
        trim_end(s.drop_last())
    } else {
        s
    }
}

/// `s` without leading and trailing whitespace (`str::trim`).
pub open spec fn trim(s: Seq<char>) -> Seq<char> {
    trim_end(trim_start(s))
}

/// The character code of `c` after ASCII lower-casing (`char::to_ascii_lowercase`).
pub open spec fn ascii_lower_code(c: char) -> u32 {
    let n = c as u32;
    if 0x41 <= n <= 0x5A {
        (n + 0x20) as u32
    } else {
        n
    }
}

/// `a` and `b` are equal up to ASCII case (`str::eq_ignore_ascii_case`).
pub open spec fn eq_ignore_ascii_case(a: Seq<char>, b: Seq<char>) -> bool {
    &&& a.len() == b.len()
    &&& forall|i: int| 0 <= i < a.len() ==> ascii_lower_code(#[trigger] a[i]) == ascii_lower_code(b[i])
}

/// The decimal digit character for `d`, for `d < 10`.
pub open spec fn digit_char(d: nat) -> char {
    if d == 0 { '0' }
    else if d == 1 { '1' }
    else if d == 2 { '2' }
    else if d == 3 { '3' }
    else if d == 4 { '4' }
    else if d == 5 { '5' }
    else if d == 6 { '6' }
    else if d == 7 { '7' }
    else if d == 8 { '8' }
    else { '9' }
}

/// The decimal representation of `n`, most significant digit first, with no
/// leading zeros (the `Display` rendering of an unsigned integer).
pub open spec fn decimal(n: nat) -> Seq<char>
    decreases n,
{
    if n < 10 {
        seq![digit_char(n)]
    } else {
        decimal(n / 10).push(digit_char(n % 10))
    }
}

/// Exec counterpart of `is_white_space`.
pub fn char_is_white_space(c: char) -> (res: bool)
    ensures
        res == is_white_space(c),
{
    let n = c as u32;
    (0x09 <= n && n <= 0x0D) || n == 0x20 || n == 0x85 || n == 0xA0 || n == 0x1680 || (0x2000
        <= n && n <= 0x200A) || n == 0x2028 || n == 0x2029 || n == 0x202F || n == 0x205F || n
        == 0x3000
}

proof fn lemma_trim_start_step(s: Seq<char>, i: int)
    requires
        0 <= i < s.len(),
        is_white_space(s[i]),
    ensures
        trim_start(s.subrange(i, s.len() as int)) == trim_start(s.subrange(i + 1, s.len() as int)),
{
    assert(s.subrange(i, s.len() as int).drop_first() =~= s.subrange(i + 1, s.len() as int));
}

proof fn lemma_trim_end_step(s: Seq<char>, j: int)
    requires
        0 < j <= s.len(),
        is_white_space(s[j - 1]),
    ensures
        trim_end(s.subrange(0, j)) == trim_end(s.subrange(0, j - 1)),
{
    assert(s.subrange(0, j).drop_last() =~= s.subrange(0, j - 1));
}

proof fn lemma_trim_start_pad(pre: Seq<char>, s: Seq<char>)
    requires
        all_white_space(pre),
    ensures
        trim_start(pre + s) == trim_start(s),
    decreases pre.len(),
{
    if pre.len() > 0 {
        assert((pre + s)[0] == pre[0]);
        assert((pre + s).drop_first() =~= pre.drop_first() + s);
        lemma_trim_start_pad(pre.drop_first(), s);
    } else {
        assert(pre + s =~= s);
    }
}

proof fn lemma_trim_end_pad(s: Seq<char>, post: Seq<char>)
    requires
        all_white_space(post),
    ensures
        trim_end(s + post) == trim_end(s),
    decreases post.len(),
{
    if post.len() > 0 {
        assert((s + post).last() == post.last());
        assert((s + post).drop_last() =~= s + post.drop_last());
        lemma_trim_end_pad(s, post.drop_last());
    } else {
        assert(s + post =~= s);
    }
}

proof fn lemma_trim_start_all_white(s: Seq<char>)
    requires
        all_white_space(s),
    ensures
        trim_start(s).len() == 0,
    decreases s.len(),
{
    if s.len() > 0 {
        lemma_trim_start_all_white(s.drop_first());
    }
}

proof fn lemma_trim_start_append(s: Seq<char>, post: Seq<char>)
    ensures
        trim_start(s).len() > 0 ==> trim_start(s + post) == trim_start(s) + post,
        trim_start(s).len() == 0 ==> trim_start(s + post) == trim_start(post),
    decreases s.len(),
{
    if s.len() > 0 {
        assert((s + post)[0] == s[0]);
        if is_white_space(s[0]) {
            assert((s + post).drop_first() =~= s.drop_first() + post);
            lemma_trim_start_append(s.drop_first(), post);
        }
    } else {
        assert(s + post =~= post);
    }
}

/// Whitespace around a string does not change what it trims to:
/// `trim(pre + s + post) == trim(s)` whenever `pre` and `post` are whitespace.
pub proof fn lemma_trim_ignores_surrounding_white_space(pre: Seq<char>, s: Seq<char>, post: Seq<char>)
    requires
        all_white_space(pre),
        all_white_space(post),
    ensures
        trim(pre + s + post) == trim(s),
{
    assert(pre + s + post =~= pre + (s + post));
    lemma_trim_start_pad(pre, s + post);
    lemma_trim_start_append(s, post);
    if trim_start(s).len() > 0 {
        lemma_trim_end_pad(trim_start(s), post);
    } else {
        lemma_trim_start_all_white(post);
        assert(trim_start(post) =~= trim_start(s));
    }
}

/// The whitespace-trimmed slice of `s` (`str::trim`).
pub fn trim_str(s: &str) -> (res: &str)
    ensures
        res@ == trim(s@),
{
    let n = s.unicode_len();
    let mut start: usize = 0;
    assert(s@.subrange(0, n as int) =~= s@);
    while start < n && char_is_white_space(s.get_char(start))
        invariant
            n == s@.len(),
            start <= n,
            trim_start(s@) == trim_start(s@.subrange(start as int, n as int)),
        decreases n - start,
    {
        proof {
            lemma_trim_start_step(s@, start as int);
        }
        start = start + 1;
    }
    let ghost rest = s@.subrange(start as int, n as int);
    assert(trim_start(s@) == rest);
    let mut end: usize = n;
    assert(rest.subrange(0, (end - start) as int) =~= rest);
    while end > start && char_is_white_space(s.get_char(end - 1))
        invariant
            n == s@.len(),
            start <= end <= n,
            rest == s@.subrange(start as int, n as int),
            trim_end(rest) == trim_end(rest.subrange(0, (end - start) as int)),
        decreases end,
    {
        proof {
            assert(rest[(end - start) - 1] == s@[end - 1]);
            lemma_trim_end_step(rest, (end - start) as int);
        }
        end = end - 1;
    }
    proof {
        let t = rest.subrange(0, (end - start) as int);
        if end > start {
            assert(t.last() == s@[end - 1]);
        }
        assert(trim_end(t) == t);
        assert(t =~= s@.subrange(start as int, end as int));
    }
    s.substring_char(start, end)
}

/// Whether `a` and `b` are equal up to ASCII case (`str::eq_ignore_ascii_case`).
pub fn str_eq_ignore_ascii_case(a: &str, b: &str) -> (res: bool)
    ensures
        res == eq_ignore_ascii_case(a@, b@),
{
    let n = a.unicode_len();
    if n != b.unicode_len() {
        return false;
    }
    let mut i: usize = 0;
    while i < n
        invariant
            n == a@.len(),
            n == b@.len(),
            i <= n,
            forall|k: int| 0 <= k < i ==> ascii_lower_code(#[trigger] a@[k]) == ascii_lower_code(b@[k]),
        decreases n - i,
    {
        let x = a.get_char(i) as u32;
        let y = b.get_char(i) as u32;
        let lx: u32 = if 0x41 <= x && x <= 0x5A { x + 0x20 } else { x };
        let ly: u32 = if 0x41 <= y && y <= 0x5A { y + 0x20 } else { y };
        if lx != ly {
            assert(ascii_lower_code(a@[i as int]) != ascii_lower_code(b@[i as int]));
            return false;
        }
        i = i + 1;
    }
    true
}

/// Whether `s` begins with `prefix` (`str::starts_with`).
pub fn str_starts_with(s: &str, prefix: &str) -> (res: bool)
    ensures
        res == prefix@.is_prefix_of(s@),
{
    let n = s.unicode_len();
    let m = prefix.unicode_len();
    if m > n {
        return false;
    }
    let mut i: usize = 0;
    while i < m
        invariant
            n == s@.len(),
            m == prefix@.len(),
            m <= n,
            i <= m,
            forall|k: int| 0 <= k < i ==> #[trigger] prefix@[k] == s@[k],
        decreases m - i,
    {
        if s.get_char(i) != prefix.get_char(i) {
            return false;
        }
        i = i + 1;
    }
    assert(prefix@ =~= s@.subrange(0, m as int));
    true
}

/// Whether the two strings hold the same characters.
pub fn str_eq(a: &str, b: &str) -> (res: bool)
    ensures
        res == (a@ == b@),
{
    let n = a.unicode_len();
    if n != b.unicode_len() {
        return false;
    }
    let mut i: usize = 0;
    while i < n
        invariant
            n == a@.len(),
            n == b@.len(),
            i <= n,
            forall|k: int| 0 <= k < i ==> #[trigger] a@[k] == b@[k],
        decreases n - i,
    {
        if a.get_char(i) != b.get_char(i) {
            return false;
        }
        i = i + 1;
    }
    assert(a@ =~= b@);
    true
}

/// A copy of an optional string.
pub fn clone_option_string(value: &Option<String>) -> (res: Option<String>)
    ensures
        res == *value,
{
    match value {
        Some(s) => Some(s.clone()),
        None => None,
    }
}

/// The string `prefix` followed by the string `rest`.
pub fn concat_strs(prefix: &str, rest: &str) -> (res: String)
    ensures
        res@ == prefix@ + rest@,
{
    let mut out = String::from_str(prefix);
    out.append(rest);
    out
}

/// A one-character string holding the decimal digit `d`.
fn digit_str(d: u64) -> (res: &'static str)
    requires
        d < 10,
    ensures
        res@ == seq![digit_char(d as nat)],
{
    proof {
        reveal_strlit("0");
        reveal_strlit("1");
        reveal_strlit("2");
        reveal_strlit("3");
        reveal_strlit("4");
        reveal_strlit("5");
        reveal_strlit("6");
        reveal_strlit("7");
        reveal_strlit("8");
        reveal_strlit("9");
    }
    let r = if d == 0 { "0" }
    else if d == 1 { "1" }
    else if d == 2 { "2" }
    else if d == 3 { "3" }
    else if d == 4 { "4" }
    else if d == 5 { "5" }
    else if d == 6 { "6" }
    else if d == 7 { "7" }
    else if d == 8 { "8" }
    else { "9" };
    assert(r@ =~= seq![digit_char(d as nat)]);
    r
}

/// Appends the decimal representation of `n` to `out`.
pub fn push_decimal(out: &mut String, n: u64)
    ensures
        final(out)@ == old(out)@ + decimal(n as nat),
    decreases n,
{
    if n >= 10 {
        push_decimal(out, n / 10);
        out.append(digit_str(n % 10));
        assert(decimal(n as nat) == decimal((n / 10) as nat).push(digit_char((n % 10) as nat)));
        assert(final(out)@ =~= old(out)@ + decimal(n as nat));
    } else {
        out.append(digit_str(n));
    }
}

} // verus!
