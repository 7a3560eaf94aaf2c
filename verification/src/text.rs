use vstd::prelude::*;
use vstd::string::*;

verus! {

/// The characters of `s`, in order.
pub fn chars_of(s: &str) -> (v: Vec<char>)
    ensures
        v@ == s@,
{
    let mut v: Vec<char> = Vec::new();
    for c in it: s.chars()
        invariant
            v@ == it.seq().take(it.index() as int),
    {
        v.push(c);
    }
    v
}

/// The Unicode `White_Space` property, which is what Rust's
/// `char::is_whitespace` (and therefore `str::trim`) tests.
pub open spec fn is_unicode_whitespace(c: char) -> bool {
    let u = c as u32;
    ||| 0x09 <= u <= 0x0d
    ||| u == 0x20
    ||| u == 0x85
    ||| u == 0xa0
    ||| u == 0x1680
    ||| 0x2000 <= u <= 0x200a
    ||| u == 0x2028
    ||| u == 0x2029
    ||| u == 0x202f
    ||| u == 0x205f
    ||| u == 0x3000
}

/// Whether `c` is a Unicode whitespace character.
pub fn is_whitespace(c: char) -> (r: bool)
    ensures
        r == is_unicode_whitespace(c),
{
    let u = c as u32;
    (0x09 <= u && u <= 0x0d) || u == 0x20 || u == 0x85 || u == 0xa0 || u == 0x1680 || (0x2000
        <= u && u <= 0x200a) || u == 0x2028 || u == 0x2029 || u == 0x202f || u == 0x205f || u
        == 0x3000
}

/// `s` with every leading character that satisfies `p` removed.
pub open spec fn trim_start_while(s: Seq<char>, p: spec_fn(char) -> bool) -> Seq<char>
    decreases s.len(),
{
    if s.len() > 0 && p(s[0]) {
        trim_start_while(s.drop_first(), p)
    } else {
        s
    }
}

/// `s` with every trailing character that satisfies `p` removed.
pub open spec fn trim_end_while(s: Seq<char>, p: spec_fn(char) -> bool) -> Seq<char>
    decreases s.len(),
{
    if s.len() > 0 && p(s.last()) {
        trim_end_while(s.drop_last(), p)
    } else {
        s
    }
}

/// What `str::trim` returns: leading and trailing whitespace removed.
pub open spec fn trimmed(s: Seq<char>) -> Seq<char> {
    trim_end_while(trim_start_while(s, |c: char| is_unicode_whitespace(c)), |c: char| is_unicode_whitespace(c))
}

/// What `str::trim_end_matches('/')` returns: every trailing `/` removed.
pub open spec fn without_trailing_slashes(s: Seq<char>) -> Seq<char> {
    trim_end_while(s, |c: char| c == '/')
}

/// Skipping a prefix whose characters all satisfy `p` does not change
/// what `trim_start_while` returns.
pub proof fn lemma_trim_start_skip(s: Seq<char>, p: spec_fn(char) -> bool, i: int)
    requires
        0 <= i <= s.len(),
        forall|k: int| 0 <= k < i ==> p(#[trigger] s[k]),
    ensures
        trim_start_while(s, p) == trim_start_while(s.subrange(i, s.len() as int), p),
    decreases i,
{
    if i > 0 {
        assert(s.drop_first() == s.subrange(1, s.len() as int));
        lemma_trim_start_skip(s.drop_first(), p, i - 1);
        assert(s.drop_first().subrange(i - 1, s.drop_first().len() as int) == s.subrange(
            i,
            s.len() as int,
        ));
    } else {
        assert(s.subrange(0, s.len() as int) == s);
    }
}

/// Dropping a suffix whose characters all satisfy `p` does not change
/// what `trim_end_while` returns.
pub proof fn lemma_trim_end_skip(s: Seq<char>, p: spec_fn(char) -> bool, j: int)
    requires
        0 <= j <= s.len(),
        forall|k: int| j <= k < s.len() ==> p(#[trigger] s[k]),
    ensures
        trim_end_while(s, p) == trim_end_while(s.subrange(0, j), p),
    decreases s.len() - j,
{
    if j < s.len() {
        lemma_trim_end_skip(s.drop_last(), p, j);
        assert(s.drop_last().subrange(0, j) == s.subrange(0, j));
    } else {
        assert(s.subrange(0, s.len() as int) == s);
    }
}

/// Index of the first character of `v` that is not whitespace (or
/// `v.len()` if there is none).
fn first_non_whitespace(v: &Vec<char>) -> (i: usize)
    ensures
        i <= v.len(),
        forall|k: int| 0 <= k < i ==> is_unicode_whitespace(#[trigger] v@[k]),
        i < v.len() ==> !is_unicode_whitespace(v@[i as int]),
{
    let mut i: usize = 0;
    while i < v.len() && is_whitespace(v[i])
        invariant
            i <= v.len(),
            forall|k: int| 0 <= k < i ==> is_unicode_whitespace(#[trigger] v@[k]),
        decreases v.len() - i,
    {
        i = i + 1;
    }
    i
}

/// The character class that [`end_of_kept`] strips: `/` when `slash`,
/// whitespace otherwise.
pub open spec fn stripped_char(c: char, slash: bool) -> bool {
    if slash {
        c == '/'
    } else {
        is_unicode_whitespace(c)
    }
}

fn is_stripped(c: char, slash: bool) -> (r: bool)
    ensures
        r == stripped_char(c, slash),
{
    if slash {
        c == '/'
    } else {
        is_whitespace(c)
    }
}

/// Given `lo`, the end of the span `v[lo..j]` after removing trailing
/// characters of the stripped class.
fn end_of_kept(v: &Vec<char>, lo: usize, slash: bool) -> (j: usize)
    requires
        lo <= v.len(),
    ensures
        lo <= j <= v.len(),
        forall|k: int| j <= k < v.len() ==> stripped_char(#[trigger] v@[k], slash),
        j > lo ==> !stripped_char(v@[j - 1], slash),
{
    let mut j: usize = v.len();
    while j > lo && is_stripped(v[j - 1], slash)
        invariant
            lo <= j <= v.len(),
            forall|k: int| j <= k < v.len() ==> stripped_char(#[trigger] v@[k], slash),
        decreases j,
    {
        j = j - 1;
    }
    j
}

/// `s` with leading and trailing whitespace removed, as `str::trim` does.
pub fn trim(s: &str) -> (r: String)
    ensures
        r@ == trimmed(s@),
{
    let v = chars_of(s);
    let i = first_non_whitespace(&v);
    let j = end_of_kept(&v, i, false);
    let ghost ws = |c: char| is_unicode_whitespace(c);
    proof {
        lemma_trim_start_skip(s@, ws, i as int);
        let t = s@.subrange(i as int, s@.len() as int);
        if i < v.len() {
            assert(trim_start_while(t, ws) == t);
        } else {
            assert(t.len() == 0);
        }
        assert(t.subrange(0, j - i) == s@.subrange(i as int, j as int));
        lemma_trim_end_skip(t, ws, j - i);
        let u = t.subrange(0, j - i);
        if j > i {
            assert(u.last() == v@[j - 1]);
        }
        assert(trim_end_while(u, ws) == u);
    }
    String::from_str(s.substring_char(i, j))
}

/// `s` with every trailing `/` removed, as `str::trim_end_matches('/')` does.
pub fn trim_trailing_slashes(s: &str) -> (r: String)
    ensures
        r@ == without_trailing_slashes(s@),
{
    let v = chars_of(s);
    let j = end_of_kept(&v, 0, true);
    let ghost sl = |c: char| c == '/';
    proof {
        lemma_trim_end_skip(s@, sl, j as int);
        let u = s@.subrange(0, j as int);
        if j > 0 {
            assert(u.last() == v@[j - 1]);
        }
        assert(trim_end_while(u, sl) == u);
    }
    String::from_str(s.substring_char(0, j))
}

/// Whether `s` ends with `suffix`.
pub open spec fn has_suffix(s: Seq<char>, suffix: Seq<char>) -> bool {
    suffix.len() <= s.len() && s.subrange(s.len() - suffix.len(), s.len() as int) == suffix
}

/// Whether `s` ends with `suffix`, as `str::ends_with` does.
pub fn ends_with(s: &str, suffix: &str) -> (r: bool)
    ensures
        r == has_suffix(s@, suffix@),
{
    let v = chars_of(s);
    let w = chars_of(suffix);
    if w.len() > v.len() {
        return false;
    }
    let off = v.len() - w.len();
    let mut k: usize = 0;
    while k < w.len()
        invariant
            v@ == s@,
            w@ == suffix@,
            off + w.len() == v.len(),
            k <= w.len(),
            forall|m: int| 0 <= m < k ==> v@[off + m] == #[trigger] w@[m],
        decreases w.len() - k,
    {
        if v[off + k] != w[k] {
            assert(s@.subrange(off as int, s@.len() as int)[k as int] != suffix@[k as int]);
            return false;
        }
        k = k + 1;
    }
    assert(s@.subrange(off as int, s@.len() as int) == suffix@);
    true
}

/// The decimal digit character for `d`.
pub open spec fn digit_char(d: nat) -> char {
    if d == 0 { '0' }
    else if d == 1 { '1' }
    else if d == 2 { '2' }
    else if d == 3 { '3' }
    else if d == 4 { '4' }
    else if d == 5 { '5' }
    else if d == 6 { '6' }
    else if d == 7 { '7' }
    else if d == 8 { '8' }
    else { '9' }
}

/// The decimal representation of `n`, without sign or leading zeros, as
/// Rust's `Display` for unsigned integers writes it.
pub open spec fn decimal(n: nat) -> Seq<char>
    decreases n,
{
    if n < 10 {
        seq![digit_char(n)]
    } else {
        decimal(n / 10) + seq![digit_char(n % 10)]
    }
}

fn digit_str(d: u64) -> (r: &'static str)
    requires
        d < 10,
    ensures
        r@ == seq![digit_char(d as nat)],
{
    proof {
        reveal_strlit("0");
        reveal_strlit("1");
        reveal_strlit("2");
        reveal_strlit("3");
        reveal_strlit("4");
        reveal_strlit("5");
        reveal_strlit("6");
        reveal_strlit("7");
        reveal_strlit("8");
        reveal_strlit("9");
    }
    if d == 0 { "0" }
    else if d == 1 { "1" }
    else if d == 2 { "2" }
    else if d == 3 { "3" }
    else if d == 4 { "4" }
    else if d == 5 { "5" }
    else if d == 6 { "6" }
    else if d == 7 { "7" }
    else if d == 8 { "8" }
    else { "9" }
}

/// `n` written in decimal.
pub fn decimal_string(n: u64) -> (r: String)
    ensures
        r@ == decimal(n as nat),
    decreases n,
{
    if n < 10 {
        String::from_str(digit_str(n))
    } else {
        let mut s = decimal_string(n / 10);
        s.append(digit_str(n % 10));
        s
    }
}

} // verus!

verus! {

/// What `String::from_utf8_lossy` makes of a byte sequence. Valid UTF-8 is
/// decoded as is (see [`lossy_utf8`]); for invalid input the replacement of
/// ill-formed sequences by U+FFFD is left to this name.
pub uninterp spec fn utf8_lossy(bytes: Seq<u8>) -> Seq<char>;

/// Calls `String::from_utf8_lossy`. Its documentation promises that valid
/// UTF-8 comes back unchanged; how invalid sequences are replaced is not
/// stated beyond the name [`utf8_lossy`].
#[verifier::external_body]
pub(crate) fn lossy_utf8(bytes: &[u8]) -> (r: String)
    ensures
        r@ == utf8_lossy(bytes@),
        vstd::utf8::valid_utf8(bytes@) ==> r@ == vstd::utf8::decode_utf8(bytes@),
{
    String::from_utf8_lossy(bytes).into_owned()
}

/// The four little-endian bytes of `x`.
pub open spec fn u32_le(x: u32) -> Seq<u8> {
    seq![
        (x & 0xff) as u8,
        ((x >> 8u32) & 0xff) as u8,
        ((x >> 16u32) & 0xff) as u8,
        ((x >> 24u32) & 0xff) as u8,
    ]
}

/// The little-endian bytes of each word of `s`, in order.
pub open spec fn le_bytes(s: Seq<u32>) -> Seq<u8>
    decreases s.len(),
{
    if s.len() == 0 {
        Seq::empty()
    } else {
        le_bytes(s.drop_last()) + u32_le(s.last())
    }
}

/// Encoding a concatenation is concatenating the encodings.
pub proof fn lemma_le_bytes_concat(a: Seq<u32>, b: Seq<u32>)
    ensures
        le_bytes(a + b) == le_bytes(a) + le_bytes(b),
    decreases b.len(),
{
    if b.len() == 0 {
        assert(a + b == a);
    } else {
        lemma_le_bytes_concat(a, b.drop_last());
        assert((a + b).drop_last() == a + b.drop_last());
    }
}

/// The little-endian byte stream of `words`.
pub fn to_le_bytes(words: &[u32]) -> (r: Vec<u8>)
    ensures
        r@ == le_bytes(words@),
{
    let mut out: Vec<u8> = Vec::new();
    let mut i: usize = 0;
    while i < words.len()
        invariant
            i <= words@.len(),
            out@ == le_bytes(words@.take(i as int)),
        decreases words@.len() - i,
    {
        let x = words[i];
        out.push((x & 0xff) as u8);
        out.push(((x >> 8u32) & 0xff) as u8);
        out.push(((x >> 16u32) & 0xff) as u8);
        out.push(((x >> 24u32) & 0xff) as u8);
        assert(words@.take(i + 1).drop_last() == words@.take(i as int));
        i = i + 1;
    }
    assert(words@.take(words@.len() as int) == words@);
    out
}

} // verus!
