//! Text building blocks shared by the rest of the library.

use vstd::prelude::*;
use vstd::utf8::*;
use vstd::string::*;

verus! {

/// The character for a single decimal digit.
pub open spec fn digit_char(d: nat) -> char {
    (48 + d) as char
}

/// The decimal representation of a natural number, without leading zeros.
pub open spec fn decimal(n: nat) -> Seq<char>
    decreases n,
{
    if n < 10 {
        seq![digit_char(n)]
    } else {
        decimal(n / 10).push(digit_char(n % 10))
    }
}

fn digit_str(d: u64) -> (s: &'static str)
    requires
        d < 10,
    ensures
        s@ == seq![digit_char(d as nat)],
{
    proof {
        reveal_strlit("0");
        reveal_strlit("1");
        reveal_strlit("2");
        reveal_strlit("3");
        reveal_strlit("4");
        reveal_strlit("5");
        reveal_strlit("6");
        reveal_strlit("7");
        reveal_strlit("8");
        reveal_strlit("9");
    }
    if d == 0 {
        "0"
    } else if d == 1 {
        "1"
    } else if d == 2 {
        "2"
    } else if d == 3 {
        "3"
    } else if d == 4 {
        "4"
    } else if d == 5 {
        "5"
    } else if d == 6 {
        "6"
    } else if d == 7 {
        "7"
    } else if d == 8 {
        "8"
    } else {
        "9"
    }
}

/// Appends the decimal representation of `n` to `out`.
pub fn push_decimal(out: &mut String, n: u64)
    ensures
        final(out)@ == old(out)@ + decimal(n as nat),
    decreases n,
{
    if n >= 10 {
        push_decimal(out, n / 10);
    }
    out.append(digit_str(n % 10));
}

/// The decimal representation of `n`, as `u64`'s `Display` writes it.
pub fn decimal_string(n: u64) -> (s: String)
    ensures
        s@ == decimal(n as nat),
{
    let mut s = String::new();
    push_decimal(&mut s, n);
    s
}

/// The characters of a string slice, in order.
pub fn chars_of(s: &str) -> (v: Vec<char>)
    ensures
        v@ == s@,
{
    let mut v: Vec<char> = Vec::new();
    for c in it: s.chars()
        invariant
            v@ == it.seq().take(it.index() as int),
    {
        v.push(c);
    }
    v
}

} // verus!

verus! {

/// Position of the first `c` in `s`, or `s.len()` when `s` holds no `c`.
pub open spec fn find_char(s: Seq<char>, c: char) -> nat
    decreases s.len(),
{
    if s.len() == 0 {
        0
    } else if s[0] == c {
        0
    } else {
        1 + find_char(s.drop_first(), c)
    }
}

/// The length of the first line of `s`, its terminating `'\n'` included when there is one.
pub open spec fn first_line_len(s: Seq<char>) -> nat {
    if find_char(s, '\n') < s.len() {
        find_char(s, '\n') + 1
    } else {
        s.len()
    }
}

/// The lines of `s` as `str::split_inclusive('\n')` yields them: each line keeps its
/// terminating `'\n'`, the last line may lack one, and no empty line follows a final `'\n'`.
pub open spec fn inclusive_lines(s: Seq<char>) -> Seq<Seq<char>>
    decreases s.len(),
{
    if s.len() == 0 {
        seq![]
    } else {
        seq![s.take(first_line_len(s) as int)] + inclusive_lines(s.skip(first_line_len(s) as int))
    }
}

/// Where line `i` begins, given where each line ends.
pub open spec fn line_start(ends: Seq<usize>, i: int) -> int {
    if i == 0 {
        0
    } else {
        ends[i - 1] as int
    }
}

/// Each of `lines` is the text of `s` between consecutive `ends`.
pub open spec fn lines_end_at(s: Seq<char>, ends: Seq<usize>, lines: Seq<Seq<char>>) -> bool {
    &&& ends.len() == lines.len()
    &&& forall|j: int|
        0 <= j < lines.len() ==> line_start(ends, j) < ends[j] <= s.len() && (#[trigger] lines[j])
            =~= s.subrange(line_start(ends, j), ends[j] as int)
}

/// The pieces of `s` between consecutive line ends.
pub open spec fn lines_by_ends(s: Seq<char>, ends: Seq<usize>) -> Seq<Seq<char>> {
    Seq::new(ends.len(), |j: int| s.subrange(line_start(ends, j), ends[j] as int))
}

/// `find_char` is the first position holding `c`, scanning from the front.
pub proof fn lemma_find_char_at(s: Seq<char>, c: char, k: int)
    requires
        0 <= k <= s.len(),
        forall|j: int| 0 <= j < k ==> s[j] != c,
        k == s.len() || s[k] == c,
    ensures
        find_char(s, c) == k,
    decreases k,
{
    if k > 0 {
        lemma_find_char_at(s.drop_first(), c, k - 1);
    }
}

/// Splitting the text that follows position `cur` at the line ending found at `i`.
proof fn lemma_lines_step(s: Seq<char>, cur: int, i: int)
    requires
        0 <= cur <= i < s.len(),
        forall|j: int| cur <= j < i ==> s[j] != '\n',
        s[i] == '\n',
    ensures
        inclusive_lines(s.skip(cur)) == seq![s.subrange(cur, i + 1)] + inclusive_lines(
            s.skip(i + 1),
        ),
{
    let t = s.skip(cur);
    lemma_find_char_at(t, '\n', i - cur);
    assert(t.take(i - cur + 1) =~= s.subrange(cur, i + 1));
    assert(t.skip(i - cur + 1) =~= s.skip(i + 1));
}

/// The text after position `cur` holds no line ending: it is a single last line.
proof fn lemma_lines_last(s: Seq<char>, cur: int)
    requires
        0 <= cur <= s.len(),
        forall|j: int| cur <= j < s.len() ==> s[j] != '\n',
    ensures
        cur < s.len() ==> inclusive_lines(s.skip(cur)) == seq![s.subrange(cur, s.len() as int)],
        cur == s.len() ==> inclusive_lines(s.skip(cur)) == Seq::<Seq<char>>::empty(),
{
    let t = s.skip(cur);
    lemma_find_char_at(t, '\n', t.len() as int);
    if cur < s.len() {
        assert(t.take(t.len() as int) =~= s.subrange(cur, s.len() as int));
        assert(t.skip(t.len() as int).len() == 0);
        assert(inclusive_lines(t.skip(t.len() as int)) == Seq::<Seq<char>>::empty());
        assert(inclusive_lines(t) =~= seq![s.subrange(cur, s.len() as int)]);
    } else {
        assert(t.len() == 0);
    }
}

/// Where each of the lines of `chars` (as `inclusive_lines` splits them) ends.
pub fn line_ends(chars: &Vec<char>) -> (ends: Vec<usize>)
    ensures
        lines_end_at(chars@, ends@, inclusive_lines(chars@)),
        forall|k: int|
            0 <= k <= ends@.len() ==> #[trigger] inclusive_lines(chars@).take(k).flatten()
                == chars@.take(line_start(ends@, k)),
        ends@.len() > 0 ==> ends@[ends@.len() - 1] == chars@.len(),
        ends@.len() == 0 <==> chars@.len() == 0,
{
    let n = chars.len();
    let ghost s = chars@;
    let mut ends: Vec<usize> = Vec::new();
    let mut cur: usize = 0;
    let mut i: usize = 0;
    assert(s.skip(0) =~= s);
    while i < n
        invariant
            n == s.len(),
            s == chars@,
            cur <= i <= n,
            cur == line_start(ends@, ends@.len() as int),
            forall|j: int| cur <= j < i ==> s[j] != '\n',
            inclusive_lines(s) == lines_by_ends(s, ends@) + inclusive_lines(s.skip(cur as int)),
            forall|j: int|
                0 <= j < ends@.len() ==> line_start(ends@, j) < #[trigger] ends@[j] <= cur,
            forall|k: int|
                0 <= k <= ends@.len() ==> #[trigger] lines_by_ends(s, ends@).take(k).flatten() == s.take(line_start(ends@, k)),
        decreases n - i,
    {
        if chars[i] == '\n' {
            let ghost old_ends = ends@;
            let ghost done = lines_by_ends(s, old_ends);
            proof {
                lemma_lines_step(s, cur as int, i as int);
            }
            ends.push(i + 1);
            let ghost done2 = lines_by_ends(s, ends@);
            assert(done2 =~= done.push(s.subrange(cur as int, i + 1)));
            assert(inclusive_lines(s) =~= done2 + inclusive_lines(s.skip(i + 1))) by {
                assert(done + (seq![s.subrange(cur as int, i + 1)] + inclusive_lines(
                    s.skip(i + 1),
                )) =~= done2 + inclusive_lines(s.skip(i + 1)));
            }
            assert forall|k: int| 0 <= k <= ends@.len() implies #[trigger] done2.take(k).flatten()
                == s.take(line_start(ends@, k)) by {
                if k < ends@.len() {
                    assert(done2.take(k) =~= done.take(k));
                    assert(line_start(ends@, k) == line_start(old_ends, k));
                } else {
                    assert(done2.take(k) =~= done.push(s.subrange(cur as int, i + 1)));
                    done.lemma_flatten_push(s.subrange(cur as int, i + 1));
                    assert(done.take(old_ends.len() as int) =~= done);
                    assert(s.take(cur as int) + s.subrange(cur as int, i + 1) =~= s.take(i + 1));
                }
            }
            cur = i + 1;
        }
        i = i + 1;
    }
    proof {
        lemma_lines_last(s, cur as int);
    }
    if cur < n {
        let ghost old_ends = ends@;
        let ghost done = lines_by_ends(s, old_ends);
        ends.push(n);
        let ghost done2 = lines_by_ends(s, ends@);
        assert(done2 =~= done.push(s.subrange(cur as int, n as int)));
        assert(inclusive_lines(s) =~= done2);
        assert forall|k: int| 0 <= k <= ends@.len() implies #[trigger] done2.take(k).flatten()
            == s.take(line_start(ends@, k)) by {
            if k < ends@.len() {
                assert(done2.take(k) =~= done.take(k));
                assert(line_start(ends@, k) == line_start(old_ends, k));
            } else {
                assert(done2.take(k) =~= done.push(s.subrange(cur as int, n as int)));
                done.lemma_flatten_push(s.subrange(cur as int, n as int));
                assert(done.take(old_ends.len() as int) =~= done);
                assert(s.take(cur as int) + s.subrange(cur as int, n as int) =~= s.take(n as int));
            }
        }
    } else {
        let ghost done = lines_by_ends(s, ends@);
        assert(inclusive_lines(s) =~= done);
    }
    ends
}

} // verus!

verus! {

/// Reads `bytes` as UTF-8 text, calling `std::str::from_utf8`.
///
/// Trusted: `from_utf8` succeeds exactly on well-formed UTF-8, and the text it returns
/// is made of those very bytes.
#[verifier::external_body]
pub(crate) fn utf8_text(bytes: &[u8]) -> (text: Option<&str>)
    ensures
        text is Some <==> valid_utf8(bytes@),
        text matches Some(t) ==> t.spec_bytes() == bytes@,
{
    std::str::from_utf8(bytes).ok()
}

/// Encoding distributes over concatenation.
pub proof fn lemma_encode_utf8_concat(a: Seq<char>, b: Seq<char>)
    ensures
        encode_utf8(a + b) == encode_utf8(a) + encode_utf8(b),
    decreases a.len(),
{
    if a.len() == 0 {
        assert(a + b =~= b);
        assert(encode_utf8(a) =~= Seq::<u8>::empty());
        assert(encode_utf8(a) + encode_utf8(b) =~= encode_utf8(b));
    } else {
        lemma_encode_utf8_concat(a.drop_first(), b);
        assert((a + b).drop_first() =~= a.drop_first() + b);
        assert((a + b)[0] == a[0]);
        assert(encode_utf8(a + b) == encode_scalar(a[0] as u32) + encode_utf8(a.drop_first() + b));
        assert(encode_utf8(a + b) =~= encode_utf8(a) + encode_utf8(b));
    }
}

/// Whether the characters `chars[start..end]` begin with `prefix`.
pub fn has_prefix_at(chars: &Vec<char>, start: usize, end: usize, prefix: &Vec<char>) -> (r: bool)
    requires
        start <= end <= chars@.len(),
    ensures
        r == prefix@.is_prefix_of(chars@.subrange(start as int, end as int)),
{
    let plen = prefix.len();
    if plen > end - start {
        return false;
    }
    let mut k: usize = 0;
    while k < plen
        invariant
            plen == prefix@.len(),
            plen <= end - start,
            start <= end <= chars@.len(),
            k <= plen,
            forall|j: int| 0 <= j < k ==> prefix@[j] == chars@[start + j],
        decreases plen - k,
    {
        if prefix[k] != chars[start + k] {
            assert(prefix@[k as int] != chars@.subrange(start as int, end as int)[k as int]);
            return false;
        }
        k = k + 1;
    }
    assert(prefix@ =~= chars@.subrange(start as int, end as int).subrange(0, plen as int));
    true
}

} // verus!

verus! {

/// The decimal representation of an integer, with a leading `-` when it is negative.
pub open spec fn signed_decimal(i: int) -> Seq<char> {
    if i < 0 {
        "-"@ + decimal((-i) as nat)
    } else {
        decimal(i as nat)
    }
}

/// The decimal representation of `n`, as `i32`'s `Display` writes it.
pub fn signed_decimal_string(n: i32) -> (s: String)
    ensures
        s@ == signed_decimal(n as int),
{
    let mut s = String::new();
    if n < 0 {
        s.append("-");
        let m: u64 = (0i64 - (n as i64)) as u64;
        push_decimal(&mut s, m);
    } else {
        push_decimal(&mut s, n as u64);
    }
    s
}

/// Whether two texts are equal.
pub fn text_eq(a: &str, b: &str) -> (r: bool)
    ensures
        r <==> a@ == b@,
{
    let x = chars_of(a);
    let y = chars_of(b);
    if x.len() != y.len() {
        assert(x@.len() != y@.len());
        return false;
    }
    let mut i: usize = 0;
    while i < x.len()
        invariant
            x@ == a@,
            y@ == b@,
            x@.len() == y@.len(),
            i <= x@.len(),
            forall|j: int| 0 <= j < i ==> x@[j] == y@[j],
        decreases x@.len() - i,
    {
        if x[i] != y[i] {
            assert(x@[i as int] != y@[i as int]);
            return false;
        }
        i = i + 1;
    }
    assert(x@ =~= y@);
    true
}

/// A line that the tool says to its user, marked with a sigil such as `✓` or `✗`.
#[derive(Debug, PartialEq, Eq)]
pub struct Notice {
    pub sigil: &'static str,
    pub text: String,
}

/// A notice marked with `sigil`, saying `text`.
pub fn notice(sigil: &'static str, text: String) -> (n: Notice)
    ensures
        n.sigil == sigil,
        n.text == text,
{
    Notice { sigil, text }
}

/// The owned copy of a text.
pub fn owned(s: &str) -> (r: String)
    ensures
        r@ == s@,
{
    s.to_owned()
}

} // verus!

verus! {

/// Appends one character, through `String::push`.
///
/// Trusted: `push` appends `c` to the end of the string.
#[verifier::external_body]
pub(crate) fn push_char(s: &mut String, c: char)
    ensures
        final(s)@ == old(s)@.push(c),
{
    s.push(c)
}

} // verus!

verus! {

/// The lines of a text, put back together, are the text; none of them is empty.
pub proof fn lemma_lines_flatten(s: Seq<char>)
    ensures
        inclusive_lines(s).flatten() == s,
        forall|i: int| 0 <= i < inclusive_lines(s).len() ==> (#[trigger] inclusive_lines(s)[i]).len() > 0,
    decreases s.len(),
{
    if s.len() > 0 {
        let n = first_line_len(s) as int;
        lemma_lines_flatten(s.skip(n));
        let rest = inclusive_lines(s.skip(n));
        assert(inclusive_lines(s) == seq![s.take(n)] + rest);
        assert((seq![s.take(n)] + rest).drop_first() =~= rest);
        assert(s.take(n) + s.skip(n) =~= s);
        assert forall|i: int| 0 <= i < inclusive_lines(s).len() implies (#[trigger] inclusive_lines(s)[i]).len() > 0 by {
            if i > 0 {
                assert(inclusive_lines(s)[i] == rest[i - 1]);
            }
        }
    }
}

} // verus!

verus! {

/// `find_char` lies within the text; before it there is no `c`, and at it, if inside, there is.
pub proof fn lemma_find_char_bounds(s: Seq<char>, c: char)
    ensures
        find_char(s, c) <= s.len(),
        forall|j: int| 0 <= j < find_char(s, c) ==> s[j] != c,
        find_char(s, c) < s.len() ==> s[find_char(s, c) as int] == c,
    decreases s.len(),
{
    if s.len() > 0 && s[0] != c {
        lemma_find_char_bounds(s.drop_first(), c);
        assert forall|j: int| 0 <= j < find_char(s, c) implies s[j] != c by {
            if j > 0 {
                assert(s[j] == s.drop_first()[j - 1]);
            }
        }
    }
}

} // verus!
