//! Text as the screens use it: a `str` read as its characters, a `String`
//! built back, words split on whitespace, case folded, numbers written out.

use vstd::prelude::*;

verus! {

/// Unicode's `White_Space` characters: what `char::is_whitespace` answers
/// true for, and so what separates words.
pub open spec fn white(c: char) -> bool {
    ||| ('\u{9}' <= c && c <= '\u{d}')
    ||| c == ' '
    ||| c == '\u{85}'
    ||| c == '\u{a0}'
    ||| c == '\u{1680}'
    ||| ('\u{2000}' <= c && c <= '\u{200a}')
    ||| c == '\u{2028}'
    ||| c == '\u{2029}'
    ||| c == '\u{202f}'
    ||| c == '\u{205f}'
    ||| c == '\u{3000}'
}

/// Whether `c` separates words.
pub fn is_white(c: char) -> (w: bool)
    ensures
        w == white(c),
{
    ('\u{9}' <= c && c <= '\u{d}') || c == ' ' || c == '\u{85}' || c == '\u{a0}' || c == '\u{1680}'
        || ('\u{2000}' <= c && c <= '\u{200a}') || c == '\u{2028}' || c == '\u{2029}'
        || c == '\u{202f}' || c == '\u{205f}' || c == '\u{3000}'
}

/// What `char::to_uppercase` yields for `c`: Unicode's uppercase mapping,
/// one character or more.
pub uninterp spec fn upper_of(c: char) -> Seq<char>;

/// What `str::to_lowercase` gives for the text `s`: Unicode's lowercase
/// mapping, which may look at a character's neighbours.
pub uninterp spec fn lower_of(s: Seq<char>) -> Seq<char>;

/// Appends `c` to `s`: `String::push`.
#[verifier::external_body]
pub(crate) fn push_char(s: &mut String, c: char)
    ensures
        final(s)@ == old(s)@.push(c),
{
    s.push(c);
}

/// `char::to_uppercase`: the characters `c` reads as in upper case. Its
/// documentation says a character with no uppercase mapping yields
/// itself, so it yields at least one character; an ASCII character maps
/// as ASCII does: a small letter to its capital, anything else to itself.
#[verifier::external_body]
pub(crate) fn upper(c: char) -> (out: Vec<char>)
    ensures
        out@ == upper_of(c),
        out@.len() >= 1,
        'a' <= c && c <= 'z' ==> out@ == seq![((c as u32) - 32) as char],
        c < '\u{80}' && !('a' <= c && c <= 'z') ==> out@ == seq![c],
{
    c.to_uppercase().collect()
}

/// `str::to_lowercase`: the text `s` in lower case. Unicode's lowercase
/// mapping of an ASCII character is its ASCII lowercase, so an all-ASCII
/// text comes back with just its capitals lowered.
#[verifier::external_body]
pub(crate) fn lower(s: &str) -> (out: String)
    ensures
        out@ == lower_of(s@),
        (forall|i: int| 0 <= i < s@.len() ==> s@[i] < '\u{80}') ==> out@ == s@.map_values(|c: char| ascii_lower(c)),
{
    s.to_lowercase()
}

/// The characters of `s`, one by one.
pub fn chars_of(s: &str) -> (out: Vec<char>)
    ensures
        out@ == s@,
{
    let n = s.unicode_len();
    let mut out: Vec<char> = Vec::new();
    for i in 0..n
        invariant
            n == s@.len(),
            out@ == s@.take(i as int),
    {
        out.push(s.get_char(i));
        assert(s@.take(i + 1) == s@.take(i as int).push(s@[i as int]));
    }
    assert(s@.take(n as int) == s@);
    out
}

/// A `String` of `chars`.
pub fn string_of(chars: &Vec<char>) -> (out: String)
    ensures
        out@ == chars@,
{
    let mut out = String::new();
    for i in 0..chars.len()
        invariant
            out@ == chars@.take(i as int),
    {
        push_char(&mut out, chars[i]);
        assert(chars@.take(i + 1) == chars@.take(i as int).push(chars@[i as int]));
    }
    assert(chars@.take(chars@.len() as int) == chars@);
    out
}

/// Appends every character of `more` to `out`.
pub fn push_all(out: &mut Vec<char>, more: &Vec<char>)
    ensures
        final(out)@ == old(out)@ + more@,
{
    for i in 0..more.len()
        invariant
            out@ == old(out)@ + more@.take(i as int),
    {
        out.push(more[i]);
        assert(more@.take(i + 1) == more@.take(i as int).push(more@[i as int]));
    }
    assert(more@.take(more@.len() as int) == more@);
}

/// Appends the characters of the text `more` to `out`.
pub fn push_str(out: &mut Vec<char>, more: &str)
    ensures
        final(out)@ == old(out)@ + more@,
{
    let chars = chars_of(more);
    push_all(out, &chars);
}

/// Whether two texts are the same characters.
pub fn same_text(a: &str, b: &str) -> (same: bool)
    ensures
        same == (a@ == b@),
{
    let n = a.unicode_len();
    if n != b.unicode_len() {
        return false;
    }
    for i in 0..n
        invariant
            n == a@.len(),
            n == b@.len(),
            forall|j: int| 0 <= j < i ==> a@[j] == b@[j],
    {
        if a.get_char(i) != b.get_char(i) {
            return false;
        }
    }
    assert(a@ =~= b@);
    true
}

/// `t` occurs in `s` starting at `i`.
pub open spec fn occurs_at(s: Seq<char>, t: Seq<char>, i: int) -> bool {
    0 <= i && i + t.len() <= s.len() && s.subrange(i, i + t.len()) == t
}

/// `t` occurs somewhere in `s`.
pub open spec fn holds_text(s: Seq<char>, t: Seq<char>) -> bool {
    exists|i: int| occurs_at(s, t, i)
}

/// Whether `t` occurs in `s`: `str::contains` with a `str` pattern.
pub fn contains_text(s: &str, t: &str) -> (found: bool)
    ensures
        found == holds_text(s@, t@),
{
    let hay = chars_of(s);
    let needle = chars_of(t);
    let found = contains_chars(&hay, &needle);
    found
}

/// Whether `t` occurs in `s`, as characters.
pub fn contains_chars(s: &Vec<char>, t: &Vec<char>) -> (found: bool)
    ensures
        found == holds_text(s@, t@),
{
    let n = s.len();
    let m = t.len();
    if m > n {
        proof {
            assert forall|i: int| !occurs_at(s@, t@, i) by {}
        }
        return false;
    }
    let mut i: usize = 0;
    while i <= n - m
        invariant
            n == s@.len(),
            m == t@.len(),
            m <= n,
            i <= n - m + 1,
            forall|k: int| 0 <= k < i ==> !occurs_at(s@, t@, k),
        decreases n - m + 1 - i,
    {
        let mut j: usize = 0;
        let mut matched = true;
        while j < m
            invariant
                n == s@.len(),
                m == t@.len(),
                i + m <= n,
                j <= m,
                matched ==> forall|k: int| 0 <= k < j ==> s@[i + k] == t@[k],
                !matched ==> exists|k: int| 0 <= k < m && s@[i + k] != t@[k],
            decreases m - j,
        {
            if s[i + j] != t[j] {
                matched = false;
            }
            j = j + 1;
        }
        if matched {
            proof {
                let sub = s@.subrange(i as int, i + m);
                assert forall|k: int| 0 <= k < m implies sub[k] == t@[k] by {
                    assert(sub[k] == s@[i + k]);
                }
                assert(sub =~= t@);
                assert(occurs_at(s@, t@, i as int));
            }
            return true;
        }
        proof {
            let k = choose|k: int| 0 <= k < m && s@[i + k] != t@[k];
            assert(s@.subrange(i as int, i + m)[k] != t@[k]);
        }
        i = i + 1;
    }
    proof {
        assert forall|k: int| !occurs_at(s@, t@, k) by {
            if 0 <= k && k + m <= n {
                assert(k < i);
            }
        }
    }
    false
}

/// ASCII letters folded to lower case; every other character kept.
pub open spec fn ascii_lower(c: char) -> char {
    if 'A' <= c && c <= 'Z' {
        ((c as u32) + 32) as char
    } else {
        c
    }
}

pub fn to_ascii_lower(c: char) -> (out: char)
    ensures
        out == ascii_lower(c),
{
    if 'A' <= c && c <= 'Z' {
        let code = (c as u32) + 32;
        char_from_ascii(code as u8)
    } else {
        c
    }
}

/// The character of an ASCII code.
pub fn char_from_ascii(code: u8) -> (c: char)
    requires
        code < 128,
    ensures
        c == code as char,
        c as u32 == code as u32,
{
    code as char
}

/// Two texts the same but for the case of ASCII letters:
/// `str::eq_ignore_ascii_case`.
pub open spec fn same_ignoring_ascii_case(a: Seq<char>, b: Seq<char>) -> bool {
    &&& a.len() == b.len()
    &&& forall|i: int| 0 <= i < a.len() ==> ascii_lower(#[trigger] a[i]) == ascii_lower(b[i])
}

pub fn eq_ignore_ascii_case(a: &Vec<char>, b: &Vec<char>) -> (same: bool)
    ensures
        same == same_ignoring_ascii_case(a@, b@),
{
    if a.len() != b.len() {
        return false;
    }
    for i in 0..a.len()
        invariant
            a@.len() == b@.len(),
            forall|j: int| 0 <= j < i ==> ascii_lower(#[trigger] a@[j]) == ascii_lower(b@[j]),
    {
        if to_ascii_lower(a[i]) != to_ascii_lower(b[i]) {
            return false;
        }
    }
    true
}

/// Leading whitespace dropped.
pub open spec fn trim_start_spec(s: Seq<char>) -> Seq<char>
    decreases s.len(),
{
    if s.len() > 0 && white(s[0]) {
        trim_start_spec(s.drop_first())
    } else {
        s
    }
}

/// Trailing whitespace dropped.
pub open spec fn trim_end_spec(s: Seq<char>) -> Seq<char>
    decreases s.len(),
{
    if s.len() > 0 && white(s.last()) {
        trim_end_spec(s.drop_last())
    } else {
        s
    }
}

/// `str::trim`: whitespace dropped at both ends.
pub open spec fn trimmed(s: Seq<char>) -> Seq<char> {
    trim_end_spec(trim_start_spec(s))
}

proof fn lemma_trim_start_step(x: Seq<char>)
    requires
        x.len() > 0,
        white(x[0]),
    ensures
        trim_start_spec(x) == trim_start_spec(x.drop_first()),
{
}

proof fn lemma_trim_end_step(x: Seq<char>)
    requires
        x.len() > 0,
        white(x.last()),
    ensures
        trim_end_spec(x) == trim_end_spec(x.drop_last()),
{
}

proof fn lemma_trim_start_stop(x: Seq<char>)
    requires
        x.len() == 0 || !white(x[0]),
    ensures
        trim_start_spec(x) == x,
{
}

proof fn lemma_trim_end_stop(x: Seq<char>)
    requires
        x.len() == 0 || !white(x.last()),
    ensures
        trim_end_spec(x) == x,
{
}

pub fn trim(s: &Vec<char>) -> (out: Vec<char>)
    ensures
        out@ == trimmed(s@),
{
    let n = s.len();
    let mut start: usize = 0;
    assert(s@.subrange(0, n as int) =~= s@);
    while start < n && is_white(s[start])
        invariant
            n == s@.len(),
            start <= n,
            trim_start_spec(s@) == trim_start_spec(s@.subrange(start as int, n as int)),
        decreases n - start,
    {
        proof {
            let x = s@.subrange(start as int, n as int);
            assert(x.drop_first() =~= s@.subrange(start + 1, n as int));
            lemma_trim_start_step(x);
        }
        start = start + 1;
    }
    let mut end: usize = n;
    let ghost mid = s@.subrange(start as int, n as int);
    proof {
        lemma_trim_start_stop(mid);
        assert(trim_start_spec(s@) == mid);
        assert(s@.subrange(start as int, n as int) == mid);
    }
    while end > start && is_white(s[end - 1])
        invariant
            n == s@.len(),
            start <= end <= n,
            mid == s@.subrange(start as int, n as int),
            trim_end_spec(mid) == trim_end_spec(s@.subrange(start as int, end as int)),
        decreases end - start,
    {
        proof {
            let x = s@.subrange(start as int, end as int);
            assert(x.drop_last() =~= s@.subrange(start as int, end - 1));
            lemma_trim_end_step(x);
        }
        end = end - 1;
    }
    proof {
        lemma_trim_end_stop(s@.subrange(start as int, end as int));
    }
    let mut out: Vec<char> = Vec::new();
    for i in start..end
        invariant
            start <= end <= n,
            n == s@.len(),
            out@ == s@.subrange(start as int, i as int),
    {
        out.push(s[i]);
        assert(s@.subrange(start as int, i + 1) == s@.subrange(start as int, i as int).push(s@[i as int]));
    }
    out
}

/// The words of `s`: its runs of non-whitespace, in order
/// (`str::split_whitespace`).
pub open spec fn words_of(s: Seq<char>) -> Seq<Seq<char>>
    decreases s.len(),
{
    if s.len() == 0 {
        seq![]
    } else {
        let before = words_of(s.drop_last());
        let c = s.last();
        if white(c) {
            before
        } else if s.len() >= 2 && !white(s[s.len() - 2]) {
            before.drop_last().push(before.last().push(c))
        } else {
            before.push(seq![c])
        }
    }
}

/// A text that ends in a character other than whitespace has a last word.
pub proof fn lemma_words_end(s: Seq<char>)
    requires
        s.len() > 0,
        !white(s.last()),
    ensures
        words_of(s).len() > 0,
    decreases s.len(),
{
    if s.len() >= 2 && !white(s[s.len() - 2]) {
        assert(s.drop_last().last() == s[s.len() - 2]);
        lemma_words_end(s.drop_last());
    }
}

/// Every word in `words_of` has a first letter.
pub proof fn lemma_words_nonempty(s: Seq<char>)
    ensures
        forall|i: int| 0 <= i < words_of(s).len() ==> #[trigger] words_of(s)[i].len() > 0,
    decreases s.len(),
{
    if s.len() > 0 {
        lemma_words_nonempty(s.drop_last());
        let before = words_of(s.drop_last());
        let c = s.last();
        if !white(c) && s.len() >= 2 && !white(s[s.len() - 2]) {
            if before.len() == 0 {
                // the character before `c` began a word
                assert(s.drop_last().last() == s[s.len() - 2]);
                lemma_words_end(s.drop_last());
            }
        }
    }
}

/// The words of `s`.
pub fn words(s: &str) -> (out: Vec<Vec<char>>)
    ensures
        out@.len() == words_of(s@).len(),
        forall|i: int| 0 <= i < out@.len() ==> #[trigger] out@[i]@ == words_of(s@)[i],
{
    let chars = chars_of(s);
    let n = chars.len();
    let mut out: Vec<Vec<char>> = Vec::new();
    let mut current: Vec<char> = Vec::new();
    let mut in_word = false;
    for i in 0..n
        invariant
            n == chars@.len(),
            chars@ == s@,
            in_word == (i > 0 && !white(chars@[i - 1])),
            in_word ==> {
                &&& words_of(chars@.take(i as int)).len() == out@.len() + 1
                &&& words_of(chars@.take(i as int)).last() == current@
            },
            !in_word ==> words_of(chars@.take(i as int)).len() == out@.len(),
            forall|k: int| 0 <= k < out@.len() ==> #[trigger] out@[k]@ == words_of(chars@.take(i as int))[k],
    {
        let c = chars[i];
        let ghost prefix = chars@.take(i + 1);
        proof {
            assert(prefix.drop_last() =~= chars@.take(i as int));
            assert(prefix.last() == c);
            if i >= 1 {
                assert(prefix[prefix.len() - 2] == chars@[i - 1]);
            }
        }
        if is_white(c) {
            if in_word {
                let mut word: Vec<char> = Vec::new();
                std::mem::swap(&mut word, &mut current);
                out.push(word);
                proof {
                    let w = words_of(chars@.take(i as int));
                    assert forall|k: int| 0 <= k < out@.len() implies #[trigger] out@[k]@ == words_of(prefix)[k] by {
                        if k < out@.len() - 1 {
                        } else {
                            assert(w[k] == w.last());
                        }
                    }
                }
            }
            in_word = false;
        } else {
            proof {
                if in_word {
                    let w = words_of(chars@.take(i as int));
                    assert(words_of(prefix) == w.drop_last().push(w.last().push(c)));
                    assert forall|k: int| 0 <= k < out@.len() implies #[trigger] out@[k]@ == words_of(prefix)[k] by {
                        assert(words_of(prefix)[k] == w[k]);
                    }
                } else {
                    let w = words_of(chars@.take(i as int));
                    assert(words_of(prefix) == w.push(seq![c]));
                }
            }
            if !in_word {
                current = Vec::new();
            }
            current.push(c);
            in_word = true;
            proof {
                let w = words_of(prefix);
                assert(current@ == w.last());
            }
        }
    }
    proof {
        assert(chars@.take(n as int) =~= chars@);
    }
    if in_word {
        out.push(current);
    }
    out
}

/// `words` joined, `sep` between each two.
pub open spec fn joined(words: Seq<Seq<char>>, sep: Seq<char>) -> Seq<char>
    decreases words.len(),
{
    if words.len() == 0 {
        seq![]
    } else if words.len() == 1 {
        words[0]
    } else {
        joined(words.drop_last(), sep) + sep + words.last()
    }
}

/// The decimal digit for `d` (`0..=9`).
pub open spec fn digit(d: nat) -> char {
    (48 + d) as char
}

/// `n` written in decimal, without leading zeros.
pub open spec fn decimal(n: nat) -> Seq<char>
    decreases n,
{
    if n < 10 {
        seq![digit(n)]
    } else {
        decimal(n / 10).push(digit(n % 10))
    }
}

/// Appends `n` in decimal to `out`.
pub fn push_decimal(out: &mut Vec<char>, n: u64)
    ensures
        final(out)@ == old(out)@ + decimal(n as nat),
    decreases n,
{
    if n >= 10 {
        push_decimal(out, n / 10);
    }
    let d = (n % 10) as u8;
    out.push(char_from_ascii(48 + d));
    proof {
        if n >= 10 {
            assert(decimal(n as nat) == decimal((n / 10) as nat).push(digit((n % 10) as nat)));
        }
    }
}

/// `n` in decimal, a minus sign before a negative one.
pub open spec fn signed_decimal(n: int) -> Seq<char> {
    if n < 0 {
        seq!['-'] + decimal((-n) as nat)
    } else {
        decimal(n as nat)
    }
}

/// Appends `n` in decimal to `out`, signed.
pub fn push_signed(out: &mut Vec<char>, n: i64)
    ensures
        final(out)@ == old(out)@ + signed_decimal(n as int),
{
    if n < 0 {
        out.push('-');
        let magnitude: u64 = if n == i64::MIN { 9_223_372_036_854_775_808u64 } else { (-n) as u64 };
        push_decimal(out, magnitude);
        assert(final(out)@ =~= old(out)@ + signed_decimal(n as int));
    } else {
        push_decimal(out, n as u64);
    }
}

/// Wipes a secret: `zeroize`'s `Zeroize` for `String` zeroes its bytes
/// and leaves it empty.
#[verifier::external_body]
pub(crate) fn wipe(secret: &mut String)
    ensures
        final(secret)@ == Seq::<char>::empty(),
{
    zeroize::Zeroize::zeroize(secret);
}

} // verus!
