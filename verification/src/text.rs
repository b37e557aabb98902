//! Character and text utilities: whitespace trimming, prefix tests, and
//! extraction of a tagged line's value from multi-line text.

use vstd::prelude::*;
use vstd::string::*;

verus! {

/// The whitespace characters recognised when trimming single-line output.
pub open spec fn is_space_char(c: char) -> bool {
    let u = c as u32;
    ||| u == 0x9
    ||| u == 0xA
    ||| u == 0xB
    ||| u == 0xC
    ||| u == 0xD
    ||| u == 0x20
    ||| u == 0x85
    ||| u == 0xA0
    ||| u == 0x1680
    ||| (0x2000 <= u && u <= 0x200A)
    ||| u == 0x2028
    ||| u == 0x2029
    ||| u == 0x202F
    ||| u == 0x205F
    ||| u == 0x3000
}

pub fn is_space(c: char) -> (r: bool)
    ensures
        r == is_space_char(c),
{
    let u = c as u32;
    u == 0x9 || u == 0xA || u == 0xB || u == 0xC || u == 0xD || u == 0x20 || u == 0x85 || u == 0xA0
        || u == 0x1680 || (0x2000 <= u && u <= 0x200A) || u == 0x2028 || u == 0x2029 || u == 0x202F
        || u == 0x205F || u == 0x3000
}

/// Characters satisfying `p` removed from the front.
pub open spec fn trim_front_by(s: Seq<char>, p: spec_fn(char) -> bool) -> Seq<char>
    decreases s.len(),
{
    if s.len() > 0 && p(s[0]) {
        trim_front_by(s.drop_first(), p)
    } else {
        s
    }
}

/// Characters satisfying `p` removed from the back.
pub open spec fn trim_back_by(s: Seq<char>, p: spec_fn(char) -> bool) -> Seq<char>
    decreases s.len(),
{
    if s.len() > 0 && p(s.last()) {
        trim_back_by(s.drop_last(), p)
    } else {
        s
    }
}

/// Characters satisfying `p` removed from both ends.
pub open spec fn trim_by(s: Seq<char>, p: spec_fn(char) -> bool) -> Seq<char> {
    trim_back_by(trim_front_by(s, p), p)
}

/// Leading and trailing whitespace removed.
pub open spec fn trim_spec(s: Seq<char>) -> Seq<char> {
    trim_by(s, |c: char| is_space_char(c))
}

/// Leading and trailing double-quote characters removed.
pub open spec fn trim_quotes_spec(s: Seq<char>) -> Seq<char> {
    trim_by(s, |c: char| c == '"')
}

proof fn lemma_trim_front_by_skip(s: Seq<char>, p: spec_fn(char) -> bool, i: int)
    requires
        0 <= i <= s.len(),
        forall|j: int| 0 <= j < i ==> p(s[j]),
        i < s.len() ==> !p(s[i]),
    ensures
        trim_front_by(s, p) == s.skip(i),
    decreases i,
{
    if i == 0 {
        assert(s.skip(0) =~= s);
    } else {
        assert(p(s[0]));
        lemma_trim_front_by_skip(s.drop_first(), p, i - 1);
        assert(s.drop_first().skip(i - 1) =~= s.skip(i));
    }
}

proof fn lemma_trim_back_by_take(s: Seq<char>, p: spec_fn(char) -> bool, j: int)
    requires
        0 <= j <= s.len(),
        forall|k: int| j <= k < s.len() ==> p(s[k]),
        j > 0 ==> !p(s[j - 1]),
    ensures
        trim_back_by(s, p) == s.take(j),
    decreases s.len() - j,
{
    if j == s.len() {
        if s.len() > 0 {
            assert(!p(s.last()));
        }
        assert(s.take(j) =~= s);
    } else {
        assert(p(s.last()));
        lemma_trim_back_by_take(s.drop_last(), p, j);
        assert(s.drop_last().take(j) =~= s.take(j));
    }
}

/// Removes characters satisfying the trimming predicate from both ends of
/// `s`, where the executable test `quote` selects between the double-quote
/// predicate and the whitespace predicate.
fn trim_char_test(c: char, quote: bool) -> (r: bool)
    ensures
        quote ==> r == (c == '"'),
        !quote ==> r == is_space_char(c),
{
    if quote {
        c == '"'
    } else {
        is_space(c)
    }
}

fn trim_ends(s: &str, quote: bool) -> (r: String)
    ensures
        quote ==> r@ == trim_quotes_spec(s@),
        !quote ==> r@ == trim_spec(s@),
{
    let ghost p: spec_fn(char) -> bool = if quote {
        |c: char| c == '"'
    } else {
        |c: char| is_space_char(c)
    };
    let len = s.unicode_len();
    let mut i: usize = 0;
    while i < len && trim_char_test(s.get_char(i), quote)
        invariant
            len == s@.len(),
            0 <= i <= len,
            forall|c: char| #[trigger] p(c) == (if quote { c == '"' } else { is_space_char(c) }),
            forall|j: int| 0 <= j < i ==> p(s@[j]),
        decreases len - i,
    {
        i += 1;
    }
    if i == len {
        proof {
            lemma_trim_front_by_skip(s@, p, i as int);
            assert(s@.skip(len as int) =~= Seq::<char>::empty());
            lemma_trim_back_by_take(Seq::<char>::empty(), p, 0);
            assert(Seq::<char>::empty().take(0) =~= Seq::<char>::empty());
        }
        return String::new();
    }
    let mut j: usize = len;
    while j > i + 1 && trim_char_test(s.get_char(j - 1), quote)
        invariant
            len == s@.len(),
            0 <= i < len,
            i + 1 <= j <= len,
            forall|c: char| #[trigger] p(c) == (if quote { c == '"' } else { is_space_char(c) }),
            !p(s@[i as int]),
            forall|k: int| j <= k < len ==> p(s@[k]),
        decreases j,
    {
        j -= 1;
    }
    let out = s.substring_char(i, j);
    proof {
        lemma_trim_front_by_skip(s@, p, i as int);
        let t = s@.skip(i as int);
        if j == i + 1 {
            lemma_trim_back_by_take(t, p, 1);
        } else {
            assert(!p(s@[j - 1]));
            lemma_trim_back_by_take(t, p, j - i);
        }
        assert(t.take(j - i) =~= s@.subrange(i as int, j as int));
    }
    out.to_owned()
}

/// Leading and trailing whitespace removed, for single-line command output
/// such as a version string.
pub fn trim(s: &str) -> (r: String)
    ensures
        r@ == trim_spec(s@),
{
    trim_ends(s, false)
}

/// Leading and trailing double quotes removed, for quoted field values.
pub fn trim_quotes(s: &str) -> (r: String)
    ensures
        r@ == trim_quotes_spec(s@),
{
    trim_ends(s, true)
}

/// True when `p` is a prefix of `s`.
pub fn has_prefix(s: &str, p: &str) -> (r: bool)
    ensures
        r == p@.is_prefix_of(s@),
{
    let slen = s.unicode_len();
    let plen = p.unicode_len();
    if plen > slen {
        return false;
    }
    let mut i: usize = 0;
    while i < plen
        invariant
            slen == s@.len(),
            plen == p@.len(),
            plen <= slen,
            0 <= i <= plen,
            forall|j: int| 0 <= j < i ==> s@[j] == p@[j],
        decreases plen - i,
    {
        if s.get_char(i) != p.get_char(i) {
            assert(!p@.is_prefix_of(s@)) by {
                assert(s@.subrange(0, plen as int)[i as int] == s@[i as int]);
            }
            return false;
        }
        i += 1;
    }
    proof {
        assert(p@ =~= s@.subrange(0, plen as int));
    }
    true
}

/// True when the two texts hold the same characters.
pub fn str_eq(a: &str, b: &str) -> (r: bool)
    ensures
        r == (a@ == b@),
{
    let alen = a.unicode_len();
    let blen = b.unicode_len();
    if alen != blen {
        return false;
    }
    let mut i: usize = 0;
    while i < alen
        invariant
            alen == a@.len(),
            blen == b@.len(),
            alen == blen,
            0 <= i <= alen,
            forall|j: int| 0 <= j < i ==> a@[j] == b@[j],
        decreases alen - i,
    {
        if a.get_char(i) != b.get_char(i) {
            return false;
        }
        i += 1;
    }
    proof {
        assert(a@ =~= b@);
    }
    true
}

/// Index of the first newline in `s`, or `s.len()` when there is none.
pub open spec fn line_end(s: Seq<char>) -> nat
    decreases s.len(),
{
    if s.len() == 0 {
        0
    } else if s[0] == '\n' {
        0
    } else {
        1 + line_end(s.drop_first())
    }
}

proof fn lemma_line_end_is(s: Seq<char>, i: int)
    requires
        0 <= i <= s.len(),
        forall|j: int| 0 <= j < i ==> s[j] != '\n',
        i < s.len() ==> s[i] == '\n',
    ensures
        line_end(s) == i,
    decreases s.len(),
{
    if i == 0 {
        if s.len() > 0 {
            assert(s[0] == '\n');
        }
    } else {
        assert(s[0] != '\n');
        lemma_line_end_is(s.drop_first(), i - 1);
    }
}

/// The value of the first line of `s` that begins with `key`: the rest of
/// that line with surrounding double quotes removed. `None` when no line
/// begins with `key`.
pub open spec fn tagged_value_spec(s: Seq<char>, key: Seq<char>) -> Option<Seq<char>>
    decreases s.len(),
{
    let k = line_end(s);
    let line = s.take(k as int);
    if key.is_prefix_of(line) {
        Some(trim_quotes_spec(line.skip(key.len() as int)))
    } else if k >= s.len() {
        None
    } else {
        tagged_value_spec(s.skip(k as int + 1), key)
    }
}

/// Finds the first line of `content` that begins with `key` and returns the
/// remainder of that line, stripped of surrounding double quotes.
pub fn tagged_line_value(content: &str, key: &str) -> (r: Option<String>)
    ensures
        (r is Some) == (tagged_value_spec(content@, key@) is Some),
        r matches Some(v) ==> tagged_value_spec(content@, key@) matches Some(w) && v@ == w,
    decreases content@.len(),
{
    let len = content.unicode_len();
    let mut k: usize = 0;
    while k < len && content.get_char(k) != '\n'
        invariant
            len == content@.len(),
            0 <= k <= len,
            forall|j: int| 0 <= j < k ==> content@[j] != '\n',
        decreases len - k,
    {
        k += 1;
    }
    proof {
        lemma_line_end_is(content@, k as int);
    }
    let line = content.substring_char(0, k);
    proof {
        assert(line@ =~= content@.take(k as int));
    }
    if has_prefix(line, key) {
        let klen = key.unicode_len();
        let value = line.substring_char(klen, k);
        proof {
            assert(line@.subrange(klen as int, k as int) =~= content@.take(k as int).skip(
                klen as int,
            ));
        }
        Some(trim_quotes(value))
    } else if k == len {
        None
    } else {
        let rest = content.substring_char(k + 1, len);
        proof {
            assert(rest@ =~= content@.skip(k + 1));
        }
        tagged_line_value(rest, key)
    }
}

} // verus!
