//! Text as sequences of characters: searching, blank detection and decimal
//! numerals. Every contract here is stated over `Seq<char>`, the view of
//! `str` and `String`.

use vstd::prelude::*;
use vstd::string::StringExecFns;

verus! {

/// Whether `c` has the Unicode `White_Space` property.
pub open spec fn is_whitespace(c: char) -> bool {
    ||| ('\u{9}' <= c && c <= '\u{d}')
    ||| c == ' '
    ||| c == '\u{85}'
    ||| c == '\u{a0}'
    ||| c == '\u{1680}'
    ||| ('\u{2000}' <= c && c <= '\u{200a}')
    ||| c == '\u{2028}'
    ||| c == '\u{2029}'
    ||| c == '\u{202f}'
    ||| c == '\u{205f}'
    ||| c == '\u{3000}'
}

/// A text is blank when nothing but whitespace is in it; the empty text is blank.
pub open spec fn is_blank(text: Seq<char>) -> bool {
    forall|i: int| 0 <= i < text.len() ==> is_whitespace(#[trigger] text[i])
}

/// `needle` stands in `hay` starting at position `at`.
pub open spec fn occurs_at(hay: Seq<char>, needle: Seq<char>, at: int) -> bool {
    &&& 0 <= at
    &&& at + needle.len() <= hay.len()
    &&& hay.subrange(at, at + needle.len()) == needle
}

/// `needle` stands somewhere in `hay`. The empty text occurs in every text.
pub open spec fn contains(hay: Seq<char>, needle: Seq<char>) -> bool {
    exists|at: int| occurs_at(hay, needle, at)
}

/// `at` is the position of the first `c` in `text`.
pub open spec fn is_first_position(text: Seq<char>, c: char, at: int) -> bool {
    &&& 0 <= at < text.len()
    &&& text[at] == c
    &&& forall|j: int| 0 <= j < at ==> text[j] != c
}

/// `at` is the position of the last `c` in `text`.
pub open spec fn is_last_position(text: Seq<char>, c: char, at: int) -> bool {
    &&& 0 <= at < text.len()
    &&& text[at] == c
    &&& forall|j: int| at < j < text.len() ==> text[j] != c
}

/// The position of the first `c` in `text`, if there is one.
pub open spec fn first_position(text: Seq<char>, c: char) -> Option<int> {
    if text.contains(c) {
        Some(choose|at: int| is_first_position(text, c, at))
    } else {
        None
    }
}

/// The position of the last `c` in `text`, if there is one.
pub open spec fn last_position(text: Seq<char>, c: char) -> Option<int> {
    if text.contains(c) {
        Some(choose|at: int| is_last_position(text, c, at))
    } else {
        None
    }
}

/// The decimal digit for a value below ten.
pub open spec fn digit_char(d: nat) -> char {
    if d == 0 {
        '0'
    } else if d == 1 {
        '1'
    } else if d == 2 {
        '2'
    } else if d == 3 {
        '3'
    } else if d == 4 {
        '4'
    } else if d == 5 {
        '5'
    } else if d == 6 {
        '6'
    } else if d == 7 {
        '7'
    } else if d == 8 {
        '8'
    } else {
        '9'
    }
}

/// The decimal numeral of `n`, without sign or leading zeros.
pub open spec fn decimal(n: nat) -> Seq<char>
    decreases n,
{
    if n < 10 {
        seq![digit_char(n)]
    } else {
        decimal(n / 10).push(digit_char(n % 10))
    }
}

/// A first occurrence is unique: two positions that both are the first are equal.
pub proof fn lemma_first_position_unique(text: Seq<char>, c: char, a: int, b: int)
    requires
        is_first_position(text, c, a),
        is_first_position(text, c, b),
    ensures
        a == b,
{
    if a < b {
        assert(text[a] != c);
    } else if b < a {
        assert(text[b] != c);
    }
}

/// A last occurrence is unique: two positions that both are the last are equal.
pub proof fn lemma_last_position_unique(text: Seq<char>, c: char, a: int, b: int)
    requires
        is_last_position(text, c, a),
        is_last_position(text, c, b),
    ensures
        a == b,
{
    if a < b {
        assert(text[b] != c);
    } else if b < a {
        assert(text[a] != c);
    }
}

/// Whatever position is the first occurrence is the one `first_position` names.
pub proof fn lemma_first_position_is(text: Seq<char>, c: char, at: int)
    requires
        is_first_position(text, c, at),
    ensures
        first_position(text, c) == Some(at),
{
    assert(text.contains(c));
    let chosen = choose|i: int| is_first_position(text, c, i);
    lemma_first_position_unique(text, c, at, chosen);
}

/// Whatever position is the last occurrence is the one `last_position` names.
pub proof fn lemma_last_position_is(text: Seq<char>, c: char, at: int)
    requires
        is_last_position(text, c, at),
    ensures
        last_position(text, c) == Some(at),
{
    assert(text.contains(c));
    let chosen = choose|i: int| is_last_position(text, c, i);
    lemma_last_position_unique(text, c, at, chosen);
}

/// The positions that `first_position` and `last_position` name are
/// occurrences of the character with none before, or after, them.
pub proof fn lemma_positions_are_occurrences(text: Seq<char>, c: char)
    ensures
        first_position(text, c) matches Some(at) ==> is_first_position(text, c, at),
        last_position(text, c) matches Some(at) ==> is_last_position(text, c, at),
{
    if text.contains(c) {
        text.index_of_first_ensures(c);
        let first = text.index_of_first(c)->Some_0;
        assert(is_first_position(text, c, first));
        text.index_of_last_ensures(c);
        let last = text.index_of_last(c)->Some_0;
        assert(is_last_position(text, c, last));
    }
}

/// A text that stands between two others occurs in the three put together.
pub proof fn lemma_contains_in_concat(left: Seq<char>, middle: Seq<char>, right: Seq<char>)
    ensures
        contains(left + middle + right, middle),
{
    let whole = left + middle + right;
    let at = left.len() as int;
    assert(whole.subrange(at, at + middle.len()) =~= middle);
    assert(occurs_at(whole, middle, at));
}

/// Containment is transitive.
pub proof fn lemma_contains_transitive(outer: Seq<char>, inner: Seq<char>, needle: Seq<char>)
    requires
        contains(outer, inner),
        contains(inner, needle),
    ensures
        contains(outer, needle),
{
    let a = choose|at: int| occurs_at(outer, inner, at);
    let b = choose|at: int| occurs_at(inner, needle, at);
    assert(outer.subrange(a, a + inner.len()).subrange(b, b + needle.len()) =~= outer.subrange(
        a + b,
        a + b + needle.len(),
    ));
    assert(occurs_at(outer, needle, a + b));
}

/// The characters of `s`, in order.
pub fn chars_of(s: &str) -> (out: Vec<char>)
    ensures
        out@ == s@,
{
    let mut out: Vec<char> = Vec::new();
    for c in it: s.chars()
        invariant
            out@ == it.seq().take(it.index()),
            it.seq() == s@,
    {
        out.push(c);
    }
    out
}

/// Tests one character for the `White_Space` property.
pub fn is_whitespace_char(c: char) -> (b: bool)
    ensures
        b == is_whitespace(c),
{
    if '\u{9}' <= c && c <= '\u{d}' {
        true
    } else if '\u{2000}' <= c && c <= '\u{200a}' {
        true
    } else {
        c == ' ' || c == '\u{85}' || c == '\u{a0}' || c == '\u{1680}' || c == '\u{2028}'
            || c == '\u{2029}' || c == '\u{202f}' || c == '\u{205f}' || c == '\u{3000}'
    }
}

/// Whether nothing would be left of `s` after trimming whitespace from both ends.
pub fn is_blank_text(s: &str) -> (b: bool)
    ensures
        b == is_blank(s@),
{
    for c in it: s.chars()
        invariant
            it.seq() == s@,
            forall|i: int| 0 <= i < it.index() ==> is_whitespace(#[trigger] s@[i]),
    {
        if !is_whitespace_char(c) {
            assert(!is_whitespace(s@[it.index() as int]));
            return false;
        }
    }
    true
}

/// Whether `needle` stands in `hay` at position `at`.
fn matches_at(hay: &Vec<char>, needle: &Vec<char>, at: usize) -> (b: bool)
    requires
        at + needle.len() <= hay.len(),
    ensures
        b == occurs_at(hay@, needle@, at as int),
{
    let mut k: usize = 0;
    while k < needle.len()
        invariant
            k <= needle.len(),
            at + needle.len() <= hay.len(),
            forall|j: int| 0 <= j < k ==> hay@[at + j] == needle@[j],
        decreases needle.len() - k,
    {
        if hay[at + k] != needle[k] {
            assert(hay@.subrange(at as int, at + needle.len())[k as int] != needle@[k as int]);
            return false;
        }
        k += 1;
    }
    assert(hay@.subrange(at as int, at + needle.len()) =~= needle@);
    true
}

/// Substring search: whether `needle` occurs anywhere in `hay`.
pub fn contains_text(hay: &str, needle: &str) -> (found: bool)
    ensures
        found == contains(hay@, needle@),
{
    let h = chars_of(hay);
    let n = chars_of(needle);
    if n.len() > h.len() {
        return false;
    }
    let last: usize = h.len() - n.len();
    let mut at: usize = 0;
    loop
        invariant
            last == h.len() - n.len(),
            n.len() <= h.len(),
            at <= last,
            h@ == hay@,
            n@ == needle@,
            forall|i: int| 0 <= i < at ==> !occurs_at(hay@, needle@, i),
        decreases last - at,
    {
        if matches_at(&h, &n, at) {
            return true;
        }
        if at == last {
            return false;
        }
        at += 1;
    }
}

/// The position of the first `c` among `chars`.
pub fn find_first(chars: &Vec<char>, c: char) -> (found: Option<usize>)
    ensures
        match found {
            Some(at) => first_position(chars@, c) == Some(at as int),
            None => first_position(chars@, c) is None,
        },
{
    let mut at: usize = 0;
    while at < chars.len()
        invariant
            at <= chars.len(),
            forall|j: int| 0 <= j < at ==> chars@[j] != c,
        decreases chars.len() - at,
    {
        if chars[at] == c {
            proof {
                lemma_first_position_is(chars@, c, at as int);
            }
            return Some(at);
        }
        at += 1;
    }
    None
}

/// The position of the last `c` among `chars`.
pub fn find_last(chars: &Vec<char>, c: char) -> (found: Option<usize>)
    ensures
        match found {
            Some(at) => last_position(chars@, c) == Some(at as int),
            None => last_position(chars@, c) is None,
        },
{
    let mut at: usize = chars.len();
    while at > 0
        invariant
            at <= chars.len(),
            forall|j: int| at <= j < chars.len() ==> chars@[j] != c,
        decreases at,
    {
        at -= 1;
        if chars[at] == c {
            proof {
                lemma_last_position_is(chars@, c, at as int);
            }
            return Some(at);
        }
    }
    None
}

/// The one-character text of a decimal digit.
fn digit_text(d: usize) -> (s: &'static str)
    requires
        d < 10,
    ensures
        s@ == seq![digit_char(d as nat)],
{
    proof {
        reveal_strlit("0");
        reveal_strlit("1");
        reveal_strlit("2");
        reveal_strlit("3");
        reveal_strlit("4");
        reveal_strlit("5");
        reveal_strlit("6");
        reveal_strlit("7");
        reveal_strlit("8");
        reveal_strlit("9");
    }
    let s = if d == 0 {
        "0"
    } else if d == 1 {
        "1"
    } else if d == 2 {
        "2"
    } else if d == 3 {
        "3"
    } else if d == 4 {
        "4"
    } else if d == 5 {
        "5"
    } else if d == 6 {
        "6"
    } else if d == 7 {
        "7"
    } else if d == 8 {
        "8"
    } else {
        "9"
    };
    assert(s@ =~= seq![digit_char(d as nat)]);
    s
}

/// Writes `n` as a decimal numeral.
pub fn decimal_string(n: usize) -> (s: String)
    ensures
        s@ == decimal(n as nat),
    decreases n,
{
    if n < 10 {
        String::from_str(digit_text(n))
    } else {
        let mut s = decimal_string(n / 10);
        s.append(digit_text(n % 10));
        assert(s@ =~= decimal((n / 10) as nat).push(digit_char((n % 10) as nat)));
        s
    }
}

} // verus!
