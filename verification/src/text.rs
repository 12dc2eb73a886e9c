//! Text helpers shared by the generators: decimal rendering and small scans.

use vstd::prelude::*;

verus! {

/// The character that stands for the digit `d`, for `d` below ten.
pub open spec fn digit_char(d: nat) -> char {
    if d == 0 {
        '0'
    } else if d == 1 {
        '1'
    } else if d == 2 {
        '2'
    } else if d == 3 {
        '3'
    } else if d == 4 {
        '4'
    } else if d == 5 {
        '5'
    } else if d == 6 {
        '6'
    } else if d == 7 {
        '7'
    } else if d == 8 {
        '8'
    } else {
        '9'
    }
}

/// The decimal numeral of `n`, without sign or leading zeros.
pub open spec fn decimal(n: nat) -> Seq<char>
    decreases n,
{
    if n < 10 {
        seq![digit_char(n)]
    } else {
        decimal(n / 10).push(digit_char(n % 10))
    }
}

fn digit_str(d: u64) -> (s: &'static str)
    requires
        d < 10,
    ensures
        s@ == seq![digit_char(d as nat)],
{
    proof {
        reveal_strlit("0");
        reveal_strlit("1");
        reveal_strlit("2");
        reveal_strlit("3");
        reveal_strlit("4");
        reveal_strlit("5");
        reveal_strlit("6");
        reveal_strlit("7");
        reveal_strlit("8");
        reveal_strlit("9");
    }
    if d == 0 {
        "0"
    } else if d == 1 {
        "1"
    } else if d == 2 {
        "2"
    } else if d == 3 {
        "3"
    } else if d == 4 {
        "4"
    } else if d == 5 {
        "5"
    } else if d == 6 {
        "6"
    } else if d == 7 {
        "7"
    } else if d == 8 {
        "8"
    } else {
        "9"
    }
}

/// Renders `n` in decimal.
pub fn decimal_string(n: u64) -> (s: String)
    ensures
        s@ == decimal(n as nat),
    decreases n,
{
    if n < 10 {
        let mut s = String::new();
        s.append(digit_str(n));
        assert(s@ =~= decimal(n as nat));
        s
    } else {
        let mut s = decimal_string(n / 10);
        s.append(digit_str(n % 10));
        assert(s@ =~= decimal(n as nat));
        s
    }
}

/// Whether two texts hold the same characters.
pub fn same_text(a: &str, b: &str) -> (r: bool)
    ensures
        r == (a@ == b@),
{
    let n: usize = a.unicode_len();
    if n != b.unicode_len() {
        return false;
    }
    let mut i: usize = 0;
    while i < n
        invariant
            i <= n,
            n == a@.len(),
            n == b@.len(),
            forall|k: int| 0 <= k < i ==> a@[k] == b@[k],
        decreases n - i,
    {
        if a.get_char(i) != b.get_char(i) {
            return false;
        }
        i = i + 1;
    }
    assert(a@ =~= b@);
    true
}

/// Whether a path ends in `.dll`, in any mix of upper and lower case.
pub open spec fn has_dll_suffix(path: Seq<char>) -> bool {
    let n = path.len() as int;
    &&& n >= 4
    &&& path[n - 4] == '.'
    &&& (path[n - 3] == 'd' || path[n - 3] == 'D')
    &&& (path[n - 2] == 'l' || path[n - 2] == 'L')
    &&& (path[n - 1] == 'l' || path[n - 1] == 'L')
}

/// A path without its `.dll` ending, if it has one.
pub open spec fn without_dll_suffix(path: Seq<char>) -> Seq<char> {
    if has_dll_suffix(path) {
        path.subrange(0, path.len() - 4)
    } else {
        path
    }
}

/// Drops a trailing `.dll`, whatever its case, from a library's path.
pub fn strip_dll_suffix<'a>(path: &'a str) -> (base: &'a str)
    ensures
        base@ == without_dll_suffix(path@),
{
    let n: usize = path.unicode_len();
    if n < 4 {
        return path;
    }
    let dot = path.get_char(n - 4);
    let d = path.get_char(n - 3);
    let l1 = path.get_char(n - 2);
    let l2 = path.get_char(n - 1);
    if dot == '.' && (d == 'd' || d == 'D') && (l1 == 'l' || l1 == 'L') && (l2 == 'l' || l2
        == 'L') {
        path.substring_char(0, n - 4)
    } else {
        path
    }
}

/// A text without the run of `c` that it starts with.
pub open spec fn without_leading(s: Seq<char>, c: char) -> Seq<char>
    decreases s.len(),
{
    if s.len() > 0 && s[0] == c {
        without_leading(s.drop_first(), c)
    } else {
        s
    }
}

/// Dropping a leading run of `c` leaves what follows the first other character.
proof fn lemma_without_leading(s: Seq<char>, c: char, k: int)
    requires
        0 <= k <= s.len(),
        forall|j: int| 0 <= j < k ==> s[j] == c,
        k == s.len() || s[k] != c,
    ensures
        without_leading(s, c) == s.subrange(k, s.len() as int),
    decreases k,
{
    if k == 0 {
        assert(s.subrange(0, s.len() as int) =~= s);
    } else {
        let t = s.drop_first();
        assert(forall|j: int| 0 <= j < k - 1 ==> t[j] == s[j + 1]);
        lemma_without_leading(t, c, k - 1);
        assert(t.subrange(k - 1, t.len() as int) =~= s.subrange(k, s.len() as int));
    }
}

/// Drops every `c` that a text starts with.
pub fn trim_leading(s: &str, c: char) -> (r: String)
    ensures
        r@ == without_leading(s@, c),
{
    let n: usize = s.unicode_len();
    let mut k: usize = 0;
    loop
        invariant_except_break
            k <= n,
            n == s@.len(),
            forall|j: int| 0 <= j < k ==> s@[j] == c,
        ensures
            k <= n,
            n == s@.len(),
            forall|j: int| 0 <= j < k ==> s@[j] == c,
            k == n || s@[k as int] != c,
        decreases n - k,
    {
        if k == n {
            break;
        }
        if s.get_char(k) != c {
            break;
        }
        k = k + 1;
    }
    proof {
        lemma_without_leading(s@, c, k as int);
    }
    s.substring_char(k, n).to_owned()
}

/// The characters of a text, one by one.
pub fn chars_of(s: &str) -> (chars: Vec<char>)
    ensures
        chars@ == s@,
{
    let mut chars: Vec<char> = Vec::new();
    for c in it: s.chars()
        invariant
            it.seq() == s@,
            chars@ == s@.subrange(0, it.index() as int),
    {
        chars.push(c);
        assert(chars@ =~= s@.subrange(0, it.index() + 1));
    }
    assert(s@.subrange(0, s@.len() as int) =~= s@);
    chars
}

/// Whether `needle` stands in `haystack` at position `at`.
pub open spec fn occurs_at(haystack: Seq<char>, needle: Seq<char>, at: int) -> bool {
    0 <= at && at + needle.len() <= haystack.len() && haystack.subrange(
        at,
        at + needle.len() as int,
    ) == needle
}

/// Whether `needle` stands somewhere in `haystack`.
pub open spec fn contains_text(haystack: Seq<char>, needle: Seq<char>) -> bool {
    exists|at: int| occurs_at(haystack, needle, at)
}

/// Decides whether `needle` stands in `haystack` at position `at`.
fn matches_at(haystack: &Vec<char>, needle: &Vec<char>, at: usize) -> (r: bool)
    requires
        at + needle@.len() <= haystack@.len(),
    ensures
        r == occurs_at(haystack@, needle@, at as int),
{
    assert(haystack@.len() == haystack.len());
    let mut k: usize = 0;
    while k < needle.len()
        invariant
            haystack@.len() <= usize::MAX,
            at + needle@.len() <= haystack@.len(),
            k <= needle@.len(),
            forall|j: int| 0 <= j < k ==> haystack@[at + j] == needle@[j],
        decreases needle@.len() - k,
    {
        if haystack[at + k] != needle[k] {
            assert(haystack@.subrange(at as int, at + needle@.len() as int)[k as int]
                != needle@[k as int]);
            return false;
        }
        k = k + 1;
    }
    assert(haystack@.subrange(at as int, at + needle@.len() as int) =~= needle@);
    true
}

/// Decides whether one text holds another.
pub fn has_text(haystack: &str, needle: &str) -> (r: bool)
    ensures
        r == contains_text(haystack@, needle@),
{
    let hay = chars_of(haystack);
    let pin = chars_of(needle);
    if pin.len() > hay.len() {
        assert(!contains_text(haystack@, needle@));
        return false;
    }
    let last: usize = hay.len() - pin.len();
    let mut at: usize = 0;
    loop
        invariant_except_break
            hay@ == haystack@,
            pin@ == needle@,
            last + pin@.len() == hay@.len(),
            at <= last,
            forall|i: int| 0 <= i < at ==> !occurs_at(haystack@, needle@, i),
        ensures
            last + pin@.len() == haystack@.len(),
            pin@ == needle@,
            forall|i: int| 0 <= i <= last ==> !occurs_at(haystack@, needle@, i),
        decreases last - at,
    {
        if matches_at(&hay, &pin, at) {
            return true;
        }
        if at == last {
            break;
        }
        at = at + 1;
    }
    assert(!contains_text(haystack@, needle@)) by {
        assert forall|i: int| !occurs_at(haystack@, needle@, i) by {
            if 0 <= i && i + needle@.len() <= haystack@.len() {
                assert(i <= last);
            }
        }
    }
    false
}

/// A list of texts, each as its characters.
pub open spec fn texts(list: Seq<String>) -> Seq<Seq<char>> {
    Seq::new(list.len(), |i: int| list[i]@)
}

} // verus!
