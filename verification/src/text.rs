use vstd::prelude::*;
use vstd::string::StrSliceExecFns;

verus! {

/// Whether `c` carries the Unicode `White_Space` property; this is the
/// whitespace notion used for trimming and for the blank-text check.
pub open spec fn is_ws(c: char) -> bool {
    let u = c as u32;
    u == 0x20 || (0x9 <= u && u <= 0xD) || u == 0x85 || u == 0xA0 || u == 0x1680 || (0x2000 <= u
        && u <= 0x200A) || u == 0x2028 || u == 0x2029 || u == 0x202F || u == 0x205F || u == 0x3000
}

/// Whether every character of `s` is whitespace (an empty `s` is blank).
pub open spec fn is_blank(s: Seq<char>) -> bool {
    forall|i: int| 0 <= i < s.len() ==> is_ws(#[trigger] s[i])
}

/// Runtime test for `is_ws`.
pub fn is_ws_char(c: char) -> (r: bool)
    ensures
        r == is_ws(c),
{
    let u = c as u32;
    u == 0x20 || (0x9 <= u && u <= 0xD) || u == 0x85 || u == 0xA0 || u == 0x1680 || (0x2000 <= u
        && u <= 0x200A) || u == 0x2028 || u == 0x2029 || u == 0x202F || u == 0x205F || u == 0x3000
}

/// Runtime test for `is_blank`.
pub fn is_blank_str(s: &str) -> (r: bool)
    ensures
        r == is_blank(s@),
{
    let n = s.unicode_len();
    let mut i: usize = 0;
    while i < n
        invariant
            i <= n,
            n == s@.len(),
            forall|k: int| 0 <= k < i ==> is_ws(#[trigger] s@[k]),
        decreases n - i,
    {
        if !is_ws_char(s.get_char(i)) {
            return false;
        }
        i += 1;
    }
    true
}

/// Index of the first non-whitespace character of `s` at or after `i`
/// (`s.len()` if everything from `i` on is whitespace).
pub open spec fn first_non_ws_from(s: Seq<char>, i: int) -> int
    decreases s.len() - i,
{
    if i < 0 || i >= s.len() {
        s.len() as int
    } else if !is_ws(s[i]) {
        i
    } else {
        first_non_ws_from(s, i + 1)
    }
}

/// One past the index of the last non-whitespace character of `s` strictly
/// before `j` (`0` if everything before `j` is whitespace).
pub open spec fn last_non_ws_before(s: Seq<char>, j: int) -> int
    decreases j,
{
    if j <= 0 || j > s.len() {
        0
    } else if !is_ws(s[j - 1]) {
        j
    } else {
        last_non_ws_before(s, j - 1)
    }
}

/// `s` with leading and trailing whitespace removed.
pub open spec fn trim_spec(s: Seq<char>) -> Seq<char> {
    let a = first_non_ws_from(s, 0);
    let b = last_non_ws_before(s, s.len() as int);
    if a < b {
        s.subrange(a, b)
    } else {
        Seq::empty()
    }
}

proof fn lemma_first_non_ws_props(s: Seq<char>, i: int)
    requires
        0 <= i <= s.len(),
    ensures
        i <= first_non_ws_from(s, i) <= s.len(),
        first_non_ws_from(s, i) < s.len() ==> !is_ws(s[first_non_ws_from(s, i)]),
        forall|k: int| i <= k < first_non_ws_from(s, i) ==> is_ws(#[trigger] s[k]),
    decreases s.len() - i,
{
    if i < s.len() && is_ws(s[i]) {
        lemma_first_non_ws_props(s, i + 1);
    }
}

proof fn lemma_last_non_ws_props(s: Seq<char>, j: int)
    requires
        0 <= j <= s.len(),
    ensures
        0 <= last_non_ws_before(s, j) <= j,
        last_non_ws_before(s, j) > 0 ==> !is_ws(s[last_non_ws_before(s, j) - 1]),
        forall|k: int| last_non_ws_before(s, j) <= k < j ==> is_ws(#[trigger] s[k]),
    decreases j,
{
    if j > 0 && is_ws(s[j - 1]) {
        lemma_last_non_ws_props(s, j - 1);
    }
}

proof fn lemma_first_non_ws_step(s: Seq<char>, i: int)
    requires
        0 <= i < s.len(),
        is_ws(s[i]),
    ensures
        first_non_ws_from(s, i) == first_non_ws_from(s, i + 1),
{
}

proof fn lemma_last_non_ws_step(s: Seq<char>, j: int)
    requires
        0 < j <= s.len(),
        is_ws(s[j - 1]),
    ensures
        last_non_ws_before(s, j) == last_non_ws_before(s, j - 1),
{
}

/// Trimming removes nothing but whitespace, and leaves nothing exactly when
/// the text is blank: the result is empty if and only if every character of
/// `s` is whitespace.
pub proof fn lemma_trim_blank(s: Seq<char>)
    ensures
        is_blank(s) <==> trim_spec(s).len() == 0,
{
    lemma_first_non_ws_props(s, 0);
    lemma_last_non_ws_props(s, s.len() as int);
    let a = first_non_ws_from(s, 0);
    let b = last_non_ws_before(s, s.len() as int);
    if is_blank(s) {
        if a < s.len() {
            assert(!is_ws(s[a]));
            assert(false);
        }
    } else {
        let k = choose|k: int| 0 <= k < s.len() && !is_ws(s[k]);
        assert(a <= k);
        assert(k < b);
    }
}

/// Runtime trim: `s` without leading and trailing whitespace.
pub fn trim_str(s: &str) -> (r: &str)
    ensures
        r@ == trim_spec(s@),
{
    let n = s.unicode_len();
    let mut i: usize = 0;
    while i < n && is_ws_char(s.get_char(i))
        invariant
            i <= n,
            n == s@.len(),
            first_non_ws_from(s@, 0) == first_non_ws_from(s@, i as int),
        decreases n - i,
    {
        proof {
            lemma_first_non_ws_step(s@, i as int);
        }
        i += 1;
    }
    assert(first_non_ws_from(s@, 0) == i as int);
    let mut j: usize = n;
    while j > i && is_ws_char(s.get_char(j - 1))
        invariant
            i <= j <= n,
            n == s@.len(),
            i as int == first_non_ws_from(s@, 0),
            last_non_ws_before(s@, n as int) == last_non_ws_before(s@, j as int),
        decreases j,
    {
        proof {
            lemma_last_non_ws_step(s@, j as int);
        }
        j -= 1;
    }
    if j > i {
        assert(last_non_ws_before(s@, n as int) == j as int);
        let r = s.substring_char(i, j);
        assert(r@ =~= trim_spec(s@));
        r
    } else {
        proof {
            lemma_last_non_ws_props(s@, j as int);
        }
        assert(last_non_ws_before(s@, n as int) <= i as int);
        let r = s.substring_char(0, 0);
        assert(r@ =~= trim_spec(s@));
        r
    }
}

} // verus!
