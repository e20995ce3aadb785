use vstd::prelude::*;
use crate::mode::{Mode, mode_word};

verus! {

/// Unicode white space (the `White_Space` property), the class that `\s`
/// stands for in a pattern.
pub open spec fn is_space(c: char) -> bool {
    let u = c as u32;
    (0x09 <= u && u <= 0x0D) || u == 0x20 || u == 0x85 || u == 0xA0 || u == 0x1680
        || (0x2000 <= u && u <= 0x200A) || u == 0x2028 || u == 0x2029 || u == 0x202F
        || u == 0x205F || u == 0x3000
}

pub fn space(c: char) -> (r: bool)
    ensures
        r == is_space(c),
{
    let u = c as u32;
    (0x09 <= u && u <= 0x0D) || u == 0x20 || u == 0x85 || u == 0xA0 || u == 0x1680
        || (0x2000 <= u && u <= 0x200A) || u == 0x2028 || u == 0x2029 || u == 0x202F
        || u == 0x205F || u == 0x3000
}

/// The first index at or after `i` that does not hold white space.
pub open spec fn skip_space(s: Seq<char>, i: int) -> int
    decreases s.len() - i,
{
    if 0 <= i < s.len() && is_space(s[i]) {
        skip_space(s, i + 1)
    } else {
        i
    }
}

/// The end of `s[..j]` once the white space at its end is dropped.
pub open spec fn back_space(s: Seq<char>, j: int) -> int
    decreases j,
{
    if 0 < j <= s.len() && is_space(s[j - 1]) {
        back_space(s, j - 1)
    } else {
        j
    }
}

/// `w` stands in `s` at `a`, within the first `b` characters.
pub open spec fn word_at(s: Seq<char>, a: int, b: int, w: Seq<char>) -> bool {
    a + w.len() <= b && s.subrange(a, a + w.len()) == w
}

/// The action word that stands in `s` at `a`, if any.
pub open spec fn action_at(s: Seq<char>, a: int, b: int) -> Option<Mode> {
    if word_at(s, a, b, "mirror"@) {
        Some(Mode::Mirror)
    } else if word_at(s, a, b, "pair"@) {
        Some(Mode::Pair)
    } else if word_at(s, a, b, "rogue"@) {
        Some(Mode::Rogue)
    } else {
        None
    }
}

/// The shape `<action>[<space><token>]` with white space around it: the
/// action and the candidate session token, which is what is left after the
/// action word and the white space that follows it, up to the trailing white
/// space. Whether the token is made of the right characters is decided apart.
pub open spec fn scan_spec(s: Seq<char>) -> Option<(Mode, Option<Seq<char>>)> {
    let a = skip_space(s, 0);
    let b = back_space(s, s.len() as int);
    if a >= b {
        None
    } else {
        match action_at(s, a, b) {
            None => None,
            Some(m) => {
                let e = a + mode_word(m).len();
                if e == b {
                    Some((m, None))
                } else if is_space(s[e]) {
                    Some((m, Some(s.subrange(skip_space(s, e), b))))
                } else {
                    None
                }
            },
        }
    }
}

pub open spec fn view_opt(o: Option<String>) -> Option<Seq<char>> {
    match o {
        Some(x) => Some(x@),
        None => None,
    }
}

/// Tells whether two texts are equal.
pub fn same_text(a: &str, b: &str) -> (r: bool)
    ensures
        r == (a@ == b@),
{
    let n = a.unicode_len();
    if n != b.unicode_len() {
        return false;
    }
    let mut i: usize = 0;
    while i < n
        invariant
            n == a@.len(),
            n == b@.len(),
            i <= n,
            a@.subrange(0, i as int) == b@.subrange(0, i as int),
        decreases n - i,
    {
        if a.get_char(i) != b.get_char(i) {
            return false;
        }
        assert(a@.subrange(0, i + 1) == a@.subrange(0, i as int).push(a@[i as int]));
        assert(b@.subrange(0, i + 1) == b@.subrange(0, i as int).push(b@[i as int]));
        i = i + 1;
    }
    assert(a@ == a@.subrange(0, n as int));
    assert(b@ == b@.subrange(0, n as int));
    true
}

fn word_at_exec(s: &str, a: usize, b: usize, w: &str) -> (r: bool)
    requires
        a <= b <= s@.len(),
    ensures
        r == word_at(s@, a as int, b as int, w@),
{
    let n = w.unicode_len();
    if n > b - a {
        return false;
    }
    let mut i: usize = 0;
    while i < n
        invariant
            n == w@.len(),
            a + n <= b <= s@.len(),
            i <= n,
            s@.subrange(a as int, a + i) == w@.subrange(0, i as int),
        decreases n - i,
    {
        if s.get_char(a + i) != w.get_char(i) {
            assert(s@.subrange(a as int, a + n)[i as int] == s@[a + i]);
            return false;
        }
        assert(s@.subrange(a as int, a + i + 1) == s@.subrange(a as int, a + i).push(s@[a + i]));
        assert(w@.subrange(0, i + 1) == w@.subrange(0, i as int).push(w@[i as int]));
        i = i + 1;
    }
    assert(w@ == w@.subrange(0, n as int));
    true
}

fn action_at_exec(s: &str, a: usize, b: usize) -> (r: Option<Mode>)
    requires
        a <= b <= s@.len(),
    ensures
        r == action_at(s@, a as int, b as int),
{
    if word_at_exec(s, a, b, "mirror") {
        Some(Mode::Mirror)
    } else if word_at_exec(s, a, b, "pair") {
        Some(Mode::Pair)
    } else if word_at_exec(s, a, b, "rogue") {
        Some(Mode::Rogue)
    } else {
        None
    }
}

fn skip_space_exec(s: &str, n: usize, from: usize) -> (r: usize)
    requires
        n == s@.len(),
        from <= n,
    ensures
        r as int == skip_space(s@, from as int),
        from <= r <= n,
        r < n ==> !is_space(s@[r as int]),
{
    let mut i = from;
    while i < n && space(s.get_char(i))
        invariant
            n == s@.len(),
            from <= i <= n,
            skip_space(s@, i as int) == skip_space(s@, from as int),
        decreases n - i,
    {
        i = i + 1;
    }
    i
}

/// Finds the action word and the candidate session token of a forced-command
/// string.
pub fn scan(s: &str) -> (r: Option<(Mode, Option<String>)>)
    ensures
        match (r, scan_spec(s@)) {
            (None, None) => true,
            (Some((m, t)), Some((m2, t2))) => m == m2 && view_opt(t) == t2,
            _ => false,
        },
{
    let n = s.unicode_len();
    let a = skip_space_exec(s, n, 0);
    let mut b = n;
    while b > 0 && space(s.get_char(b - 1))
        invariant
            n == s@.len(),
            b <= n,
            back_space(s@, b as int) == back_space(s@, n as int),
        decreases b,
    {
        b = b - 1;
    }
    if a >= b {
        return None;
    }
    match action_at_exec(s, a, b) {
        None => None,
        Some(m) => {
            let e = a + m.name().unicode_len();
            if e == b {
                Some((m, None))
            } else if space(s.get_char(e)) {
                let mut c = e;
                while c < b && space(s.get_char(c))
                    invariant
                        n == s@.len(),
                        e <= c < b <= n,
                        !is_space(s@[b - 1]),
                        skip_space(s@, c as int) == skip_space(s@, e as int),
                    decreases b - c,
                {
                    c = c + 1;
                }
                let tok = String::from_str(s.substring_char(c, b));
                Some((m, Some(tok)))
            } else {
                None
            }
        },
    }
}

proof fn lemma_skip_space(s: Seq<char>, i: int)
    requires
        0 <= i <= s.len(),
    ensures
        i <= skip_space(s, i) <= s.len(),
        skip_space(s, i) < s.len() ==> !is_space(s[skip_space(s, i)]),
    decreases s.len() - i,
{
    if i < s.len() && is_space(s[i]) {
        lemma_skip_space(s, i + 1);
    }
}

proof fn lemma_skip_space_stops(s: Seq<char>, i: int, k: int)
    requires
        0 <= i <= k < s.len(),
        !is_space(s[k]),
    ensures
        skip_space(s, i) <= k,
    decreases k - i,
{
    if i < k && is_space(s[i]) {
        lemma_skip_space_stops(s, i + 1, k);
    }
}

proof fn lemma_back_space(s: Seq<char>, j: int)
    requires
        0 <= j <= s.len(),
    ensures
        0 <= back_space(s, j) <= j,
        back_space(s, j) > 0 ==> !is_space(s[back_space(s, j) - 1]),
    decreases j,
{
    if j > 0 && is_space(s[j - 1]) {
        lemma_back_space(s, j - 1);
    }
}

/// Where the shape is found, the candidate token is not empty and has no
/// white space at either end.
pub proof fn lemma_scan_token(s: Seq<char>)
    ensures
        match scan_spec(s) {
            Some((_, Some(t))) => t.len() > 0 && !is_space(t[0]) && !is_space(t[t.len() - 1]),
            _ => true,
        },
{
    let a = skip_space(s, 0);
    let b = back_space(s, s.len() as int);
    lemma_skip_space(s, 0);
    lemma_back_space(s, s.len() as int);
    if a < b {
        if let Some(m) = action_at(s, a, b) {
            let e = a + mode_word(m).len();
            if e < b && is_space(s[e]) {
                lemma_skip_space(s, e);
                lemma_skip_space_stops(s, e, b - 1);
            }
        }
    }
}

} // verus!
