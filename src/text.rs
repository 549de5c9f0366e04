//! Character-level helpers: whitespace, word splitting, the last component
//! of a path, and the NUL check for strings handed to the kernel.

use vstd::prelude::*;

verus! {

/// The Unicode `White_Space` characters.
pub open spec fn is_ws(c: char) -> bool {
    let u = c as u32;
    (0x09 <= u <= 0x0d) || u == 0x20 || u == 0x85 || u == 0xa0 || u == 0x1680 || (0x2000 <= u
        <= 0x200a) || u == 0x2028 || u == 0x2029 || u == 0x202f || u == 0x205f || u == 0x3000
}

/// The maximal runs of non-whitespace characters of `s`, in order.
pub open spec fn words(s: Seq<char>) -> Seq<Seq<char>>
    decreases s.len(),
{
    if s.len() == 0 {
        seq![]
    } else {
        let w = words(s.drop_last());
        let c = s.last();
        if is_ws(c) {
            w
        } else if s.len() > 1 && !is_ws(s[s.len() - 2]) {
            w.update(w.len() - 1, w.last().push(c))
        } else {
            w.push(seq![c])
        }
    }
}

/// The characters after the last `/` of `s` (all of `s` when it has none).
pub open spec fn base_name(s: Seq<char>) -> Seq<char>
    decreases s.len(),
{
    if s.len() == 0 {
        s
    } else if s.last() == '/' {
        seq![]
    } else {
        base_name(s.drop_last()).push(s.last())
    }
}

/// `s` holds a NUL character, which no C string can carry.
pub open spec fn has_nul(s: Seq<char>) -> bool {
    exists|i: int| 0 <= i < s.len() && s[i] == '\0'
}

pub open spec fn strings_view(v: Seq<String>) -> Seq<Seq<char>> {
    v.map_values(|x: String| x@)
}

/// Whether `c` is a Unicode `White_Space` character.
pub fn is_whitespace(c: char) -> (r: bool)
    ensures
        r == is_ws(c),
{
    let u = c as u32;
    (0x09 <= u && u <= 0x0d) || u == 0x20 || u == 0x85 || u == 0xa0 || u == 0x1680 || (0x2000 <= u
        && u <= 0x200a) || u == 0x2028 || u == 0x2029 || u == 0x202f || u == 0x205f || u == 0x3000
}

/// Whether `s` holds a NUL character.
pub fn contains_nul(s: &str) -> (r: bool)
    ensures
        r == has_nul(s@),
{
    let n = s.unicode_len();
    let mut i: usize = 0;
    while i < n
        invariant
            n == s@.len(),
            i <= n,
            forall|j: int| 0 <= j < i ==> s@[j] != '\0',
        decreases n - i,
    {
        if s.get_char(i) == '\0' {
            return true;
        }
        i = i + 1;
    }
    false
}

/// The last component of the path `s`: what follows its last `/`.
pub fn last_component(s: &str) -> (r: String)
    ensures
        r@ == base_name(s@),
{
    let n = s.unicode_len();
    let mut start: usize = 0;
    let mut i: usize = 0;
    while i < n
        invariant
            n == s@.len(),
            start <= i <= n,
            base_name(s@.take(i as int)) == s@.subrange(start as int, i as int),
        decreases n - i,
    {
        let c = s.get_char(i);
        assert(s@.take(i + 1).drop_last() == s@.take(i as int));
        if c == '/' {
            start = i + 1;
        }
        i = i + 1;
        assert(base_name(s@.take(i as int)) =~= s@.subrange(start as int, i as int));
    }
    assert(s@.take(n as int) == s@);
    s.substring_char(start, n).to_owned()
}

/// The words of `s`: its maximal runs of non-whitespace characters.
pub fn split_words(s: &str) -> (r: Vec<String>)
    ensures
        strings_view(r@) == words(s@),
{
    let n = s.unicode_len();
    let mut out: Vec<String> = Vec::new();
    let mut start: usize = 0;
    let mut in_word = false;
    let mut i: usize = 0;
    while i < n
        invariant
            n == s@.len(),
            start <= i <= n,
            in_word <==> (i > 0 && !is_ws(s@[i - 1])),
            in_word ==> start < i,
            in_word ==> words(s@.take(i as int)) == strings_view(out@).push(
                s@.subrange(start as int, i as int),
            ),
            !in_word ==> words(s@.take(i as int)) == strings_view(out@),
        decreases n - i,
    {
        let c = s.get_char(i);
        let ghost t = s@.take(i + 1);
        assert(t.drop_last() == s@.take(i as int));
        assert(t.last() == c);
        if is_whitespace(c) {
            if in_word {
                let w = s.substring_char(start, i).to_owned();
                let ghost before = out@;
                out.push(w);
                assert(strings_view(out@) =~= strings_view(before).push(w@));
            }
            in_word = false;
        } else {
            if i > 0 {
                assert(t[t.len() - 2] == s@[i - 1]);
            }
            let ghost prev = strings_view(out@);
            if !in_word {
                start = i;
                in_word = true;
                assert(s@.subrange(i as int, i + 1) =~= seq![c]);
                assert(words(t) == prev.push(seq![c]));
            } else {
                let ghost cur = s@.subrange(start as int, i as int);
                assert(words(t) == prev.push(cur).update(prev.len() as int, cur.push(c)));
                assert(prev.push(cur).update(prev.len() as int, cur.push(c)) =~= prev.push(
                    cur.push(c),
                ));
            }
            assert(s@.subrange(start as int, i + 1) =~= s@.subrange(start as int, i as int).push(c));
        }
        i = i + 1;
    }
    assert(s@.take(n as int) == s@);
    if in_word {
        let w = s.substring_char(start, n).to_owned();
        out.push(w);
    }
    proof {
        assert(strings_view(out@) =~= words(s@));
    }
    out
}

} // verus!
