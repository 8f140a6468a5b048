//! Sequences of characters: the operations on text that the rest of the crate is built from.
//!
//! Every operation is defined on `Seq<char>` by a spec function and computed on
//! `&str` by an executable function whose contract equates the two.

use vstd::prelude::*;

verus! {

/// `String::push` appends one character to the end of the string and changes
/// nothing else.
pub assume_specification[ String::push ](s: &mut String, c: char)
    ensures
        final(s)@ == old(s)@.push(c),
;

/// Whether `c` has the Unicode property `White_Space`.
pub open spec fn is_whitespace(c: char) -> bool {
    let n = c as u32;
    ||| 0x09 <= n <= 0x0D
    ||| n == 0x20
    ||| n == 0x85
    ||| n == 0xA0
    ||| n == 0x1680
    ||| 0x2000 <= n <= 0x200A
    ||| n == 0x2028
    ||| n == 0x2029
    ||| n == 0x202F
    ||| n == 0x205F
    ||| n == 0x3000
}

/// `s` without its leading whitespace.
pub open spec fn trim_start(s: Seq<char>) -> Seq<char>
    decreases s.len(),
{
    if s.len() > 0 && is_whitespace(s.first()) {
        trim_start(s.drop_first())
    } else {
        s
    }
}

/// `s` without its trailing whitespace.
pub open spec fn trim_end(s: Seq<char>) -> Seq<char>
    decreases s.len(),
{
    if s.len() > 0 && is_whitespace(s.last()) {
        trim_end(s.drop_last())
    } else {
        s
    }
}

/// `s` without its leading and trailing whitespace.
pub open spec fn trimmed(s: Seq<char>) -> Seq<char> {
    trim_end(trim_start(s))
}

/// `s` with every occurrence of `c` taken out.
pub open spec fn without(s: Seq<char>, c: char) -> Seq<char>
    decreases s.len(),
{
    if s.len() == 0 {
        s
    } else if s.last() == c {
        without(s.drop_last(), c)
    } else {
        without(s.drop_last(), c).push(s.last())
    }
}

/// The pieces of `s` between occurrences of `sep`. With `n` occurrences there
/// are `n + 1` pieces, some of which may be empty.
pub open spec fn split(s: Seq<char>, sep: char) -> Seq<Seq<char>>
    decreases s.len(),
{
    if s.len() == 0 {
        seq![Seq::<char>::empty()]
    } else {
        let before = split(s.drop_last(), sep);
        if s.last() == sep {
            before.push(Seq::<char>::empty())
        } else {
            before.drop_last().push(before.last().push(s.last()))
        }
    }
}

/// The pieces in order, with `sep` between each two neighbours.
pub open spec fn joined(pieces: Seq<Seq<char>>, sep: char) -> Seq<char>
    decreases pieces.len(),
{
    if pieces.len() == 0 {
        Seq::<char>::empty()
    } else if pieces.len() == 1 {
        pieces[0]
    } else {
        joined(pieces.drop_last(), sep).push(sep) + pieces.last()
    }
}

/// `s` with every `from` turned into `to`.
pub open spec fn replaced(s: Seq<char>, from: char, to: char) -> Seq<char> {
    Seq::new(s.len(), |i: int| if s[i] == from { to } else { s[i] })
}

/// `s` with every `c` written twice.
pub open spec fn doubled(s: Seq<char>, c: char) -> Seq<char>
    decreases s.len(),
{
    if s.len() == 0 {
        s
    } else if s.last() == c {
        doubled(s.drop_last(), c).push(c).push(c)
    } else {
        doubled(s.drop_last(), c).push(s.last())
    }
}

/// `s` between two double quotes.
pub open spec fn quoted(s: Seq<char>) -> Seq<char> {
    seq!['"'] + s + seq!['"']
}

/// How often `c` occurs in `s`.
pub open spec fn count(s: Seq<char>, c: char) -> nat
    decreases s.len(),
{
    if s.len() == 0 {
        0
    } else if s.last() == c {
        count(s.drop_last(), c) + 1
    } else {
        count(s.drop_last(), c)
    }
}

/// The views of the strings of `v`, in order.
pub open spec fn views(v: Seq<String>) -> Seq<Seq<char>> {
    Seq::new(v.len(), |i: int| v[i]@)
}

/// The view of the string, if there is one.
pub open spec fn text_of(s: Option<String>) -> Option<Seq<char>> {
    match s {
        Some(s) => Some(s@),
        None => None,
    }
}

/// Splitting cuts once at each separator, no piece holds the separator, and
/// joining the pieces with the separator gives the text back.
pub proof fn lemma_split_joins_back(s: Seq<char>, sep: char)
    ensures
        split(s, sep).len() == count(s, sep) + 1,
        forall|i: int| 0 <= i < split(s, sep).len() ==> !(#[trigger] split(s, sep)[i]).contains(sep),
        joined(split(s, sep), sep) == s,
    decreases s.len(),
{
    if s.len() > 0 {
        let front = s.drop_last();
        let before = split(front, sep);
        lemma_split_joins_back(front, sep);
        assert(front.push(s.last()) == s);
        if s.last() == sep {
            let now = before.push(Seq::<char>::empty());
            assert(now.drop_last() == before);
            assert(joined(now, sep) == front.push(sep));
        } else {
            let grown = before.last().push(s.last());
            let now = before.drop_last().push(grown);
            assert(now.drop_last() == before.drop_last());
            assert forall|i: int| 0 <= i < now.len() implies !(#[trigger] now[i]).contains(sep) by {
                if i < now.len() - 1 {
                    assert(now[i] == before[i]);
                } else {
                    assert forall|k: int| 0 <= k < grown.len() implies grown[k] != sep by {
                        if k < grown.len() - 1 {
                            assert(before.last().contains(before.last()[k]));
                        }
                    }
                }
            }
            if before.len() > 1 {
                assert(joined(now, sep) == (joined(before.drop_last(), sep).push(sep)
                    + before.last()).push(s.last()));
            }
        }
    }
}

/// Replacing `from` by `to` moves the occurrences of `from` over to `to` and
/// leaves every other character's count as it was.
pub proof fn lemma_count_replaced(s: Seq<char>, from: char, to: char, c: char)
    requires
        from != to,
    ensures
        c == from ==> count(replaced(s, from, to), c) == 0,
        c == to ==> count(replaced(s, from, to), c) == count(s, from) + count(s, to),
        c != from && c != to ==> count(replaced(s, from, to), c) == count(s, c),
    decreases s.len(),
{
    if s.len() > 0 {
        lemma_count_replaced(s.drop_last(), from, to, c);
        assert(replaced(s, from, to).drop_last() == replaced(s.drop_last(), from, to));
    }
}

/// One more character at the end counts once if it is the one counted.
pub proof fn lemma_count_push(s: Seq<char>, last: char, c: char)
    ensures
        last == c ==> count(s.push(last), c) == count(s, c) + 1,
        last != c ==> count(s.push(last), c) == count(s, c),
{
    assert(s.push(last).drop_last() == s);
}

/// Doubling `c` doubles its count and leaves every other character's count
/// as it was.
pub proof fn lemma_count_doubled(s: Seq<char>, c: char, d: char)
    ensures
        d == c ==> count(doubled(s, c), d) == 2 * count(s, c),
        d != c ==> count(doubled(s, c), d) == count(s, d),
    decreases s.len(),
{
    if s.len() > 0 {
        let before = doubled(s.drop_last(), c);
        lemma_count_doubled(s.drop_last(), c, d);
        if s.last() == c {
            lemma_count_push(before, c, d);
            lemma_count_push(before.push(c), c, d);
        } else {
            lemma_count_push(before, s.last(), d);
        }
    }
}

/// Quoting adds two double quotes and no other character.
pub proof fn lemma_count_quoted(s: Seq<char>, c: char)
    ensures
        c == '"' ==> count(quoted(s), c) == count(s, c) + 2,
        c != '"' ==> count(quoted(s), c) == count(s, c),
{
    lemma_count_prepended(s, '"', c);
    lemma_count_push(seq!['"'] + s, '"', c);
    assert(quoted(s) == (seq!['"'] + s).push('"'));
}

/// A character in front counts once if it is the one counted.
pub proof fn lemma_count_prepended(s: Seq<char>, head: char, c: char)
    ensures
        head == c ==> count(seq![head] + s, c) == count(s, c) + 1,
        head != c ==> count(seq![head] + s, c) == count(s, c),
    decreases s.len(),
{
    if s.len() == 0 {
        assert(seq![head] + s == Seq::<char>::empty().push(head));
        lemma_count_push(Seq::<char>::empty(), head, c);
    } else {
        lemma_count_prepended(s.drop_last(), head, c);
        assert(seq![head] + s == (seq![head] + s.drop_last()).push(s.last()));
        lemma_count_push(seq![head] + s.drop_last(), s.last(), c);
    }
}

/// Doubling keeps the first and the last character of a text that neither
/// begins nor ends with the doubled character.
pub proof fn lemma_doubled_ends(s: Seq<char>, c: char)
    requires
        s.len() > 0,
        s.first() != c,
        s.last() != c,
    ensures
        doubled(s, c).len() >= s.len(),
        doubled(s, c).first() == s.first(),
        doubled(s, c).last() == s.last(),
{
    lemma_doubled_front(s, c);
}

/// Doubling keeps the first character of a text that does not begin with the
/// doubled character, and makes no text shorter.
pub proof fn lemma_doubled_front(s: Seq<char>, c: char)
    ensures
        doubled(s, c).len() >= s.len(),
        s.len() > 0 && s.first() != c ==> doubled(s, c).first() == s.first(),
    decreases s.len(),
{
    if s.len() > 0 {
        lemma_doubled_front(s.drop_last(), c);
    }
}

/// Whether `c` is whitespace.
pub fn whitespace(c: char) -> (r: bool)
    ensures
        r == is_whitespace(c),
{
    let n: u32 = c as u32;
    (0x09 <= n && n <= 0x0D) || n == 0x20 || n == 0x85 || n == 0xA0 || n == 0x1680 || (0x2000 <= n
        && n <= 0x200A) || n == 0x2028 || n == 0x2029 || n == 0x202F || n == 0x205F || n == 0x3000
}

/// The characters of `s`, in order.
pub fn chars_of(s: &str) -> (v: Vec<char>)
    ensures
        v@ == s@,
{
    let mut v: Vec<char> = Vec::new();
    for c in it: s.chars()
        invariant
            it.seq() == s@,
            v@ == s@.take(it.index()),
    {
        v.push(c);
    }
    v
}

/// The string that holds the characters of `v` from `from` up to `to`.
pub fn string_of(v: &Vec<char>, from: usize, to: usize) -> (s: String)
    requires
        from <= to <= v.len(),
    ensures
        s@ == v@.subrange(from as int, to as int),
{
    let mut s = String::new();
    let mut i: usize = from;
    while i < to
        invariant
            from <= i <= to <= v.len(),
            s@ == v@.subrange(from as int, i as int),
        decreases to - i,
    {
        s.push(v[i]);
        i = i + 1;
    }
    s
}

proof fn lemma_trim_start(s: Seq<char>, n: int)
    requires
        0 <= n <= s.len(),
        forall|k: int| 0 <= k < n ==> is_whitespace(s[k]),
        n < s.len() ==> !is_whitespace(s[n]),
    ensures
        trim_start(s) == s.skip(n),
    decreases n,
{
    if n == 0 {
        assert(s.skip(0) == s);
    } else {
        let rest = s.drop_first();
        assert forall|k: int| 0 <= k < n - 1 implies is_whitespace(rest[k]) by {
            assert(rest[k] == s[k + 1]);
        }
        lemma_trim_start(rest, n - 1);
        assert(rest.skip(n - 1) == s.skip(n));
    }
}

proof fn lemma_trim_end(s: Seq<char>, n: int)
    requires
        0 <= n <= s.len(),
        forall|k: int| n <= k < s.len() ==> is_whitespace(s[k]),
        n > 0 ==> !is_whitespace(s[n - 1]),
    ensures
        trim_end(s) == s.take(n),
    decreases s.len() - n,
{
    if n == s.len() {
        assert(s.take(n) == s);
    } else {
        let rest = s.drop_last();
        lemma_trim_end(rest, n);
        assert(rest.take(n) == s.take(n));
    }
}

/// `s` without its leading and trailing whitespace.
pub fn trim(s: &str) -> (r: String)
    ensures
        r@ == trimmed(s@),
{
    let v = chars_of(s);
    let mut start: usize = 0;
    while start < v.len() && whitespace(v[start])
        invariant
            start <= v.len(),
            forall|k: int| 0 <= k < start ==> is_whitespace(v@[k]),
        decreases v.len() - start,
    {
        start = start + 1;
    }
    let mut end: usize = v.len();
    while end > start && whitespace(v[end - 1])
        invariant
            start <= end <= v.len(),
            forall|k: int| end <= k < v.len() ==> is_whitespace(v@[k]),
        decreases end,
    {
        end = end - 1;
    }
    proof {
        lemma_trim_start(v@, start as int);
        let tail = v@.skip(start as int);
        assert forall|k: int| end - start <= k < tail.len() implies is_whitespace(tail[k]) by {
            assert(tail[k] == v@[k + start]);
        }
        if end > start {
            assert(tail[end - start - 1] == v@[end - 1]);
        }
        lemma_trim_end(tail, end - start);
        assert(tail.take(end - start) == v@.subrange(start as int, end as int));
    }
    string_of(&v, start, end)
}

/// `s` with every occurrence of `c` taken out.
pub fn remove_char(s: &str, c: char) -> (r: String)
    ensures
        r@ == without(s@, c),
{
    let mut r = String::new();
    for x in it: s.chars()
        invariant
            it.seq() == s@,
            r@ == without(s@.take(it.index()), c),
    {
        proof {
            assert(s@.take(it.index() + 1).drop_last() == s@.take(it.index()));
        }
        if x != c {
            r.push(x);
        }
    }
    proof {
        assert(s@.take(s@.len() as int) == s@);
    }
    r
}

/// The pieces of `s` between occurrences of `sep`.
pub fn split_on(s: &str, sep: char) -> (r: Vec<String>)
    ensures
        views(r@) == split(s@, sep),
{
    let mut done: Vec<String> = Vec::new();
    let mut piece = String::new();
    for x in it: s.chars()
        invariant
            it.seq() == s@,
            views(done@).push(piece@) == split(s@.take(it.index()), sep),
    {
        proof {
            assert(s@.take(it.index() + 1).drop_last() == s@.take(it.index()));
        }
        let ghost before = views(done@).push(piece@);
        if x == sep {
            done.push(piece);
            piece = String::new();
            proof {
                assert(views(done@) == before);
            }
        } else {
            piece.push(x);
            proof {
                assert(before.drop_last() == views(done@));
            }
        }
    }
    proof {
        assert(s@.take(s@.len() as int) == s@);
    }
    let ghost all = views(done@).push(piece@);
    done.push(piece);
    proof {
        assert(views(done@) == all);
    }
    done
}

/// `s` with every `from` turned into `to`.
pub fn replace_char(s: &str, from: char, to: char) -> (r: String)
    ensures
        r@ == replaced(s@, from, to),
{
    let mut r = String::new();
    for x in it: s.chars()
        invariant
            it.seq() == s@,
            r@ == replaced(s@.take(it.index()), from, to),
    {
        if x == from {
            r.push(to);
        } else {
            r.push(x);
        }
        proof {
            assert(r@ == replaced(s@.take(it.index() + 1), from, to));
        }
    }
    proof {
        assert(s@.take(s@.len() as int) == s@);
    }
    r
}

/// `s` with every `c` written twice.
pub fn double_char(s: &str, c: char) -> (r: String)
    ensures
        r@ == doubled(s@, c),
{
    let mut r = String::new();
    for x in it: s.chars()
        invariant
            it.seq() == s@,
            r@ == doubled(s@.take(it.index()), c),
    {
        proof {
            assert(s@.take(it.index() + 1).drop_last() == s@.take(it.index()));
        }
        r.push(x);
        if x == c {
            r.push(x);
        }
    }
    proof {
        assert(s@.take(s@.len() as int) == s@);
    }
    r
}

/// `s` between two double quotes.
pub fn quote(s: &str) -> (r: String)
    ensures
        r@ == quoted(s@),
{
    let mut r = String::new();
    r.push('"');
    r.append(s);
    r.push('"');
    r
}

} // verus!
