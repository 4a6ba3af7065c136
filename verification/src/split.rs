//! Cutting text into pieces, lines and words.

use crate::text::{chars_of, is_white, stands_at, string_of, texts, trim_front, white};
use vstd::prelude::*;

verus! {

/// Where text is cut.
pub enum Cut {
    /// At each occurrence of one character.
    At(char),
    /// At each white space character.
    AtWhite,
}

/// Whether `c` is a place to cut.
pub open spec fn is_cut(cut: Cut, c: char) -> bool {
    match cut {
        Cut::At(x) => c == x,
        Cut::AtWhite => is_white(c),
    }
}

/// `parts` with `c` added to the last part.
pub open spec fn extend_last(parts: Seq<Seq<char>>, c: char) -> Seq<Seq<char>> {
    parts.drop_last().push(parts.last().push(c))
}

/// Whether a list of `count` pieces may grow.
pub open spec fn may_grow(count: nat, limit: Option<usize>) -> bool {
    match limit {
        Some(most) => count < most,
        None => true,
    }
}

/// The pieces of `s` between the cuts, at most `limit` of them: a cut starts a
/// new piece as long as there are fewer than `limit`, every other character
/// belongs to the piece before it.
pub open spec fn pieces(s: Seq<char>, cut: Cut, limit: Option<usize>) -> Seq<Seq<char>>
    decreases s.len(),
{
    if s.len() == 0 {
        seq![Seq::empty()]
    } else {
        let before = pieces(s.drop_last(), cut, limit);
        if is_cut(cut, s.last()) && may_grow(before.len(), limit) {
            before.push(Seq::empty())
        } else {
            extend_last(before, s.last())
        }
    }
}

/// The pieces of `s` between the cuts, at most `limit` of them.
pub fn split(s: &str, cut: Cut, limit: Option<usize>) -> (r: Vec<String>)
    ensures
        texts(r@) == pieces(s@, cut, limit),
        r@.len() >= 1,
{
    let v = chars_of(s);
    let n = v.len();
    let mut done: Vec<String> = Vec::new();
    let mut start: usize = 0;
    let mut i: usize = 0;
    assert(s@.take(0) =~= Seq::empty());
    assert(texts(done@).push(v@.subrange(0, 0)) =~= seq![Seq::empty()]);
    while i < n
        invariant
            v@ == s@,
            n == v@.len(),
            start <= i <= n,
            done@.len() <= start,
            texts(done@).push(v@.subrange(start as int, i as int)) == pieces(
                s@.take(i as int),
                cut,
                limit,
            ),
        decreases n - i,
    {
        let ghost before = pieces(s@.take(i as int), cut, limit);
        assert(s@.take(i + 1).drop_last() =~= s@.take(i as int));
        let c = v[i];
        let here = match cut {
            Cut::At(x) => c == x,
            Cut::AtWhite => white(c),
        };
        let room = match limit {
            Some(most) => done.len() + 1 < most,
            None => true,
        };
        if here && room {
            done.push(string_of(&v, start, i));
            start = i + 1;
            assert(texts(done@) =~= before);
            assert(v@.subrange(start as int, i + 1) =~= Seq::empty());
        } else {
            assert(texts(done@) =~= before.drop_last());
            assert(v@.subrange(start as int, i + 1) =~= before.last().push(c));
        }
        i += 1;
    }
    assert(s@.take(n as int) =~= s@);
    let ghost before = texts(done@).push(v@.subrange(start as int, n as int));
    done.push(string_of(&v, start, n));
    assert(texts(done@) =~= before);
    done
}

/// Whether a piece holds anything.
pub open spec fn not_empty() -> spec_fn(Seq<char>) -> bool {
    |p: Seq<char>| p.len() > 0
}

/// The strings of a list that hold anything, in order.
pub fn keep_nonempty(list: Vec<String>) -> (r: Vec<String>)
    ensures
        texts(r@) == texts(list@).filter(not_empty()),
{
    let n = list.len();
    let mut r: Vec<String> = Vec::new();
    let mut i: usize = 0;
    let ghost all = texts(list@);
    assert(all.take(0) =~= Seq::empty());
    reveal(Seq::filter);
    while i < n
        invariant
            n == list@.len(),
            i <= n,
            all == texts(list@),
            texts(r@) == all.take(i as int).filter(not_empty()),
        decreases n - i,
    {
        reveal(Seq::filter);
        assert(all.take(i + 1).drop_last() =~= all.take(i as int));
        let ghost before = texts(r@);
        if !list[i].as_str().is_empty() {
            r.push(list[i].clone());
            assert(texts(r@) =~= before.push(all[i as int]));
        }
        i += 1;
    }
    assert(all.take(n as int) =~= all);
    r
}

/// The words of `s`: what stands between white space.
pub open spec fn words(s: Seq<char>) -> Seq<Seq<char>> {
    pieces(s, Cut::AtWhite, None).filter(not_empty())
}

/// The words of `s`.
pub fn split_words(s: &str) -> (r: Vec<String>)
    ensures
        texts(r@) == words(s@),
{
    keep_nonempty(split(s, Cut::AtWhite, None))
}

/// A line without the carriage return that its line break may have begun with.
pub open spec fn without_return(s: Seq<char>) -> Seq<char> {
    if s.len() > 0 && s.last() == '\r' {
        s.drop_last()
    } else {
        s
    }
}

/// The lines of `s`. A line ends with a line feed, or a carriage return and a
/// line feed; what follows the last line feed is a line if it holds anything.
pub open spec fn lines_of(s: Seq<char>) -> Seq<Seq<char>> {
    let parts = pieces(s, Cut::At('\n'), None);
    let ended = parts.drop_last().map_values(|p: Seq<char>| without_return(p));
    if parts.last().len() == 0 {
        ended
    } else {
        ended.push(parts.last())
    }
}

/// The lines of `s`.
pub fn lines(s: &str) -> (r: Vec<String>)
    ensures
        texts(r@) == lines_of(s@),
{
    let parts = split(s, Cut::At('\n'), None);
    let n = parts.len();
    let mut r: Vec<String> = Vec::new();
    let mut i: usize = 0;
    let ghost all = texts(parts@);
    let ghost ended = all.drop_last().map_values(|p: Seq<char>| without_return(p));
    while i + 1 < n
        invariant
            n == parts@.len(),
            n >= 1,
            i + 1 <= n,
            all == texts(parts@),
            ended == all.drop_last().map_values(|p: Seq<char>| without_return(p)),
            texts(r@) == ended.take(i as int),
        decreases n - i,
    {
        let v = chars_of(parts[i].as_str());
        let m = v.len();
        let to = if m > 0 && v[m - 1] == '\r' {
            m - 1
        } else {
            m
        };
        let ghost before = texts(r@);
        r.push(string_of(&v, 0, to));
        assert(v@.subrange(0, to as int) =~= ended[i as int]);
        assert(texts(r@) =~= before.push(ended[i as int]));
        assert(ended.take(i + 1) =~= ended.take(i as int).push(ended[i as int]));
        i += 1;
    }
    assert(ended.take(n - 1) =~= ended);
    if !parts[n - 1].as_str().is_empty() {
        let ghost before = texts(r@);
        r.push(parts[n - 1].clone());
        assert(texts(r@) =~= before.push(all.last()));
    }
    r
}

/// `s` without the occurrences of `part`, found from the front and not
/// overlapping.
pub open spec fn removed(s: Seq<char>, part: Seq<char>) -> Seq<char>
    decreases s.len(),
{
    if part.len() == 0 || s.len() < part.len() {
        s
    } else if s.take(part.len() as int) == part {
        removed(s.skip(part.len() as int), part)
    } else {
        seq![s[0]] + removed(s.drop_first(), part)
    }
}

/// A front in which no occurrence begins stays as it is.
pub proof fn lemma_removed_behind(front: Seq<char>, rest: Seq<char>, part: Seq<char>)
    requires
        forall|k: int| 0 <= k < front.len() ==> !#[trigger] stands_at(front + rest, part, k),
    ensures
        removed(front + rest, part) == front + removed(rest, part),
    decreases front.len(),
{
    let s = front + rest;
    if front.len() == 0 {
        assert(s =~= rest);
        assert(front + removed(rest, part) =~= removed(rest, part));
    } else if part.len() == 0 || s.len() < part.len() {
    } else {
        let m = part.len() as int;
        assert(!stands_at(s, part, 0));
        assert(s.take(m) =~= s.subrange(0, m));
        let tail = front.drop_first();
        assert(s.drop_first() =~= tail + rest);
        assert forall|k: int| 0 <= k < tail.len() implies !#[trigger] stands_at(
            tail + rest,
            part,
            k,
        ) by {
            assert(!stands_at(s, part, k + 1));
            if k + m <= (tail + rest).len() {
                assert((tail + rest).subrange(k, k + m) =~= s.subrange(k + 1, k + 1 + m));
            }
        }
        lemma_removed_behind(tail, rest, part);
        assert(seq![s[0]] + (tail + removed(rest, part)) =~= front + removed(rest, part));
    }
}

/// What is left of a text that does not begin like `part` begins so too.
pub proof fn lemma_removed_keeps_first(s: Seq<char>, part: Seq<char>)
    requires
        part.len() > 0,
        s.len() > 0 ==> s[0] != part[0],
    ensures
        s.len() > 0 ==> removed(s, part).len() > 0 && removed(s, part)[0] == s[0],
        s.len() == 0 ==> removed(s, part).len() == 0,
{
    if s.len() >= part.len() {
        assert(s.take(part.len() as int)[0] == s[0]);
    }
}

/// A text up to the first cut is the first piece.
pub proof fn lemma_first_piece(front: Seq<char>, rest: Seq<char>, cut: Cut)
    requires
        forall|i: int| 0 <= i < front.len() ==> !is_cut(cut, #[trigger] front[i]),
        rest.len() > 0 ==> is_cut(cut, rest[0]),
    ensures
        pieces(front + rest, cut, None)[0] == front,
        pieces(front + rest, cut, None).len() >= if rest.len() > 0 {
            2int
        } else {
            1int
        },
    decreases rest.len(),
{
    let s = front + rest;
    if rest.len() > 0 {
        let before = rest.drop_last();
        assert(s.drop_last() =~= front + before);
        assert(before.len() > 0 ==> before[0] == rest[0]);
        lemma_first_piece(front, before, cut);
        assert(s.last() == rest.last());
    } else {
        assert(s =~= front);
        lemma_uncut(front, cut);
    }
}

/// A text without a cut is one piece.
proof fn lemma_uncut(s: Seq<char>, cut: Cut)
    requires
        forall|i: int| 0 <= i < s.len() ==> !is_cut(cut, #[trigger] s[i]),
    ensures
        pieces(s, cut, None) == seq![s],
    decreases s.len(),
{
    if s.len() > 0 {
        let before = s.drop_last();
        assert forall|i: int| 0 <= i < before.len() implies !is_cut(cut, #[trigger] before[i]) by {
            assert(before[i] == s[i]);
        }
        lemma_uncut(before, cut);
        assert(!is_cut(cut, s[s.len() - 1]));
        assert(before.push(s.last()) =~= s);
        assert(seq![before].drop_last().push(s) =~= seq![s]);
    } else {
        assert(s =~= Seq::empty());
    }
}

/// `s` without the occurrences of `part`, found from the front and not
/// overlapping.
pub fn remove_all(s: &str, part: &str) -> (r: String)
    ensures
        r@ == removed(s@, part@),
{
    let v = chars_of(s);
    let p = chars_of(part);
    let n = v.len();
    let m = p.len();
    let mut r = String::new();
    let mut i: usize = 0;
    if m == 0 {
        return string_of(&v, 0, n);
    }
    assert(s@.skip(0) =~= s@);
    while n - i >= m
        invariant
            v@ == s@,
            p@ == part@,
            n == v@.len(),
            m == p@.len(),
            m > 0,
            i <= n,
            removed(s@, part@) =~= r@ + removed(s@.skip(i as int), part@),
        decreases n - i,
    {
        let ghost rest = s@.skip(i as int);
        if crate::text::part_at(&v, &p, i) {
            assert(rest.take(m as int) =~= s@.subrange(i as int, i + m));
            assert(rest.skip(m as int) =~= s@.skip(i + m));
            i += m;
        } else {
            proof {
                if rest.take(m as int) == part@ {
                    assert(s@.subrange(i as int, i + m) =~= rest.take(m as int));
                }
            }
            assert(rest.drop_first() =~= s@.skip(i + 1));
            r.push(v[i]);
            i += 1;
        }
    }
    while i < n
        invariant
            v@ == s@,
            n == v@.len(),
            i <= n,
            n - i < part@.len(),
            removed(s@, part@) =~= r@ + s@.skip(i as int),
        decreases n - i,
    {
        r.push(v[i]);
        i += 1;
    }
    r
}

// ---------------------------------------------------------------------------
// Columns
// ---------------------------------------------------------------------------

/// How many characters stand before the first white space character.
pub open spec fn word_len(s: Seq<char>) -> nat
    decreases s.len(),
{
    if s.len() == 0 || is_white(s[0]) {
        0
    } else {
        1 + word_len(s.drop_first())
    }
}

/// The first `n` words of a line, with any white space before each, and what
/// follows them. There are none where a word is missing or ends the line.
pub open spec fn columns(s: Seq<char>, n: nat) -> Option<(Seq<Seq<char>>, Seq<char>)>
    decreases n,
{
    if n == 0 {
        Some((Seq::empty(), s))
    } else {
        let t = trim_front(s);
        let k = word_len(t) as int;
        if k == 0 || k == t.len() {
            None
        } else {
            after_words(seq![t.take(k)], columns(t.skip(k), (n - 1) as nat))
        }
    }
}

/// The columns with these words before them.
pub open spec fn after_words(
    front: Seq<Seq<char>>,
    rest: Option<(Seq<Seq<char>>, Seq<char>)>,
) -> Option<(Seq<Seq<char>>, Seq<char>)> {
    match rest {
        Some((words, tail)) => Some((front + words, tail)),
        None => None,
    }
}

/// There are as many words as were asked for, and something follows them.
pub proof fn lemma_columns(s: Seq<char>, n: nat)
    ensures
        columns(s, n) matches Some((words, rest)) ==> words.len() == n && (n > 0 ==> rest.len()
            > 0),
    decreases n,
{
    if n > 0 {
        let t = trim_front(s);
        let k = word_len(t) as int;
        if k != 0 && k != t.len() {
            lemma_word_len(t);
            lemma_columns(t.skip(k), (n - 1) as nat);
        }
    }
}

proof fn lemma_word_len(s: Seq<char>)
    ensures
        word_len(s) <= s.len(),
    decreases s.len(),
{
    if s.len() > 0 {
        lemma_word_len(s.drop_first());
    }
}

fn skip_white(v: &Vec<char>, at: usize) -> (r: usize)
    requires
        at <= v@.len(),
    ensures
        at <= r <= v@.len(),
        trim_front(v@.skip(at as int)) == v@.skip(r as int),
{
    let n = v.len();
    let mut r = at;
    while r < n && white(v[r])
        invariant
            n == v@.len(),
            at <= r <= n,
            trim_front(v@.skip(at as int)) == trim_front(
                v@.skip(r as int),
            ),
        decreases n - r,
    {
        assert(v@.skip(r as int).drop_first() =~= v@.skip(r + 1));
        assert(v@.skip(r as int)[0] == v@[r as int]);
        r += 1;
    }
    if r < n {
        assert(v@.skip(r as int)[0] == v@[r as int]);
    }
    r
}

fn word_end(v: &Vec<char>, at: usize) -> (r: usize)
    requires
        at <= v@.len(),
    ensures
        at <= r <= v@.len(),
        word_len(v@.skip(at as int)) == r - at,
{
    let n = v.len();
    let mut r = at;
    while r < n && !white(v[r])
        invariant
            n == v@.len(),
            at <= r <= n,
            word_len(v@.skip(at as int)) == r - at + word_len(v@.skip(r as int)),
        decreases n - r,
    {
        assert(v@.skip(r as int).drop_first() =~= v@.skip(r + 1));
        assert(v@.skip(r as int)[0] == v@[r as int]);
        r += 1;
    }
    if r < n {
        assert(v@.skip(r as int)[0] == v@[r as int]);
    }
    r
}

/// The first `n` words of a line and what follows them, if there are so many and
/// something follows.
pub fn split_columns(s: &str, n: usize) -> (r: Option<(Vec<String>, String)>)
    ensures
        match r {
            Some((words, rest)) => columns(s@, n as nat) == Some((texts(words@), rest@)),
            None => columns(s@, n as nat) is None,
        },
{
    let v = chars_of(s);
    let total = v.len();
    let mut fields: Vec<String> = Vec::new();
    let mut at: usize = 0;
    let mut i: usize = 0;
    proof {
        assert(s@.skip(0) =~= s@);
        assert(texts(fields@) =~= Seq::empty());
        if let Some((words, tail)) = columns(s@, n as nat) {
            assert(texts(fields@) + words =~= words);
        }
    }
    while i < n
        invariant
            v@ == s@,
            total == v@.len(),
            i <= n,
            at <= total,
            columns(s@, n as nat) == after_words(
                texts(fields@),
                columns(s@.skip(at as int), (n - i) as nat),
            ),
        decreases n - i,
    {
        let from = skip_white(&v, at);
        let to = word_end(&v, from);
        let ghost t = s@.skip(from as int);
        let ghost before = texts(fields@);
        if to == from || to == total {
            return None;
        }
        let word = string_of(&v, from, to);
        proof {
            let k = to - from;
            assert(word@ =~= t.take(k));
            assert(t.skip(k) =~= s@.skip(to as int));
            assert(columns(s@.skip(at as int), (n - i) as nat) == after_words(
                seq![word@],
                columns(s@.skip(to as int), (n - i - 1) as nat),
            ));
        }
        fields.push(word);
        assert(texts(fields@) =~= before + seq![word@]);
        proof {
            if let Some((words, tail)) = columns(s@.skip(to as int), (n - i - 1) as nat) {
                assert(before + (seq![word@] + words) =~= texts(fields@) + words);
            }
        }
        at = to;
        i += 1;
    }
    let rest = string_of(&v, at, total);
    assert(rest@ =~= s@.skip(at as int));
    assert(texts(fields@) + Seq::<Seq<char>>::empty() =~= texts(fields@));
    Some((fields, rest))
}

} // verus!
