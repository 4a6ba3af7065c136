//! Laws of texts, pieces, numbers and codes.

use crate::number::{decimal, hex, number_in, read_or_zero, signed_decimal};
use crate::number::{after_plus, all_digits, digit_value, digits_value};
use crate::order::{belongs_before, bytes_before, in_order, text_before, SortKey};
use crate::split::{columns, is_cut, lines_of, not_empty, pieces, word_len, words, Cut};
use crate::text::{
    head, holds_part, is_white, opens_with, stands_at, texts, trim_back, trim_front, trimmed,
    without_leading, without_trailing,
};
use vstd::prelude::*;

verus! {

/// The view of a list of texts has the same length, and each text in its place.
pub proof fn law_texts_keep_their_places(list: Seq<String>, i: int)
    requires
        0 <= i < list.len(),
    ensures
        texts(list).len() == list.len(),
        texts(list)[i] == list[i]@,
{
}

/// A text opens with a prefix exactly if something behind the prefix makes it up.
pub proof fn law_opening(prefix: Seq<char>, rest: Seq<char>, s: Seq<char>)
    ensures
        opens_with(prefix + rest, prefix),
        opens_with(s, prefix) ==> s == prefix + s.skip(prefix.len() as int),
        opens_with(s, prefix) ==> s.len() >= prefix.len(),
{
    assert((prefix + rest).take(prefix.len() as int) =~= prefix);
    if opens_with(s, prefix) {
        assert(s =~= s.take(prefix.len() as int) + s.skip(prefix.len() as int));
    }
}

/// A text holds a part exactly if it is made up of something, the part and
/// something.
pub proof fn law_holding(front: Seq<char>, part: Seq<char>, rest: Seq<char>, s: Seq<char>)
    ensures
        holds_part(front + part + rest, part),
        holds_part(s, part) ==> exists|a: Seq<char>, b: Seq<char>| s == #[trigger] ((a + part) + b),
{
    let whole = front + part + rest;
    assert(whole.subrange(front.len() as int, (front.len() + part.len()) as int) =~= part);
    assert(stands_at(whole, part, front.len() as int));
    if holds_part(s, part) {
        let at = choose|at: int| stands_at(s, part, at);
        let a = s.take(at);
        let b = s.skip(at + part.len());
        assert(s =~= (a + part) + b);
    }
}

/// White are the tabs and line breaks, the space, the no-break space and the
/// separators of Unicode, and nothing else.
pub proof fn law_white(c: char)
    ensures
        is_white(c) <==> {
            ||| '\t' <= c <= '\r'
            ||| c == ' '
            ||| c == '\u{85}'
            ||| c == '\u{a0}'
            ||| c == '\u{1680}'
            ||| '\u{2000}' <= c <= '\u{200a}'
            ||| c == '\u{2028}'
            ||| c == '\u{2029}'
            ||| c == '\u{202f}'
            ||| c == '\u{205f}'
            ||| c == '\u{3000}'
        },
{
}

proof fn lemma_front_goes(front: Seq<char>, rest: Seq<char>)
    requires
        forall|i: int| 0 <= i < front.len() ==> is_white(#[trigger] front[i]),
    ensures
        trim_front(front + rest) == trim_front(rest),
    decreases front.len(),
{
    if front.len() == 0 {
        assert(front + rest =~= rest);
    } else {
        assert((front + rest)[0] == front[0]);
        assert((front + rest).drop_first() =~= front.drop_first() + rest);
        assert forall|i: int| 0 <= i < front.drop_first().len() implies is_white(
            #[trigger] front.drop_first()[i],
        ) by {
            assert(front.drop_first()[i] == front[i + 1]);
        }
        lemma_front_goes(front.drop_first(), rest);
    }
}

proof fn lemma_back_goes(core: Seq<char>, back: Seq<char>)
    requires
        forall|i: int| 0 <= i < back.len() ==> is_white(#[trigger] back[i]),
        core.len() > 0 ==> !is_white(core.last()),
    ensures
        trim_back(core + back) == core,
    decreases back.len(),
{
    let s = core + back;
    if back.len() == 0 {
        assert(s =~= core);
    } else {
        assert(s.last() == back[back.len() - 1]);
        assert(s.drop_last() =~= core + back.drop_last());
        assert forall|i: int| 0 <= i < back.drop_last().len() implies is_white(
            #[trigger] back.drop_last()[i],
        ) by {
            assert(back.drop_last()[i] == back[i]);
        }
        lemma_back_goes(core, back.drop_last());
    }
}

/// Trimming takes the white off both ends and leaves what stands between.
pub proof fn law_trimming(front: Seq<char>, core: Seq<char>, back: Seq<char>)
    requires
        forall|i: int| 0 <= i < front.len() ==> is_white(#[trigger] front[i]),
        forall|i: int| 0 <= i < back.len() ==> is_white(#[trigger] back[i]),
        core.len() > 0 ==> !is_white(core[0]) && !is_white(core.last()),
    ensures
        trimmed(front + core + back) == core,
{
    assert(front + core + back =~= front + (core + back));
    lemma_front_goes(front, core + back);
    if core.len() > 0 {
        assert((core + back)[0] == core[0]);
        assert(trim_front(core + back) == core + back);
        lemma_back_goes(core, back);
    } else {
        assert(core + back =~= back + core);
        lemma_front_goes(back, core);
        assert(trim_front(core) == core);
        assert(trim_back(core) == core);
    }
}

/// Leading copies of a character are dropped, all of them and nothing else.
pub proof fn law_leading(front: Seq<char>, rest: Seq<char>, c: char)
    requires
        forall|i: int| 0 <= i < front.len() ==> #[trigger] front[i] == c,
        rest.len() > 0 ==> rest[0] != c,
    ensures
        without_leading(front + rest, c) == rest,
    decreases front.len(),
{
    if front.len() == 0 {
        assert(front + rest =~= rest);
    } else {
        assert((front + rest)[0] == front[0]);
        assert((front + rest).drop_first() =~= front.drop_first() + rest);
        law_leading(front.drop_first(), rest, c);
    }
}

/// Trailing copies of a character are dropped, all of them and nothing else.
pub proof fn law_trailing(front: Seq<char>, back: Seq<char>, c: char)
    requires
        forall|i: int| 0 <= i < back.len() ==> #[trigger] back[i] == c,
        front.len() > 0 ==> front.last() != c,
    ensures
        without_trailing(front + back, c) == front,
    decreases back.len(),
{
    if back.len() == 0 {
        assert(front + back =~= front);
    } else {
        assert((front + back).last() == back[back.len() - 1]);
        assert((front + back).drop_last() =~= front + back.drop_last());
        law_trailing(front, back.drop_last(), c);
    }
}

/// The head of a text is its first characters, as many as are asked for or as
/// there are.
pub proof fn law_head(s: Seq<char>, n: nat, i: int)
    ensures
        head(s, n).len() == if s.len() < n {
            s.len()
        } else {
            n
        },
        0 <= i < head(s, n).len() ==> head(s, n)[i] == s[i],
{
}

proof fn lemma_last_piece_grows(s: Seq<char>, w: Seq<char>, cut: Cut, limit: Option<usize>)
    requires
        forall|i: int| 0 <= i < w.len() ==> !is_cut(cut, #[trigger] w[i]),
    ensures
        pieces(s, cut, limit).len() > 0,
        pieces(s + w, cut, limit) == pieces(s, cut, limit).drop_last().push(
            pieces(s, cut, limit).last() + w,
        ),
    decreases s.len() + w.len(), w.len(),
{
    let all = pieces(s, cut, limit);
    if s.len() > 0 {
        lemma_last_piece_grows(s.drop_last(), Seq::empty(), cut, limit);
    }
    if w.len() == 0 {
        assert(s + w =~= s);
        assert(all.last() + w =~= all.last());
        assert(all.drop_last().push(all.last()) =~= all);
    } else {
        let v = w.drop_last();
        assert((s + w).drop_last() =~= s + v);
        assert((s + w).last() == w[w.len() - 1]);
        assert forall|i: int| 0 <= i < v.len() implies !is_cut(cut, #[trigger] v[i]) by {
            assert(v[i] == w[i]);
        }
        lemma_last_piece_grows(s, v, cut, limit);
        let grown = pieces(s + v, cut, limit);
        assert(grown.drop_last() =~= all.drop_last());
        assert((all.last() + v).push(w.last()) =~= all.last() + w);
    }
}

/// A text is taken apart at each place where it is cut: a text without a cut is
/// one piece, and what stands behind the last cut is the last piece. Where no more
/// pieces are wanted, it stays part of the last one.
pub proof fn law_pieces(s: Seq<char>, c: char, w: Seq<char>, cut: Cut, limit: Option<usize>)
    requires
        match cut {
            Cut::At(x) => c == x && forall|i: int| 0 <= i < w.len() ==> #[trigger] w[i] != x,
            Cut::AtWhite => is_white(c) && forall|i: int|
                0 <= i < w.len() ==> !is_white(#[trigger] w[i]),
        },
    ensures
        pieces(w, cut, limit) == seq![w],
        limit is None || pieces(s, cut, limit).len() < limit->0 ==> pieces(
            s + seq![c] + w,
            cut,
            limit,
        ) == pieces(s, cut, limit).push(w),
        limit is Some && pieces(s, cut, limit).len() >= limit->0 ==> pieces(
            s + seq![c] + w,
            cut,
            limit,
        ) == pieces(s, cut, limit).drop_last().push(pieces(s, cut, limit).last() + seq![c] + w),
{
    let none: Seq<char> = Seq::empty();
    lemma_last_piece_grows(none, w, cut, limit);
    assert(none + w =~= w);
    assert(pieces(none, cut, limit) == seq![none]);
    assert(seq![none].drop_last().push(w) =~= seq![w]);
    let all = pieces(s, cut, limit);
    let t = s + seq![c];
    assert(t.drop_last() =~= s);
    assert(t.last() == c);
    lemma_last_piece_grows(s, none, cut, limit);
    lemma_last_piece_grows(t, w, cut, limit);
    if limit is None || all.len() < limit->0 {
        assert(all.push(none).drop_last().push(none + w) =~= all.push(w));
    } else {
        assert(all.drop_last().push(all.last().push(c)).drop_last() =~= all.drop_last());
        assert(all.last().push(c) + w =~= all.last() + seq![c] + w);
    }
}

/// The parts, each behind the one before it with the character between them.
pub open spec fn joined_by(parts: Seq<Seq<char>>, c: char) -> Seq<char>
    decreases parts.len(),
{
    if parts.len() == 0 {
        Seq::empty()
    } else if parts.len() == 1 {
        parts[0]
    } else {
        joined_by(parts.drop_last(), c) + seq![c] + parts.last()
    }
}

/// Taking a text apart gives back the parts that it was joined from.
pub proof fn law_joined_parts_are_given_back(parts: Seq<Seq<char>>, c: char)
    requires
        parts.len() > 0,
        forall|k: int, i: int|
            0 <= k < parts.len() && 0 <= i < parts[k].len() ==> #[trigger] parts[k][i] != c,
    ensures
        pieces(joined_by(parts, c), Cut::At(c), None) == parts,
    decreases parts.len(),
{
    let none: Seq<char> = Seq::empty();
    let last = parts.last();
    assert forall|i: int| 0 <= i < last.len() implies #[trigger] last[i] != c by {
        assert(parts[parts.len() - 1][i] != c);
    }
    if parts.len() == 1 {
        law_pieces(none, c, last, Cut::At(c), None);
        assert(seq![last] =~= parts);
    } else {
        let before = parts.drop_last();
        assert forall|k: int, i: int|
            0 <= k < before.len() && 0 <= i < before[k].len() implies #[trigger] before[k][i]
            != c by {
            assert(parts[k][i] != c);
        }
        law_joined_parts_are_given_back(before, c);
        law_pieces(joined_by(before, c), c, last, Cut::At(c), None);
        assert(before.push(last) =~= parts);
    }
}

/// Taking apart the text between white gives back the parts that it was joined from.
pub proof fn law_joined_parts_between_white(
    front: Seq<char>,
    parts: Seq<Seq<char>>,
    back: Seq<char>,
    c: char,
)
    requires
        parts.len() > 0,
        forall|k: int, i: int|
            0 <= k < parts.len() && 0 <= i < parts[k].len() ==> #[trigger] parts[k][i] != c,
        forall|i: int| 0 <= i < front.len() ==> is_white(#[trigger] front[i]),
        forall|i: int| 0 <= i < back.len() ==> is_white(#[trigger] back[i]),
        parts[0].len() > 0 && !is_white(parts[0][0]),
        parts.last().len() > 0 && !is_white(parts.last().last()),
    ensures
        trimmed(front + joined_by(parts, c) + back) == joined_by(parts, c),
        pieces(trimmed(front + joined_by(parts, c) + back), Cut::At(c), None) == parts,
{
    law_joined_ends(parts, c);
    law_trimming(front, joined_by(parts, c), back);
    law_joined_parts_are_given_back(parts, c);
}

/// A joined text begins as its first part does and ends as its last one does.
pub proof fn law_joined_ends(parts: Seq<Seq<char>>, c: char)
    requires
        parts.len() > 0,
        parts[0].len() > 0,
    ensures
        joined_by(parts, c).len() > 0,
        joined_by(parts, c)[0] == parts[0][0],
        parts.last().len() > 0 ==> joined_by(parts, c).last() == parts.last().last(),
    decreases parts.len(),
{
    if parts.len() > 1 {
        assert(parts.drop_last()[0] == parts[0]);
        law_joined_ends(parts.drop_last(), c);
    }
}

/// What stands before the first cut is the first piece, and the other pieces are
/// those of what stands behind it.
pub proof fn law_first_piece(w: Seq<char>, c: char, rest: Seq<char>)
    requires
        forall|i: int| 0 <= i < w.len() ==> #[trigger] w[i] != c,
    ensures
        pieces(w + seq![c] + rest, Cut::At(c), None) == seq![w] + pieces(rest, Cut::At(c), None),
    decreases rest.len(),
{
    let cut = Cut::At(c);
    let none: Seq<char> = Seq::empty();
    if rest.len() == 0 {
        law_pieces(w, c, none, cut, None);
        law_pieces(none, c, w, cut, None);
        assert(w + seq![c] + rest =~= w + seq![c] + none);
        assert(seq![w].push(none) =~= seq![w] + seq![none]);
    } else {
        let s = w + seq![c] + rest;
        let before = rest.drop_last();
        assert(s.drop_last() =~= w + seq![c] + before);
        assert(s.last() == rest.last());
        law_first_piece(w, c, before);
        let p = pieces(before, cut, None);
        lemma_last_piece_grows(before, none, cut, None);
        assert((seq![w] + p).push(none) =~= seq![w] + p.push(none));
        assert((seq![w] + p).drop_last() =~= seq![w] + p.drop_last());
        assert((seq![w] + p).last() == p.last());
        let q = p.last().push(s.last());
        assert((seq![w] + p.drop_last()).push(q) =~= seq![w] + p.drop_last().push(q));
    }
}

/// The lines of a text: each line break ends a line, a carriage return before it
/// belongs to the break, and what follows the last break is a line if it is not
/// empty.
pub proof fn law_lines(line: Seq<char>, rest: Seq<char>)
    requires
        forall|i: int| 0 <= i < line.len() ==> #[trigger] line[i] != '\n',
    ensures
        line.len() == 0 ==> lines_of(line) == Seq::<Seq<char>>::empty(),
        line.len() > 0 ==> lines_of(line) == seq![line],
        line.len() > 0 && line.last() == '\r' ==> lines_of(line + seq!['\n'] + rest) == seq![
            line.drop_last(),
        ] + lines_of(rest),
        line.len() == 0 || line.last() != '\r' ==> lines_of(line + seq!['\n'] + rest) == seq![line]
            + lines_of(rest),
{
    let none: Seq<char> = Seq::empty();
    let cut = Cut::At('\n');
    law_pieces(none, '\n', line, cut, None);
    assert(seq![line].drop_last().map_values(|p: Seq<char>| crate::split::without_return(p))
        =~= Seq::<Seq<char>>::empty());
    assert(Seq::<Seq<char>>::empty().push(line) =~= seq![line]);
    law_first_piece(line, '\n', rest);
    let p = pieces(rest, cut, None);
    lemma_last_piece_grows(rest, none, cut, None);
    let f = |p: Seq<char>| crate::split::without_return(p);
    let all = seq![line] + p;
    assert(all.drop_last() =~= seq![line] + p.drop_last());
    assert(all.last() == p.last());
    let first = crate::split::without_return(line);
    assert(all.drop_last().map_values(f) =~= seq![first] + p.drop_last().map_values(f));
    let ended = p.drop_last().map_values(f);
    assert((seq![first] + ended).push(p.last()) =~= seq![first] + ended.push(p.last()));
}

/// The words of a text: a word behind white is a word of its own, and white alone
/// adds none.
pub proof fn law_words(s: Seq<char>, c: char, w: Seq<char>)
    requires
        is_white(c),
        forall|i: int| 0 <= i < w.len() ==> !is_white(#[trigger] w[i]),
    ensures
        w.len() == 0 ==> words(w) == Seq::<Seq<char>>::empty(),
        w.len() > 0 ==> words(w) == seq![w],
        w.len() == 0 ==> words(s + seq![c] + w) == words(s),
        w.len() > 0 ==> words(s + seq![c] + w) == words(s).push(w),
{
    law_pieces(s, c, w, Cut::AtWhite, None);
    let all = pieces(s, Cut::AtWhite, None);
    reveal(Seq::filter);
    assert(seq![w].drop_last() =~= Seq::<Seq<char>>::empty());
    assert(Seq::<Seq<char>>::empty().filter(not_empty()) =~= Seq::<Seq<char>>::empty());
    assert(Seq::<Seq<char>>::empty().push(w) =~= seq![w]);
    assert(all.push(w).drop_last() =~= all);
    assert(all.push(w).last() == w);
}

proof fn lemma_word_is_measured(w: Seq<char>, rest: Seq<char>)
    requires
        forall|i: int| 0 <= i < w.len() ==> !is_white(#[trigger] w[i]),
        rest.len() > 0 ==> is_white(rest[0]),
    ensures
        word_len(w + rest) == w.len(),
    decreases w.len(),
{
    if w.len() == 0 {
        assert(w + rest =~= rest);
    } else {
        assert((w + rest)[0] == w[0]);
        assert((w + rest).drop_first() =~= w.drop_first() + rest);
        assert forall|i: int| 0 <= i < w.drop_first().len() implies !is_white(
            #[trigger] w.drop_first()[i],
        ) by {
            assert(w.drop_first()[i] == w[i + 1]);
        }
        lemma_word_is_measured(w.drop_first(), rest);
    }
}

/// The columns of a line: the next word, past the white before it, is the next
/// column, if something follows it; then come the columns of what follows.
pub proof fn law_columns(pad: Seq<char>, w: Seq<char>, rest: Seq<char>, n: nat)
    requires
        forall|i: int| 0 <= i < pad.len() ==> is_white(#[trigger] pad[i]),
        forall|i: int| 0 <= i < w.len() ==> !is_white(#[trigger] w[i]),
        w.len() > 0,
        rest.len() > 0 ==> is_white(rest[0]),
    ensures
        columns(rest, 0) == Some((Seq::<Seq<char>>::empty(), rest)),
        columns(pad, n + 1) is None,
        rest.len() == 0 ==> columns(pad + w + rest, n + 1) is None,
        rest.len() > 0 ==> (columns(pad + w + rest, n + 1) is Some <==> columns(rest, n) is Some),
        rest.len() > 0 ==> (columns(rest, n) matches Some((more, tail)) ==> columns(
            pad + w + rest,
            n + 1,
        ) == Some((seq![w] + more, tail))),
{
    let line = pad + w + rest;
    assert(line =~= pad + (w + rest));
    lemma_front_goes(pad, w + rest);
    assert((w + rest)[0] == w[0]);
    assert(trim_front(w + rest) == w + rest);
    lemma_word_is_measured(w, rest);
    assert((w + rest).take(w.len() as int) =~= w);
    assert((w + rest).skip(w.len() as int) =~= rest);
    let none: Seq<char> = Seq::empty();
    lemma_front_goes(pad, none);
    assert(pad + none =~= pad);
}

/// The digits of a number: one digit for a number under ten, and otherwise the
/// digits of its tens and then that of its ones.
pub proof fn law_decimal(q: nat, d: nat)
    requires
        d < 10,
    ensures
        decimal(d) == seq![(48 + d) as char],
        q > 0 ==> decimal(10 * q + d) == decimal(q).push((48 + d) as char),
        signed_decimal(q as int) == decimal(q),
        q > 0 ==> signed_decimal(-q) == seq!['-'] + decimal(q),
{
    assert((10 * q + d) / 10 == q);
    assert((10 * q + d) % 10 == d);
}

proof fn lemma_digits_are_natural(s: Seq<char>, base: int)
    requires
        base >= 2,
        all_digits(s, base),
    ensures
        digits_value(s, base) >= 0,
    decreases s.len(),
{
    if s.len() > 0 {
        let t = s.drop_last();
        assert forall|i: int| 0 <= i < t.len() implies 0 <= #[trigger] digit_value(t[i]) < base by {
            assert(t[i] == s[i]);
        }
        lemma_digits_are_natural(t, base);
        assert(digit_value(s[s.len() - 1]) >= 0);
        let v = digits_value(t, base);
        assert(v * base >= 0) by (nonlinear_arith)
            requires
                v >= 0,
                base >= 2,
        ;
    }
}

/// Reading a number: a digit alone is its value, a digit behind a number multiplies
/// the number by the base and adds its own value, a plus may stand first, nothing
/// else may stand there, and what is too large is not read.
pub proof fn law_number(s: Seq<char>, c: char, base: int, most: int)
    requires
        2 <= base <= 10,
        most >= 0,
    ensures
        number_in(Seq::empty(), base, most) is None,
        number_in(seq![c], base, most) == if 48 <= c as int && c as int - 48 < base && c as int - 48
            <= most {
            Some(c as int - 48)
        } else {
            None
        },
        s.len() > 0 && s != seq!['+'] ==> number_in(s.push(c), base, most) == if 48 <= c as int && c as int
            - 48 < base && number_in(s, base, most) is Some && number_in(s, base, most)->0 * base + (
        c as int - 48) <= most {
            Some(number_in(s, base, most)->0 * base + (c as int - 48))
        } else {
            None
        },
        s.len() == 0 || s[0] != '+' ==> number_in(seq!['+'] + s, base, most) == number_in(
            s,
            base,
            most,
        ),
{
    let none: Seq<char> = Seq::empty();
    assert(after_plus(none) == none);
    let one = seq![c];
    assert(one.drop_first() =~= none);
    assert(one.drop_last() =~= none);
    assert(digits_value(none, base) == 0);
    assert(digits_value(one, base) == 0 * base + digit_value(c));
    assert(0 * base == 0) by (nonlinear_arith);
    assert(all_digits(one, base) <==> 0 <= digit_value(c) < base) by {
        assert(one[0] == c);
        if all_digits(one, base) {
            assert(0 <= digit_value(one[0]) < base);
        }
    }
    if s.len() == 0 || s[0] != '+' {
        let p = seq!['+'] + s;
        assert(p[0] == '+');
        assert(p.drop_first() =~= s);
        assert(after_plus(s) == s);
    }
    if s.len() > 0 && s != seq!['+'] {
        let d = after_plus(s);
        assert(d.len() > 0) by {
            if d.len() == 0 {
                assert(s =~= seq!['+']);
            }
        }
        let t = s.push(c);
        assert(t[0] == s[0]);
        assert(after_plus(t) =~= d.push(c));
        let e = d.push(c);
        assert(e.drop_last() =~= d);
        assert(e.last() == c);
        assert(all_digits(e, base) <==> all_digits(d, base) && 0 <= digit_value(c) < base) by {
            if all_digits(e, base) {
                assert forall|i: int| 0 <= i < d.len() implies 0 <= #[trigger] digit_value(
                    d[i],
                ) < base by {
                    assert(d[i] == e[i]);
                }
                assert(e[d.len() as int] == c);
                assert(0 <= digit_value(e[d.len() as int]) < base);
            }
        }
        if all_digits(e, base) {
            lemma_digits_are_natural(d, base);
            let v = digits_value(d, base);
            assert(v <= v * base) by (nonlinear_arith)
                requires
                    v >= 0,
                    base >= 2,
            ;
        }
    }
}

/// A number that is read is at least zero and at most what is allowed.
pub proof fn law_number_is_in_range(s: Seq<char>, base: int, most: int)
    requires
        2 <= base <= 10,
    ensures
        number_in(s, base, most) matches Some(n) ==> 0 <= n <= most,
{
    if number_in(s, base, most) is Some {
        lemma_digits_are_natural(after_plus(s), base);
    }
}

/// A text that writes a number is read as that number, and any other as zero.
pub proof fn law_number_or_zero(s: Seq<char>, most: int)
    ensures
        number_in(s, 10, most) is None ==> read_or_zero(s, most) == 0,
        number_in(s, 10, most) is Some ==> read_or_zero(s, most) == number_in(s, 10, most)->0,
{
}

/// Each byte is written as two hexadecimal digits in lower case, the high one first.
pub proof fn law_hex(bytes: Seq<u8>, b: u8)
    ensures
        hex(Seq::empty()) == Seq::<char>::empty(),
        hex(bytes.push(b)).len() == hex(bytes).len() + 2,
        hex(bytes.push(b)).take(hex(bytes).len() as int) == hex(bytes),
        ({
            let high = hex(bytes.push(b))[hex(bytes).len() as int];
            let low = hex(bytes.push(b))[hex(bytes).len() as int + 1];
            &&& b < 160 ==> high as int == 48 + b as int / 16
            &&& b >= 160 ==> high as int == 87 + b as int / 16
            &&& b as int % 16 < 10 ==> low as int == 48 + b as int % 16
            &&& b as int % 16 >= 10 ==> low as int == 87 + b as int % 16
        }),
{
    assert(bytes.push(b).drop_last() =~= bytes);
    let all = hex(bytes.push(b));
    assert(all.take(hex(bytes).len() as int) =~= hex(bytes));
}

/// The order of byte strings: after a common beginning the smaller byte decides,
/// and a string stands before each one that goes on where it ends.
pub proof fn law_byte_order(common: Seq<u8>, a: u8, b: u8, x: Seq<u8>, y: Seq<u8>)
    ensures
        a < b ==> bytes_before(common + seq![a] + x, common + seq![b] + y),
        a < b ==> !bytes_before(common + seq![b] + y, common + seq![a] + x),
        bytes_before(common, common + seq![b] + y),
        !bytes_before(common + seq![b] + y, common),
        !bytes_before(common, common),
    decreases common.len(),
{
    let p = common + seq![a] + x;
    let q = common + seq![b] + y;
    if common.len() == 0 {
        assert(p[0] == a);
        assert(q[0] == b);
    } else {
        let rest = common.drop_first();
        assert(p.drop_first() =~= rest + seq![a] + x);
        assert(q.drop_first() =~= rest + seq![b] + y);
        law_byte_order(rest, a, b, x, y);
    }
}

/// What leads comes first, then the smaller key, and of equal keys the one that stands
/// first. The order names each place once.
pub proof fn law_sort_order(keys: Seq<SortKey>, order: Seq<usize>, i: int, j: int)
    requires
        in_order(keys, order, 0, keys.len() as int),
        0 <= i < j < order.len(),
    ensures
        order.len() == keys.len(),
        order[i] != order[j],
        0 <= order[i] < keys.len(),
        keys[order[j] as int].leads ==> keys[order[i] as int].leads,
        keys[order[i] as int].leads == keys[order[j] as int].leads ==> !bytes_before(
            keys[order[j] as int].key@,
            keys[order[i] as int].key@,
        ),
        keys[order[i] as int].leads == keys[order[j] as int].leads && keys[order[i] as int].key@
            == keys[order[j] as int].key@ ==> order[i] < order[j],
{
    let x = order[i] as int;
    let y = order[j] as int;
    assert(belongs_before(keys, x, y));
    crate::order::law_bytes_before_is_total(keys[x].key@, keys[y].key@);
    law_byte_order(keys[x].key@, 0, 1, Seq::empty(), Seq::empty());
}

/// Texts are ordered as their bytes in UTF-8.
pub proof fn law_text_order(a: Seq<char>, b: Seq<char>)
    ensures
        text_before(a, b) <==> bytes_before(
            vstd::utf8::encode_utf8(a),
            vstd::utf8::encode_utf8(b),
        ),
{
}

} // verus!
