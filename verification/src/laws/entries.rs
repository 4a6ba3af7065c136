//! Laws of what is told of files.

use crate::clock::utc_text;
use crate::encoding::lowercase;
use crate::handlers::fs::{known_entries, FoundFile};
use crate::handlers::fs_entry::{
    after_total, arranged, described_type, entry_views, listed_before, ls_entries, ls_entry,
    meta_entry, mode_text, no_entry, sorted_listing, stat_entry, EntryView, FileMeta,
};
use crate::laws::text::{joined_by, law_columns, law_joined_parts_between_white};
use crate::laws::text::law_number_is_in_range;
use crate::methods::{FsEntry, FsEntryType};
use crate::number::{decimal, read_or_zero};
use crate::order::text_before;
use crate::split::columns;
use crate::text::{holds_part, is_white};
use vstd::prelude::*;

verus! {

/// The letters of one octal digit of a mode: read, write and execute, from the high
/// bit to the low one.
pub open spec fn rwx(digit: u32) -> Seq<char> {
    seq![
        if digit / 4 % 2 == 1 {
            'r'
        } else {
            '-'
        },
        if digit / 2 % 2 == 1 {
            'w'
        } else {
            '-'
        },
        if digit % 2 == 1 {
            'x'
        } else {
            '-'
        },
    ]
}

/// A mode is shown as `ls` shows it: one letter for the type and then three for the
/// owner, three for the group and three for the others, each three for the octal
/// digit that says what that class may do.
pub proof fn law_mode_is_shown_class_by_class(mode: u32)
    ensures
        mode_text(mode).len() == 10,
        mode_text(mode)[0] == 'd' <==> mode / 4096 % 16 == 4,
        mode_text(mode)[0] == 'l' <==> mode / 4096 % 16 == 10,
        mode_text(mode)[0] == '-' <==> mode / 4096 % 16 != 4 && mode / 4096 % 16 != 10,
        mode_text(mode).subrange(1, 4) == rwx(mode / 64 % 8),
        mode_text(mode).subrange(4, 7) == rwx(mode / 8 % 8),
        mode_text(mode).subrange(7, 10) == rwx(mode % 8),
{
    assert(mode & 0o400 != 0 <==> mode / 64 % 8 / 4 % 2 == 1) by (bit_vector);
    assert(mode & 0o200 != 0 <==> mode / 64 % 8 / 2 % 2 == 1) by (bit_vector);
    assert(mode & 0o100 != 0 <==> mode / 64 % 8 % 2 == 1) by (bit_vector);
    assert(mode & 0o040 != 0 <==> mode / 8 % 8 / 4 % 2 == 1) by (bit_vector);
    assert(mode & 0o020 != 0 <==> mode / 8 % 8 / 2 % 2 == 1) by (bit_vector);
    assert(mode & 0o010 != 0 <==> mode / 8 % 8 % 2 == 1) by (bit_vector);
    assert(mode & 0o004 != 0 <==> mode % 8 / 4 % 2 == 1) by (bit_vector);
    assert(mode & 0o002 != 0 <==> mode % 8 / 2 % 2 == 1) by (bit_vector);
    assert(mode & 0o001 != 0 <==> mode % 8 % 2 == 1) by (bit_vector);
    assert(mode & 0o170000 == 0o040000 <==> mode / 4096 % 16 == 4) by (bit_vector);
    assert(mode & 0o170000 == 0o120000 <==> mode / 4096 % 16 == 10) by (bit_vector);
    let all = mode_text(mode);
    assert(all.subrange(1, 4) =~= rwx(mode / 64 % 8));
    assert(all.subrange(4, 7) =~= rwx(mode / 8 % 8));
    assert(all.subrange(7, 10) =~= rwx(mode % 8));
}

/// What a class may do shows in its own letters: two modes that differ in the digit
/// of a class differ in the letters of that class, and two that agree in it agree
/// there, whatever the other classes may do.
pub proof fn law_mode_letters_are_of_their_class(a: u32, b: u32)
    ensures
        a / 64 % 8 == b / 64 % 8 <==> mode_text(a).subrange(1, 4) == mode_text(b).subrange(1, 4),
        a / 8 % 8 == b / 8 % 8 <==> mode_text(a).subrange(4, 7) == mode_text(b).subrange(4, 7),
        a % 8 == b % 8 <==> mode_text(a).subrange(7, 10) == mode_text(b).subrange(7, 10),
{
    law_mode_is_shown_class_by_class(a);
    law_mode_is_shown_class_by_class(b);
    lemma_rwx_tells_apart(a / 64 % 8, b / 64 % 8);
    lemma_rwx_tells_apart(a / 8 % 8, b / 8 % 8);
    lemma_rwx_tells_apart(a % 8, b % 8);
}

proof fn lemma_rwx_tells_apart(x: u32, y: u32)
    requires
        x < 8,
        y < 8,
    ensures
        rwx(x) == rwx(y) ==> x == y,
{
    if rwx(x) == rwx(y) {
        assert(rwx(x)[0] == rwx(y)[0]);
        assert(rwx(x)[1] == rwx(y)[1]);
        assert(rwx(x)[2] == rwx(y)[2]);
    }
}

/// The view of an entry tells each of its fields, and that of a listing its entries
/// in their places.
pub proof fn law_entry_view(entry: FsEntry, list: Seq<FsEntry>)
    ensures
        entry@.name == entry.name@,
        entry@.entry_type == entry.entry_type,
        entry@.size == entry.size,
        entry@.permissions == entry.permissions@,
        entry@.modified == entry.modified@,
        entry@.owner == entry.owner@,
        entry@.group == entry.group@,
        entry_views(list).len() == list.len(),
        forall|i: int| 0 <= i < list.len() ==> #[trigger] entry_views(list)[i] == list[i]@,
{
}

/// An entry made of a file's metadata: its length, the letters of its mode, the
/// names of its owner and its group, or their numbers where they have no name, and
/// when it was changed.
pub proof fn law_metadata_is_told(name: Seq<char>, meta: FileMeta)
    ensures
        meta_entry(name, meta).name == name,
        meta_entry(name, meta).size == meta.len,
        meta_entry(name, meta).permissions == mode_text(meta.mode),
        meta.is_dir <==> meta_entry(name, meta).entry_type == FsEntryType::Directory,
        !meta.is_dir && meta.is_symlink <==> meta_entry(name, meta).entry_type
            == FsEntryType::Symlink,
        !meta.is_dir && !meta.is_symlink <==> meta_entry(name, meta).entry_type
            == FsEntryType::File,
        meta.owner matches Some(owner) ==> meta_entry(name, meta).owner == owner@,
        meta.owner is None ==> meta_entry(name, meta).owner == decimal(meta.uid as nat),
        meta.group matches Some(group) ==> meta_entry(name, meta).group == group@,
        meta.group is None ==> meta_entry(name, meta).group == decimal(meta.gid as nat),
        meta.modified_secs is None ==> meta_entry(name, meta).modified == Seq::<char>::empty(),
        meta.modified_secs matches Some(s) ==> {
            &&& s <= 8210266876799 ==> meta_entry(name, meta).modified == utc_text(s as i64, 0)
            &&& 8210266876799 < s < 0x1_0000_0000_0000_0000 - 8334601228800 ==> meta_entry(
                name,
                meta,
            ).modified == Seq::<char>::empty()
            &&& s >= 0x1_0000_0000_0000_0000 - 8334601228800 ==> meta_entry(name, meta).modified
                == utc_text((s - 0x1_0000_0000_0000_0000) as i64, 0)
        },
{
}

/// Two files that differ in one thing only are told alike in every other.
pub proof fn law_metadata_fields_are_apart(name: Seq<char>, a: FileMeta, b: FileMeta)
    ensures
        a.owner == b.owner && a.uid == b.uid ==> meta_entry(name, a).owner == meta_entry(
            name,
            b,
        ).owner,
        a.group == b.group && a.gid == b.gid ==> meta_entry(name, a).group == meta_entry(
            name,
            b,
        ).group,
        a.len == b.len <==> meta_entry(name, a).size == meta_entry(name, b).size,
        a.mode == b.mode ==> meta_entry(name, a).permissions == meta_entry(name, b).permissions,
{
}

/// What is told of a missing file is empty throughout.
pub proof fn law_missing_file_is_told_empty()
    ensures
        no_entry().name.len() == 0,
        no_entry().entry_type == FsEntryType::File,
        no_entry().size == 0,
        no_entry().permissions.len() == 0,
        no_entry().modified.len() == 0,
        no_entry().owner.len() == 0,
        no_entry().group.len() == 0,
{
}

/// The fields of a line of `ls -l`, each behind its padding, and what follows them.
pub open spec fn laid_out(
    pads: Seq<Seq<char>>,
    fields: Seq<Seq<char>>,
    tail: Seq<char>,
) -> Seq<char>
    decreases fields.len(),
{
    if fields.len() == 0 {
        tail
    } else {
        pads[0] + fields[0] + laid_out(pads.drop_first(), fields.drop_first(), tail)
    }
}

/// Whether these are words, and white before each of them; before the first there
/// may be none.
pub open spec fn lays_out(pads: Seq<Seq<char>>, fields: Seq<Seq<char>>) -> bool {
    &&& pads.len() == fields.len()
    &&& forall|k: int| 0 < k < pads.len() ==> (#[trigger] pads[k]).len() > 0
    &&& forall|k: int, i: int|
        0 <= k < pads.len() && 0 <= i < pads[k].len() ==> is_white(#[trigger] pads[k][i])
    &&& forall|k: int| 0 <= k < fields.len() ==> (#[trigger] fields[k]).len() > 0
    &&& forall|k: int, i: int|
        0 <= k < fields.len() && 0 <= i < fields[k].len() ==> !is_white(#[trigger] fields[k][i])
}

/// The columns of a line are the words that it was laid out with, whatever white
/// stands between them, and what follows the last of them is left as it is.
pub proof fn law_columns_are_given_back(
    pads: Seq<Seq<char>>,
    fields: Seq<Seq<char>>,
    tail: Seq<char>,
)
    requires
        lays_out(pads, fields),
        tail.len() > 0 && is_white(tail[0]),
    ensures
        columns(laid_out(pads, fields, tail), fields.len()) == Some((fields, tail)),
    decreases fields.len(),
{
    if fields.len() == 0 {
        assert(fields =~= Seq::<Seq<char>>::empty());
    } else {
        let p = pads.drop_first();
        let f = fields.drop_first();
        let rest = laid_out(p, f, tail);
        assert forall|k: int| 0 < k < p.len() implies (#[trigger] p[k]).len() > 0 by {
            assert(p[k] == pads[k + 1]);
        }
        assert forall|k: int, i: int| 0 <= k < p.len() && 0 <= i < p[k].len() implies is_white(
            #[trigger] p[k][i],
        ) by {
            assert(p[k] == pads[k + 1]);
            assert(is_white(pads[k + 1][i]));
        }
        assert forall|k: int| 0 <= k < f.len() implies (#[trigger] f[k]).len() > 0 by {
            assert(f[k] == fields[k + 1]);
        }
        assert forall|k: int, i: int| 0 <= k < f.len() && 0 <= i < f[k].len() implies !is_white(
            #[trigger] f[k][i],
        ) by {
            assert(f[k] == fields[k + 1]);
            assert(!is_white(fields[k + 1][i]));
        }
        law_columns_are_given_back(p, f, tail);
        assert(rest.len() > 0 && is_white(rest[0])) by {
            if f.len() > 0 {
                assert(p[0] == pads[1]);
                assert(pads[1].len() > 0);
                assert(is_white(pads[1][0]));
                assert(rest[0] == p[0][0]);
            }
        }
        assert(fields[0].len() > 0);
        assert forall|i: int| 0 <= i < pads[0].len() implies is_white(#[trigger] pads[0][i]) by {}
        assert forall|i: int| 0 <= i < fields[0].len() implies !is_white(
            #[trigger] fields[0][i],
        ) by {}
        law_columns(pads[0], fields[0], rest, f.len());
        assert(seq![fields[0]] + f =~= fields);
        assert(f.len() + 1 == fields.len());
    }
}

/// A line of `ls -la --time-style=full-iso` is read column by column: the mode
/// letters, the number of links, the owner, the group, the size, the day, the time
/// and the zone, and then the name, which may hold white. The directory itself and
/// its parent are left out.
pub proof fn law_listed_line(
    pads: Seq<Seq<char>>,
    fields: Seq<Seq<char>>,
    gap: char,
    name: Seq<char>,
)
    requires
        lays_out(pads, fields),
        fields.len() == 8,
        is_white(gap),
    ensures
        name == "."@ || name == ".."@ <==> ls_entry(
            laid_out(pads, fields, seq![gap] + name),
        ) is None,
        ls_entry(laid_out(pads, fields, seq![gap] + name)) matches Some(entry) ==> {
            &&& entry.name == name
            &&& entry.permissions == fields[0]
            &&& fields[0][0] == 'd' <==> entry.entry_type == FsEntryType::Directory
            &&& fields[0][0] == 'l' <==> entry.entry_type == FsEntryType::Symlink
            &&& fields[0][0] != 'd' && fields[0][0] != 'l' <==> entry.entry_type
                == FsEntryType::File
            &&& entry.owner == fields[2]
            &&& entry.group == fields[3]
            &&& entry.size == read_or_zero(fields[4], u64::MAX as int)
            &&& entry.modified == fields[5] + seq![' '] + fields[6]
        },
{
    let tail = seq![gap] + name;
    assert(tail[0] == gap);
    assert(tail.drop_first() =~= name);
    law_columns_are_given_back(pads, fields, tail);
    reveal_strlit("d");
    reveal_strlit("l");
    reveal_strlit(" ");
    assert(" "@ =~= seq![' ']);
    let p = fields[0];
    assert(p.len() > 0);
    assert(p.take(1) =~= seq![p[0]]);
    assert("d"@ =~= seq!['d']);
    assert("l"@ =~= seq!['l']);
    assert(seq![p[0]][0] == p[0]);
    assert(seq!['d'][0] == 'd');
    assert(seq!['l'][0] == 'l');
    law_number_is_in_range(fields[4], 10, u64::MAX as int);
}

/// The entries of a listing: each further line that is an entry adds it at the end,
/// and one that is none adds nothing. The first line is the total and is no entry.
pub proof fn law_listed_lines(first: Seq<char>, lines: Seq<Seq<char>>, line: Seq<char>)
    ensures
        after_total(Seq::empty()) == Seq::<Seq<char>>::empty(),
        after_total(seq![first] + lines) == lines,
        ls_entries(Seq::empty()) == Seq::<EntryView>::empty(),
        ls_entry(line) is None ==> ls_entries(lines.push(line)) == ls_entries(lines),
        ls_entry(line) matches Some(entry) ==> ls_entries(lines.push(line)) == ls_entries(
            lines,
        ).push(entry),
{
    assert((seq![first] + lines).drop_first() =~= lines);
    assert(lines.push(line).drop_last() =~= lines);
}

/// The entries of a directory: each file whose metadata was had is told, in the
/// order in which they were found, and the others are left out.
pub proof fn law_found_files_are_told(found: Seq<FoundFile>, file: FoundFile)
    ensures
        known_entries(Seq::empty()) == Seq::<EntryView>::empty(),
        file.meta is None ==> known_entries(found.push(file)) == known_entries(found),
        file.meta matches Some(meta) ==> known_entries(found.push(file)) == known_entries(
            found,
        ).push(meta_entry(file.name@, meta)),
{
    assert(found.push(file).drop_last() =~= found);
}

/// The output of `stat --format=%F|%s|%a|%U|%G|%Y` is read in that order: the type,
/// the size, the mode, the owner, the group and the time. With fewer parts it is not
/// read at all.
pub proof fn law_stat_output(
    name: Seq<char>,
    front: Seq<char>,
    parts: Seq<Seq<char>>,
    back: Seq<char>,
)
    requires
        parts.len() > 0,
        forall|k: int, i: int|
            0 <= k < parts.len() && 0 <= i < parts[k].len() ==> #[trigger] parts[k][i] != '|',
        forall|i: int| 0 <= i < front.len() ==> is_white(#[trigger] front[i]),
        forall|i: int| 0 <= i < back.len() ==> is_white(#[trigger] back[i]),
        parts[0].len() > 0 && !is_white(parts[0][0]),
        parts.last().len() > 0 && !is_white(parts.last().last()),
    ensures
        parts.len() < 6 <==> stat_entry(name, front + joined_by(parts, '|') + back) is None,
        stat_entry(name, front + joined_by(parts, '|') + back) matches Some(entry) ==> {
            &&& entry.name == name
            &&& entry.entry_type == described_type(parts[0])
            &&& entry.size == read_or_zero(parts[1], u64::MAX as int)
            &&& entry.permissions == parts[2]
            &&& entry.owner == parts[3]
            &&& entry.group == parts[4]
            &&& entry.modified == parts[5]
        },
{
    law_joined_parts_between_white(front, parts, back, '|');
    if parts.len() >= 6 {
        law_number_is_in_range(parts[1], 10, u64::MAX as int);
    }
}

/// The type that `stat` describes in words: a directory, or else a link, or else a
/// file.
pub proof fn law_described_type(words: Seq<char>)
    ensures
        described_type(words) == FsEntryType::Directory <==> holds_part(words, "directory"@),
        described_type(words) == FsEntryType::Symlink <==> !holds_part(words, "directory"@)
            && holds_part(words, "link"@),
        described_type(words) == FsEntryType::File <==> !holds_part(words, "directory"@)
            && !holds_part(words, "link"@),
{
}

/// Sorting a listing loses no entry and adds none: each place of it holds an entry
/// from a place of its own.
pub proof fn law_sorting_rearranges(before: Seq<EntryView>, after: Seq<EntryView>)
    requires
        sorted_listing(before, after),
    ensures
        after.len() == before.len(),
        exists|order: Seq<usize>|
            {
                &&& order.len() == before.len()
                &&& #[trigger] order.no_duplicates()
                &&& forall|i: int|
                    0 <= i < order.len() ==> 0 <= #[trigger] order[i] < before.len() && after[i]
                        == before[order[i] as int]
            },
{
    let order = choose|order: Seq<usize>| arranged(before, after, order);
    assert forall|i: int, j: int| 0 <= i < order.len() && 0 <= j < order.len() && i != j implies
        order[i] != order[j] by {
        if i < j {
            lemma_no_entry_is_before_itself(before, order[i] as int);
            assert(listed_before(before, order[i] as int, order[j] as int));
        } else {
            lemma_no_entry_is_before_itself(before, order[j] as int);
            assert(listed_before(before, order[j] as int, order[i] as int));
        }
    }
    assert(order.no_duplicates());
}

proof fn lemma_no_entry_is_before_itself(list: Seq<EntryView>, x: int)
    ensures
        !listed_before(list, x, x),
{
    let bytes = vstd::utf8::encode_utf8(lowercase(list[x].name));
    crate::laws::text::law_byte_order(bytes, 0, 1, Seq::empty(), Seq::empty());
}

/// The order of a listing: directories before everything else, then by the name in
/// lower case, and what has the same name stays as it was.
pub proof fn law_listing_order(list: Seq<EntryView>, x: int, y: int)
    ensures
        list[x].entry_type is Directory && !(list[y].entry_type is Directory) ==> listed_before(
            list,
            x,
            y,
        ) && !listed_before(list, y, x),
        list[x].entry_type is Directory == list[y].entry_type is Directory && lowercase(
            list[x].name,
        ) == lowercase(list[y].name) ==> (listed_before(list, x, y) <==> x < y),
        list[x].entry_type is Directory == list[y].entry_type is Directory && text_before(
            lowercase(list[x].name),
            lowercase(list[y].name),
        ) ==> listed_before(list, x, y) && !listed_before(list, y, x),
{
    let a = vstd::utf8::encode_utf8(lowercase(list[x].name));
    let b = vstd::utf8::encode_utf8(lowercase(list[y].name));
    crate::laws::text::law_byte_order(a, 0, 1, Seq::empty(), Seq::empty());
    crate::order::law_bytes_before_is_total(a, b);
    if list[x].entry_type is Directory == list[y].entry_type is Directory && text_before(
        lowercase(list[x].name),
        lowercase(list[y].name),
    ) {
        assert(a != b);
    }
}

} // verus!
