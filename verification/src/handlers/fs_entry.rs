//! Directory entries: what a file's metadata or a line of `ls` or `stat` says of
//! it, and the order of a listing.

use crate::clock::{as_signed, to_signed, utc_rfc3339, utc_text, within_calendar, Moment};
use crate::encoding::{lowercase, to_lowercase};
use crate::methods::{FsEntry, FsEntryType};
use crate::number::{decimal, parse_or_zero, read_or_zero, to_decimal};
use crate::order::{in_order, sort_order, text_before, SortKey};
use crate::split::{columns, lemma_columns, lines_of, pieces, split, split_columns, Cut};
use crate::text::{cat3, drop_char, holds_part, opens_with, same_text, starts_with, texts};
use vstd::prelude::*;
use vstd::string::{StrSliceExecFns, StringExecFns};

verus! {

/// The bits of a mode that tell the type of a file.
pub const TYPE_MASK: u32 = 0o170000;

/// The type of a directory.
pub const TYPE_DIRECTORY: u32 = 0o040000;

/// The type of a symbolic link.
pub const TYPE_LINK: u32 = 0o120000;

/// What an entry says.
pub struct EntryView {
    pub name: Seq<char>,
    pub entry_type: FsEntryType,
    pub size: u64,
    pub permissions: Seq<char>,
    pub modified: Seq<char>,
    pub owner: Seq<char>,
    pub group: Seq<char>,
}

impl View for FsEntry {
    type V = EntryView;

    open spec fn view(&self) -> EntryView {
        EntryView {
            name: self.name@,
            entry_type: self.entry_type,
            size: self.size,
            permissions: self.permissions@,
            modified: self.modified@,
            owner: self.owner@,
            group: self.group@,
        }
    }
}

/// What the entries of a list say.
pub open spec fn entry_views(list: Seq<FsEntry>) -> Seq<EntryView> {
    list.map_values(|e: FsEntry| e@)
}

// ---------------------------------------------------------------------------
// Modes and names
// ---------------------------------------------------------------------------

/// The letter where the mode has the bit, a dash where it has not.
pub open spec fn bit_letter(mode: u32, bit: u32, letter: char) -> char {
    if mode & bit != 0 {
        letter
    } else {
        '-'
    }
}

/// The letter of the file's type.
pub open spec fn type_letter(mode: u32) -> char {
    if mode & TYPE_MASK == TYPE_DIRECTORY {
        'd'
    } else if mode & TYPE_MASK == TYPE_LINK {
        'l'
    } else {
        '-'
    }
}

/// A mode as text: the file's type, then what its user, its group and others may
/// do.
pub open spec fn mode_text(mode: u32) -> Seq<char> {
    seq![
        type_letter(mode),
        bit_letter(mode, 0o400, 'r'),
        bit_letter(mode, 0o200, 'w'),
        bit_letter(mode, 0o100, 'x'),
        bit_letter(mode, 0o040, 'r'),
        bit_letter(mode, 0o020, 'w'),
        bit_letter(mode, 0o010, 'x'),
        bit_letter(mode, 0o004, 'r'),
        bit_letter(mode, 0o002, 'w'),
        bit_letter(mode, 0o001, 'x'),
    ]
}

fn bit_as_letter(mode: u32, bit: u32, letter: char) -> (c: char)
    ensures
        c == bit_letter(mode, bit, letter),
{
    if mode & bit != 0 {
        letter
    } else {
        '-'
    }
}

/// Convert a Unix mode to a permission string like "drwxr-xr-x".
pub fn mode_to_string(mode: u32) -> (s: String)
    ensures
        s@ == mode_text(mode),
{
    let mut s = String::new();
    let file_type = mode & TYPE_MASK;
    if file_type == TYPE_DIRECTORY {
        s.push('d');
    } else if file_type == TYPE_LINK {
        s.push('l');
    } else {
        s.push('-');
    }
    // User
    s.push(bit_as_letter(mode, 0o400, 'r'));
    s.push(bit_as_letter(mode, 0o200, 'w'));
    s.push(bit_as_letter(mode, 0o100, 'x'));
    // Group
    s.push(bit_as_letter(mode, 0o040, 'r'));
    s.push(bit_as_letter(mode, 0o020, 'w'));
    s.push(bit_as_letter(mode, 0o010, 'x'));
    // Others
    s.push(bit_as_letter(mode, 0o004, 'r'));
    s.push(bit_as_letter(mode, 0o002, 'w'));
    s.push(bit_as_letter(mode, 0o001, 'x'));
    assert(s@ =~= mode_text(mode));
    s
}

/// The name of a user or group, or its number where it has no name.
pub open spec fn name_or_number(found: Option<String>, number: u32) -> Seq<char> {
    match found {
        Some(name) => name@,
        None => decimal(number as nat),
    }
}

/// Convert a UID, whose name was found or not, to a username (or stringify the
/// UID).
pub fn uid_to_name(found: Option<String>, uid: u32) -> (name: String)
    ensures
        name@ == name_or_number(found, uid),
{
    match found {
        Some(name) => name,
        None => to_decimal(uid as u64),
    }
}

/// Convert a GID, whose name was found or not, to a group name (or stringify the
/// GID).
pub fn gid_to_name(found: Option<String>, gid: u32) -> (name: String)
    ensures
        name@ == name_or_number(found, gid),
{
    match found {
        Some(name) => name,
        None => to_decimal(gid as u64),
    }
}

// ---------------------------------------------------------------------------
// Metadata
// ---------------------------------------------------------------------------

/// What the file system says of a file.
pub struct FileMeta {
    pub is_dir: bool,
    pub is_symlink: bool,
    pub len: u64,
    pub mode: u32,
    pub uid: u32,
    pub gid: u32,
    /// The time of the last change in seconds since the Unix epoch, where it is
    /// told and not before the epoch.
    pub modified_secs: Option<u64>,
    /// The name of the owner, where there is one.
    pub owner: Option<String>,
    /// The name of the group, where there is one.
    pub group: Option<String>,
}

/// When a file was changed, as text; nothing where that cannot be told.
pub open spec fn modified_text(secs: Option<u64>) -> Seq<char> {
    match secs {
        Some(s) => if within_calendar(as_signed(s)) {
            utc_text(as_signed(s) as i64, 0)
        } else {
            Seq::empty()
        },
        None => Seq::empty(),
    }
}

/// What metadata says of the type of a file.
pub open spec fn meta_type(meta: FileMeta) -> FsEntryType {
    if meta.is_dir {
        FsEntryType::Directory
    } else if meta.is_symlink {
        FsEntryType::Symlink
    } else {
        FsEntryType::File
    }
}

/// The entry of a file with this name and metadata.
pub open spec fn meta_entry(name: Seq<char>, meta: FileMeta) -> EntryView {
    EntryView {
        name,
        entry_type: meta_type(meta),
        size: meta.len,
        permissions: mode_text(meta.mode),
        modified: modified_text(meta.modified_secs),
        owner: name_or_number(meta.owner, meta.uid),
        group: name_or_number(meta.group, meta.gid),
    }
}

/// Build an FsEntry from metadata and file name.
pub fn metadata_to_entry(name: &str, meta: FileMeta) -> (entry: FsEntry)
    ensures
        entry@ == meta_entry(name@, meta),
{
    let entry_type = if meta.is_dir {
        FsEntryType::Directory
    } else if meta.is_symlink {
        FsEntryType::Symlink
    } else {
        FsEntryType::File
    };
    let modified = match meta.modified_secs {
        Some(secs) => match utc_rfc3339(Moment { secs: to_signed(secs), nanos: 0 }) {
            Some(text) => text,
            None => String::new(),
        },
        None => String::new(),
    };
    FsEntry {
        name: String::from_str(name),
        entry_type,
        size: meta.len,
        permissions: mode_to_string(meta.mode),
        modified,
        owner: uid_to_name(meta.owner, meta.uid),
        group: gid_to_name(meta.group, meta.gid),
    }
}

/// The entry that stands for a file that does not exist.
pub open spec fn no_entry() -> EntryView {
    EntryView {
        name: Seq::empty(),
        entry_type: FsEntryType::File,
        size: 0,
        permissions: Seq::empty(),
        modified: Seq::empty(),
        owner: Seq::empty(),
        group: Seq::empty(),
    }
}

/// The entry that stands for a file that does not exist.
pub fn missing_entry() -> (entry: FsEntry)
    ensures
        entry@ == no_entry(),
{
    FsEntry {
        name: String::new(),
        entry_type: FsEntryType::File,
        size: 0,
        permissions: String::new(),
        modified: String::new(),
        owner: String::new(),
        group: String::new(),
    }
}

// ---------------------------------------------------------------------------
// Lines of `ls -la --time-style=full-iso`
// ---------------------------------------------------------------------------

/// The type that the first letter of the permissions tells.
pub open spec fn permissions_type(permissions: Seq<char>) -> FsEntryType {
    if opens_with(permissions, "d"@) {
        FsEntryType::Directory
    } else if opens_with(permissions, "l"@) {
        FsEntryType::Symlink
    } else {
        FsEntryType::File
    }
}

/// The entry on a line: permissions, links, owner, group, size, date, time and
/// zone in columns, with any white space before each, then one white space
/// character and the name. There is none on a line with fewer fields, nor for the
/// directory itself and its parent.
pub open spec fn ls_entry(line: Seq<char>) -> Option<EntryView> {
    match columns(line, 8) {
        Some((fields, rest)) => {
            let name = rest.drop_first();
            if name == "."@ || name == ".."@ {
                None
            } else {
                Some(
                    EntryView {
                        name,
                        entry_type: permissions_type(fields[0]),
                        size: read_or_zero(fields[4], u64::MAX as int) as u64,
                        permissions: fields[0],
                        modified: fields[5] + " "@ + fields[6],
                        owner: fields[2],
                        group: fields[3],
                    },
                )
            }
        },
        None => None,
    }
}

/// The entries on the lines, in order.
pub open spec fn ls_entries(lines: Seq<Seq<char>>) -> Seq<EntryView>
    decreases lines.len(),
{
    if lines.len() == 0 {
        Seq::empty()
    } else {
        let before = ls_entries(lines.drop_last());
        match ls_entry(lines.last()) {
            Some(entry) => before.push(entry),
            None => before,
        }
    }
}

/// The lines after the first, which tells the total.
pub open spec fn after_total(lines: Seq<Seq<char>>) -> Seq<Seq<char>> {
    if lines.len() == 0 {
        lines
    } else {
        lines.drop_first()
    }
}

/// The entry on a line of `ls`, if there is one.
pub fn parse_ls_line(line: &str) -> (r: Option<FsEntry>)
    ensures
        match r {
            Some(entry) => ls_entry(line@) == Some(entry@),
            None => ls_entry(line@) is None,
        },
{
    let (parts, rest) = match split_columns(line, 8) {
        Some(columns) => columns,
        None => return None,
    };
    proof {
        lemma_columns(line@, 8);
    }
    let name = drop_char(rest.as_str());
    assert(forall|i: int| 0 <= i < parts@.len() ==> texts(parts@)[i] == (#[trigger] parts@[i])@);
    if same_text(name.as_str(), ".") || same_text(name.as_str(), "..") {
        return None;
    }
    let entry_type = if starts_with(parts[0].as_str(), "d") {
        FsEntryType::Directory
    } else if starts_with(parts[0].as_str(), "l") {
        FsEntryType::Symlink
    } else {
        FsEntryType::File
    };
    Some(
        FsEntry {
            name,
            entry_type,
            size: parse_or_zero(parts[4].as_str()),
            permissions: parts[0].clone(),
            modified: cat3(parts[5].as_str(), " ", parts[6].as_str()),
            owner: parts[2].clone(),
            group: parts[3].clone(),
        },
    )
}

/// The entries that `ls -la` lists.
pub fn parse_ls(output: &str) -> (r: Vec<FsEntry>)
    ensures
        entry_views(r@) == ls_entries(after_total(lines_of(output@))),
{
    let lines = crate::split::lines(output);
    let ghost all = after_total(lines_of(output@));
    let n = lines.len();
    let mut r: Vec<FsEntry> = Vec::new();
    if n == 0 {
        assert(entry_views(r@) =~= ls_entries(all));
        return r;
    }
    let mut i: usize = 1;
    assert(all.take(0) =~= Seq::empty());
    assert(entry_views(r@) =~= Seq::empty());
    while i < n
        invariant
            n == lines@.len(),
            1 <= i <= n,
            texts(lines@) == lines_of(output@),
            all == after_total(lines_of(output@)),
            all.len() == n - 1,
            entry_views(r@) == ls_entries(all.take(i - 1)),
        decreases n - i,
    {
        assert(all[i - 1] == lines@[i as int]@) by {
            assert(texts(lines@)[i as int] == lines@[i as int]@);
        }
        assert(all.take(i as int).drop_last() =~= all.take(i - 1));
        assert(all.take(i as int).last() == all[i - 1]);
        let ghost before = entry_views(r@);
        match parse_ls_line(lines[i].as_str()) {
            Some(entry) => {
                r.push(entry);
                assert(entry_views(r@) =~= before.push(entry@));
            },
            None => {},
        }
        i += 1;
    }
    assert(all.take(n - 1) =~= all);
    r
}

// ---------------------------------------------------------------------------
// The line of `stat --format=%F|%s|%a|%U|%G|%Y`
// ---------------------------------------------------------------------------

/// The type that `stat` tells in words.
pub open spec fn described_type(words: Seq<char>) -> FsEntryType {
    if holds_part(words, "directory"@) {
        FsEntryType::Directory
    } else if holds_part(words, "link"@) {
        FsEntryType::Symlink
    } else {
        FsEntryType::File
    }
}

/// The entry of the file `name` that `stat` tells: type, size, mode, owner,
/// group and time of change, between bars.
pub open spec fn stat_entry(name: Seq<char>, output: Seq<char>) -> Option<EntryView> {
    let parts = pieces(crate::text::trimmed(output), Cut::At('|'), None);
    if parts.len() < 6 {
        None
    } else {
        Some(
            EntryView {
                name,
                entry_type: described_type(parts[0]),
                size: read_or_zero(parts[1], u64::MAX as int) as u64,
                permissions: parts[2],
                modified: parts[5],
                owner: parts[3],
                group: parts[4],
            },
        )
    }
}

/// The entry of the file `name` that the output of `stat` tells, if it does.
pub fn parse_stat(name: String, output: &str) -> (r: Option<FsEntry>)
    ensures
        match r {
            Some(entry) => stat_entry(name@, output@) == Some(entry@),
            None => stat_entry(name@, output@) is None,
        },
{
    let line = crate::text::trim(output);
    let parts = split(line.as_str(), Cut::At('|'), None);
    let ghost p = pieces(line@, Cut::At('|'), None);
    assert(p.len() == parts@.len());
    if parts.len() < 6 {
        return None;
    }
    assert(forall|i: int| 0 <= i < parts@.len() ==> p[i] == (#[trigger] parts@[i])@);
    let entry_type = if crate::text::contains_text(parts[0].as_str(), "directory") {
        FsEntryType::Directory
    } else if crate::text::contains_text(parts[0].as_str(), "link") {
        FsEntryType::Symlink
    } else {
        FsEntryType::File
    };
    Some(
        FsEntry {
            name,
            entry_type,
            size: parse_or_zero(parts[1].as_str()),
            permissions: parts[2].clone(),
            modified: parts[5].clone(),
            owner: parts[3].clone(),
            group: parts[4].clone(),
        },
    )
}

// ---------------------------------------------------------------------------
// The order of a listing
// ---------------------------------------------------------------------------

/// Whether the entry at place `x` of a list belongs before the one at place `y`:
/// directories first, then by the name in lower case; what is equal in both
/// keeps its order.
pub open spec fn listed_before(list: Seq<EntryView>, x: int, y: int) -> bool {
    let a = list[x];
    let b = list[y];
    let a_dir = a.entry_type is Directory;
    let b_dir = b.entry_type is Directory;
    ||| a_dir && !b_dir
    ||| a_dir == b_dir && text_before(lowercase(a.name), lowercase(b.name))
    ||| a_dir == b_dir && lowercase(a.name) == lowercase(b.name) && x < y
}

/// Whether `after` holds what `order` picks from `before`, and `order` names each
/// place of `before` once, in the order in which the entries belong.
pub open spec fn arranged(before: Seq<EntryView>, after: Seq<EntryView>, order: Seq<usize>) -> bool {
    &&& order.len() == before.len()
    &&& after.len() == before.len()
    &&& forall|i: int| 0 <= i < order.len() ==> 0 <= #[trigger] order[i] < before.len()
    &&& forall|i: int| 0 <= i < order.len() ==> #[trigger] after[i] == before[order[i] as int]
    &&& forall|i: int, j: int|
        0 <= i < j < order.len() ==> listed_before(
            before,
            #[trigger] order[i] as int,
            #[trigger] order[j] as int,
        )
}

/// Whether `after` is the sorted listing of `before`.
pub open spec fn sorted_listing(before: Seq<EntryView>, after: Seq<EntryView>) -> bool {
    exists|order: Seq<usize>| arranged(before, after, order)
}

/// A second entry that says the same.
pub fn copy_entry(entry: &FsEntry) -> (r: FsEntry)
    ensures
        r@ == entry@,
{
    let entry_type = match entry.entry_type {
        FsEntryType::File => FsEntryType::File,
        FsEntryType::Directory => FsEntryType::Directory,
        FsEntryType::Symlink => FsEntryType::Symlink,
    };
    FsEntry {
        name: entry.name.clone(),
        entry_type,
        size: entry.size,
        permissions: entry.permissions.clone(),
        modified: entry.modified.clone(),
        owner: entry.owner.clone(),
        group: entry.group.clone(),
    }
}

/// Sort: directories first, then alphabetically.
pub fn sort_entries(entries: &Vec<FsEntry>) -> (r: Vec<FsEntry>)
    ensures
        sorted_listing(entry_views(entries@), entry_views(r@)),
{
    let n = entries.len();
    let ghost before = entry_views(entries@);
    let mut keys: Vec<SortKey> = Vec::new();
    let mut i: usize = 0;
    while i < n
        invariant
            n == entries@.len(),
            i <= n,
            keys@.len() == i,
            before == entry_views(entries@),
            forall|j: int|
                0 <= j < i ==> (#[trigger] keys@[j]).leads == (before[j].entry_type is Directory)
                    && keys@[j].key@ == vstd::utf8::encode_utf8(lowercase(before[j].name)),
        decreases n - i,
    {
        let leads = match entries[i].entry_type {
            FsEntryType::Directory => true,
            _ => false,
        };
        let low = to_lowercase(entries[i].name.as_str());
        keys.push(SortKey { leads, key: low.as_str().as_bytes_vec() });
        i += 1;
    }
    let order = sort_order(&keys, 0, n);
    let mut r: Vec<FsEntry> = Vec::new();
    i = 0;
    while i < n
        invariant
            n == entries@.len(),
            n == keys@.len(),
            n == order@.len(),
            i <= n,
            r@.len() == i,
            in_order(keys@, order@, 0, n as int),
            before == entry_views(entries@),
            forall|j: int| 0 <= j < i ==> (#[trigger] r@[j])@ == before[order@[j] as int],
        decreases n - i,
    {
        assert(0 <= order@[i as int] < n);
        r.push(copy_entry(&entries[order[i]]));
        i += 1;
    }
    proof {
        let after = entry_views(r@);
        assert forall|x: int, y: int|
            0 <= x < n && 0 <= y < n && crate::order::belongs_before(keys@, x, y) implies
            #[trigger] listed_before(before, x, y) by {
            let a = lowercase(before[x].name);
            let b = lowercase(before[y].name);
            assert(keys@[x].key@ == vstd::utf8::encode_utf8(a));
            assert(keys@[y].key@ == vstd::utf8::encode_utf8(b));
            vstd::utf8::encode_utf8_decode_utf8(a);
            vstd::utf8::encode_utf8_decode_utf8(b);
        }
        assert(arranged(before, after, order@)) by {
            assert forall|i: int, j: int| 0 <= i < j < order@.len() implies listed_before(
                before,
                #[trigger] order@[i] as int,
                #[trigger] order@[j] as int,
            ) by {
                assert(0 <= order@[i] < n && 0 <= order@[j] < n);
                assert(crate::order::belongs_before(keys@, order@[i] as int, order@[j] as int));
            }
        }
    }
    r
}

/// In a sorted listing every directory stands before every other entry.
pub proof fn law_directories_come_first(
    before: Seq<EntryView>,
    after: Seq<EntryView>,
    i: int,
    j: int,
)
    requires
        sorted_listing(before, after),
        0 <= i < j < after.len(),
        after[j].entry_type is Directory,
    ensures
        after[i].entry_type is Directory,
{
    let order = choose|order: Seq<usize>| arranged(before, after, order);
    assert(after[i] == before[order[i] as int]);
    assert(after[j] == before[order[j] as int]);
    assert(listed_before(before, order[i] as int, order[j] as int));
}

/// In a sorted listing, of two entries that are both directories or both not, the
/// later one's name in lower case does not come before the earlier one's.
pub proof fn law_names_are_in_order(before: Seq<EntryView>, after: Seq<EntryView>, i: int, j: int)
    requires
        sorted_listing(before, after),
        0 <= i < j < after.len(),
        (after[i].entry_type is Directory) == (after[j].entry_type is Directory),
    ensures
        !text_before(lowercase(after[j].name), lowercase(after[i].name)),
{
    let order = choose|order: Seq<usize>| arranged(before, after, order);
    assert(after[i] == before[order[i] as int]);
    assert(after[j] == before[order[j] as int]);
    assert(listed_before(before, order[i] as int, order[j] as int));
    let a = vstd::utf8::encode_utf8(lowercase(after[i].name));
    let b = vstd::utf8::encode_utf8(lowercase(after[j].name));
    crate::order::law_bytes_before_is_total(a, b);
    crate::order::law_bytes_before_is_total(a, a);
}

proof fn lemma_listed_before_is_strict(list: Seq<EntryView>, x: int, y: int)
    requires
        listed_before(list, x, y),
    ensures
        x != y,
        !listed_before(list, y, x),
{
    let a = vstd::utf8::encode_utf8(lowercase(list[x].name));
    let b = vstd::utf8::encode_utf8(lowercase(list[y].name));
    crate::order::law_bytes_before_is_total(a, b);
    crate::order::law_bytes_before_is_total(a, a);
}

/// An order that arranges a listing names every place.
proof fn lemma_every_place_is_named(
    before: Seq<EntryView>,
    after: Seq<EntryView>,
    order: Seq<usize>,
    place: int,
) -> (i: int)
    requires
        arranged(before, after, order),
        0 <= place < before.len(),
    ensures
        0 <= i < order.len(),
        order[i] == place,
{
    let n = before.len() as int;
    let places = Seq::new(order.len(), |i: int| order[i] as int);
    assert forall|i: int, j: int| 0 <= i < j < places.len() implies places[i] != places[j] by {
        assert(listed_before(before, order[i] as int, order[j] as int));
        lemma_listed_before_is_strict(before, order[i] as int, order[j] as int);
    }
    assert(places.no_duplicates());
    places.unique_seq_to_set();
    vstd::set_lib::lemma_int_range(0, n);
    let range = vstd::set_lib::set_int_range(0, n);
    assert(places.to_set().subset_of(range)) by {
        assert forall|p: int| places.to_set().contains(p) implies range.contains(p) by {
            let i = choose|i: int| 0 <= i < places.len() && places[i] == p;
            assert(0 <= order[i] < before.len());
        }
    }
    vstd::seq_lib::seq_to_set_is_finite(places);
    vstd::set_lib::lemma_subset_equality(places.to_set(), range);
    assert(range.contains(place));
    assert(places.contains(place));
    let i = choose|i: int| 0 <= i < places.len() && places[i] == place;
    assert(order[i] as int == places[i]);
    i
}

proof fn lemma_orders_agree(
    before: Seq<EntryView>,
    a: Seq<EntryView>,
    b: Seq<EntryView>,
    p: Seq<usize>,
    q: Seq<usize>,
    i: int,
)
    requires
        arranged(before, a, p),
        arranged(before, b, q),
        0 <= i <= before.len(),
    ensures
        forall|k: int| 0 <= k < i ==> #[trigger] p[k] == q[k],
    decreases i,
{
    if i > 0 {
        let last = i - 1;
        lemma_orders_agree(before, a, b, p, q, last);
        if p[last] != q[last] {
            let x = p[last] as int;
            let y = q[last] as int;
            let k = lemma_every_place_is_named(before, b, q, x);
            if k < last {
                assert(p[k] == q[k]);
                assert(listed_before(before, p[k] as int, p[last] as int));
                lemma_listed_before_is_strict(before, x, x);
            }
            assert(listed_before(before, q[last] as int, q[k] as int));
            let m = lemma_every_place_is_named(before, a, p, y);
            if m < last {
                assert(p[m] == q[m]);
                assert(listed_before(before, q[m] as int, q[last] as int));
                lemma_listed_before_is_strict(before, y, y);
            }
            assert(listed_before(before, p[last] as int, p[m] as int));
            lemma_listed_before_is_strict(before, x, y);
        }
    }
}

/// Entries have only one sorted listing.
pub proof fn law_sorted_listing_is_the_only_one(
    before: Seq<EntryView>,
    a: Seq<EntryView>,
    b: Seq<EntryView>,
)
    requires
        sorted_listing(before, a),
        sorted_listing(before, b),
    ensures
        a == b,
{
    let p = choose|order: Seq<usize>| arranged(before, a, order);
    let q = choose|order: Seq<usize>| arranged(before, b, order);
    lemma_orders_agree(before, a, b, p, q, before.len() as int);
    assert forall|i: int| 0 <= i < a.len() implies a[i] == b[i] by {
        assert(p[i] == q[i]);
        assert(a[i] == before[p[i] as int]);
        assert(b[i] == before[q[i] as int]);
    }
    assert(a =~= b);
}

} // verus!
