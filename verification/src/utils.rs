//! Where images and recordings are kept.

use vstd::prelude::*;

use crate::text::{decimal, decimal_text, ends_with, has_suffix, join, join3};

verus! {

/// A folder of the dataset.
#[derive(Clone, Copy, PartialEq, Eq, Debug, Structural)]
pub enum DatasetDir {
    Root,
    Recordings,
    Rune,
}

impl DatasetDir {
    /// The path of the folder, seen from the root of the project.
    pub fn to_folder(&self) -> (res: String)
        ensures
            res@ == match self {
                DatasetDir::Root => "dataset"@,
                DatasetDir::Recordings => "dataset/recordings"@,
                DatasetDir::Rune => "dataset/rune"@,
            },
    {
        match self {
            DatasetDir::Root => "dataset".to_owned(),
            DatasetDir::Recordings => "dataset/recordings".to_owned(),
            DatasetDir::Rune => "dataset/rune".to_owned(),
        }
    }
}

pub open spec fn is_separator(c: char) -> bool {
    c == '/' || c == '\\'
}

/// Whether a path begins with the letter of a drive.
pub open spec fn names_drive(path: Seq<char>) -> bool {
    &&& path.len() >= 2
    &&& 'a' <= path[0] <= 'z' || 'A' <= path[0] <= 'Z'
    &&& path[1] == ':'
}

/// The end of the part that begins at `from`.
pub open spec fn part_end(path: Seq<char>, from: int) -> int
    decreases path.len() - from,
{
    if from < 0 || from >= path.len() {
        path.len() as int
    } else if is_separator(path[from]) {
        from
    } else {
        part_end(path, from + 1)
    }
}

/// The length of what a path begins with to name a drive, or a share and the server that has it.
pub open spec fn prefix_len(path: Seq<char>) -> int {
    if names_drive(path) {
        2
    } else if path.len() >= 2 && is_separator(path[0]) && is_separator(path[1]) {
        let server = part_end(path, 2);
        let share = part_end(path, server + 1);
        if 2 < server && server + 1 < share {
            share
        } else {
            0
        }
    } else {
        0
    }
}

/// Whether a path ends with a separator, or with a part that is a single dot.
pub open spec fn ends_idly(path: Seq<char>) -> bool {
    path.len() > 0 && (is_separator(path.last()) || path.last() == '.' && (path.len() == 1
        || is_separator(path[path.len() - 2])))
}

/// A path without the separators and single dots that it ends with: these name nothing.
pub open spec fn trimmed(path: Seq<char>) -> Seq<char>
    decreases path.len(),
{
    if ends_idly(path) {
        trimmed(path.drop_last())
    } else {
        path
    }
}

/// What comes after the last separator.
pub open spec fn last_part(path: Seq<char>) -> Seq<char>
    decreases path.len(),
{
    if path.len() == 0 || is_separator(path.last()) {
        seq![]
    } else {
        last_part(path.drop_last()).push(path.last())
    }
}

/// Whether the file that a path names is an image by its extension. A name that is nothing but
/// the extension has none, and neither has a drive or a share.
pub open spec fn names_image(path: Seq<char>) -> bool {
    ends_in_image(path.skip(prefix_len(path)))
}

/// Whether the last part of a path that names no drive is an image.
pub open spec fn ends_in_image(path: Seq<char>) -> bool {
    let name = last_part(trimmed(path));
    name.len() > 4 && has_suffix(name, ".png"@)
}

fn find_part_end(path: &str, from: usize) -> (res: usize)
    requires
        from <= path@.len(),
    ensures
        res == part_end(path@, from as int),
        from <= res <= path@.len(),
{
    let len: usize = path.unicode_len();
    let mut end: usize = from;
    while end < len && path.get_char(end) != '/' && path.get_char(end) != '\\'
        invariant
            from <= end <= len,
            len == path@.len(),
            part_end(path@, end as int) == part_end(path@, from as int),
        decreases len - end,
    {
        end = end + 1;
    }
    end
}

fn starts_with_drive(path: &str) -> (res: bool)
    ensures
        res == names_drive(path@),
{
    if path.unicode_len() < 2 {
        return false;
    }
    let first: char = path.get_char(0);
    let second: char = path.get_char(1);
    ('a' <= first && first <= 'z' || 'A' <= first && first <= 'Z') && second == ':'
}

fn find_prefix(path: &str) -> (res: usize)
    ensures
        res == prefix_len(path@),
        res <= path@.len(),
{
    if starts_with_drive(path) {
        return 2;
    }
    let len: usize = path.unicode_len();
    if len < 2 {
        return 0;
    }
    let first: char = path.get_char(0);
    let second: char = path.get_char(1);
    if (first != '/' && first != '\\') || (second != '/' && second != '\\') {
        return 0;
    }
    let server: usize = find_part_end(path, 2);
    if server == 2 || server == len {
        return 0;
    }
    let share: usize = find_part_end(path, server + 1);
    if server + 1 < share {
        share
    } else {
        0
    }
}

fn is_idle_end(path: &str, end: usize) -> (res: bool)
    requires
        end <= path@.len(),
    ensures
        res == ends_idly(path@.take(end as int)),
{
    if end == 0 {
        return false;
    }
    let last: char = path.get_char(end - 1);
    if last == '/' || last == '\\' {
        return true;
    }
    if last != '.' {
        return false;
    }
    if end == 1 {
        return true;
    }
    let before: char = path.get_char(end - 2);
    before == '/' || before == '\\'
}

/// Whether the path names an image.
pub fn is_image_path(path: &str) -> (res: bool)
    ensures
        res == names_image(path@),
{
    let rest: &str = path.substring_char(find_prefix(path), path.unicode_len());
    assert(rest@ =~= path@.skip(prefix_len(path@)));
    has_image_end(rest)
}

fn has_image_end(path: &str) -> (res: bool)
    ensures
        res == ends_in_image(path@),
{
    let mut end: usize = path.unicode_len();
    assert(path@.take(end as int) =~= path@);
    while is_idle_end(path, end)
        invariant
            end <= path@.len(),
            trimmed(path@.take(end as int)) == trimmed(path@),
        decreases end,
    {
        assert(path@.take(end as int).drop_last() =~= path@.take(end - 1));
        end = end - 1;
    }
    assert(trimmed(path@) == path@.take(end as int));
    let mut start: usize = end;
    assert(path@.subrange(start as int, end as int) =~= seq![]);
    let ghost whole = last_part(path@.take(end as int));
    assert(last_part(path@.take(start as int)) + path@.subrange(start as int, end as int)
        =~= whole);
    while start > 0 && path.get_char(start - 1) != '/' && path.get_char(start - 1) != '\\'
        invariant
            start <= end <= path@.len(),
            last_part(path@.take(start as int)) + path@.subrange(start as int, end as int)
                =~= whole,
        decreases start,
    {
        assert(path@.take(start as int).drop_last() =~= path@.take(start - 1));
        start = start - 1;
    }
    assert(last_part(path@.take(start as int)) =~= seq![]);
    assert(path@.subrange(start as int, end as int) =~= whole);
    let name: &str = path.substring_char(start, end);
    name.unicode_len() > 4 && ends_with(name, ".png")
}

/// The name of an image saved at a point in time.
pub open spec fn image_name(millis: nat) -> Seq<char> {
    decimal(millis) + ".png"@
}

pub fn epoch_millis_as_string(millis: u128) -> (res: String)
    ensures
        res@ == decimal(millis as nat),
{
    decimal_text(millis)
}

/// A path that is seen from `base`. One that names a drive or a share is seen from nowhere else. One
/// that begins with a separator is seen from the root of the drive or share that the base is on.
pub open spec fn joined(base: Seq<char>, path: Seq<char>) -> Seq<char> {
    if prefix_len(path) > 0 {
        path
    } else if path.len() > 0 && is_separator(path[0]) {
        base.take(prefix_len(base)) + path
    } else if base.len() == 0 || is_separator(base.last()) || (names_drive(base) && base.len()
        == 2) {
        base + path
    } else {
        base + "/"@ + path
    }
}

/// Puts two paths together. Both separators are understood, also in front of a server, and `/` is
/// the one that is put in between. That a path after `\\?\` is taken literally is not looked at.
pub fn join_paths(base: &str, path: &str) -> (res: String)
    ensures
        res@ == joined(base@, path@),
{
    if find_prefix(path) > 0 {
        return path.to_owned();
    }
    if path.unicode_len() > 0 {
        let first: char = path.get_char(0);
        if first == '/' || first == '\\' {
            let prefix: usize = find_prefix(base);
            let drive: &str = base.substring_char(0, prefix);
            assert(drive@ =~= base@.take(prefix_len(base@)));
            return join(drive, path);
        }
    }
    let n: usize = base.unicode_len();
    if n == 0 || (n == 2 && starts_with_drive(base)) {
        return join(base, path);
    }
    let last: char = base.get_char(n - 1);
    if last == '/' || last == '\\' {
        join(base, path)
    } else {
        join3(base, "/", path)
    }
}

/// The path under which an image is saved: the given one if it names an image, and otherwise a
/// new one inside of it.
pub fn image_path(dir: DatasetDir, relative: &str, millis: u128) -> (res: String)
    ensures
        ({
            let folder = match dir {
                DatasetDir::Root => "dataset"@,
                DatasetDir::Recordings => "dataset/recordings"@,
                DatasetDir::Rune => "dataset/rune"@,
            };
            let path = joined(folder, relative@);
            res@ == if names_image(path) {
                path
            } else {
                joined(path, image_name(millis as nat))
            }
        }),
{
    let folder: String = dir.to_folder();
    let path: String = join_paths(folder.as_str(), relative);
    if is_image_path(path.as_str()) {
        return path;
    }
    let name: String = join(epoch_millis_as_string(millis).as_str(), ".png");
    join_paths(path.as_str(), name.as_str())
}

/// Images saved at different times do not overwrite each other.
pub proof fn law_image_names_differ(a: nat, b: nat)
    requires
        image_name(a) == image_name(b),
    ensures
        a == b,
{
    assert(image_name(a).take(decimal(a).len() as int) =~= decimal(a));
    assert(image_name(b).take(decimal(b).len() as int) =~= decimal(b));
    assert(image_name(a).len() == decimal(a).len() + ".png"@.len());
    assert(image_name(b).len() == decimal(b).len() + ".png"@.len());
    crate::text::law_decimal_is_injective(a, b);
}

/// A part of a path goes up to the next separator, or to the end where there is none.
pub proof fn law_parts_end_at_separators(path: Seq<char>, from: int)
    requires
        0 <= from <= path.len(),
    ensures
        ({
            let end = part_end(path, from);
            &&& from <= end <= path.len()
            &&& forall|i: int|
                from <= i < end ==> #[trigger] path[i] != '/' && path[i] != '\\'
            &&& end < path.len() ==> path[end] == '/' || path[end] == '\\'
        }),
    decreases path.len() - from,
{
    if from < path.len() && !is_separator(path[from]) {
        law_parts_end_at_separators(path, from + 1);
    }
}

/// Whether a text has no separators in it.
pub open spec fn is_one_part(text: Seq<char>) -> bool {
    forall|i: int| 0 <= i < text.len() ==> #[trigger] text[i] != '/' && text[i] != '\\'
}

/// A drive is named by a letter and a colon. A share is named by two separators, its server, one more
/// separator and its own name. Anything else that is a single part names neither.
pub proof fn law_drives_and_shares_are_named(
    letter: char,
    server: Seq<char>,
    share: Seq<char>,
    rest: Seq<char>,
)
    requires
        'a' <= letter <= 'z' || 'A' <= letter <= 'Z',
        is_one_part(server) && server.len() > 0,
        is_one_part(share) && share.len() > 0,
        rest.len() > 0 ==> rest[0] == '/' || rest[0] == '\\',
    ensures
        prefix_len(seq![letter, ':'] + rest) == 2,
        prefix_len(seq!['/', '/'] + server + seq!['/'] + share + rest) == 3 + server.len()
            + share.len(),
        !(server.len() >= 2 && server[1] == ':') ==> prefix_len(server + rest) == 0,
{
    let drive = seq![letter, ':'] + rest;
    assert(drive[0] == letter && drive[1] == ':');
    let path = seq!['/', '/'] + server + seq!['/'] + share + rest;
    assert(path[0] == '/' && path[1] == '/');
    assert(path[2 + server.len() as int] == '/');
    assert forall|i: int| 2 <= i < 2 + server.len() implies #[trigger] path[i] != '/' && path[i]
        != '\\' by {
        assert(path[i] == server[i - 2]);
    }
    assert forall|i: int|
        3 + server.len() <= i < 3 + server.len() + share.len() implies #[trigger] path[i] != '/'
        && path[i] != '\\' by {
        assert(path[i] == share[i - 3 - server.len()]);
    }
    law_parts_end_at_separators(path, 2);
    assert(part_end(path, 2) == 2 + server.len());
    law_parts_end_at_separators(path, 3 + server.len() as int);
    let end = 3 + server.len() as int + share.len();
    if rest.len() > 0 {
        assert(path[end] == rest[0]);
    }
    assert(part_end(path, 3 + server.len() as int) == end);
    assert((server + rest)[0] == server[0]);
    if server.len() >= 2 {
        assert((server + rest)[1] == server[1]);
    } else if rest.len() > 0 {
        assert((server + rest)[1] == rest[0]);
    }
}

proof fn lemma_last_part(front: Seq<char>, name: Seq<char>)
    requires
        is_one_part(name),
        front.len() > 0 ==> is_separator(front.last()),
    ensures
        last_part(front + name) =~= name,
    decreases name.len(),
{
    let path = front + name;
    if name.len() == 0 {
        assert(path =~= front);
    } else {
        assert(path.last() == name.last());
        assert(name[name.len() - 1] == name.last());
        assert(path.drop_last() =~= front + name.drop_last());
        assert forall|i: int| 0 <= i < name.drop_last().len() implies #[trigger] name.drop_last()[i]
            != '/' && name.drop_last()[i] != '\\' by {
            assert(name[i] == name.drop_last()[i]);
        }
        lemma_last_part(front, name.drop_last());
    }
}

/// Whether a path names an image is told by its last part alone, and that by its last four characters,
/// in front of which there must be others.
pub proof fn law_image_is_told_by_its_last_part(front: Seq<char>, name: Seq<char>)
    requires
        front.len() > 0 ==> front.last() == '/' || front.last() == '\\',
        is_one_part(name),
        name.len() > 1 || name.len() == 1 && name[0] != '.',
    ensures
        ends_in_image(front + name) <==> {
            let n = name.len() as int;
            n > 4 && name[n - 4] == '.' && name[n - 3] == 'p' && name[n - 2] == 'n' && name[n - 1]
                == 'g'
        },
{
    let path = front + name;
    let n = name.len() as int;
    assert(path.last() == name[n - 1]);
    if n > 1 {
        assert(path[path.len() - 2] == name[n - 2]);
    }
    assert(!ends_idly(path));
    assert(trimmed(path) == path);
    lemma_last_part(front, name);
    reveal_strlit(".png");
    if n > 4 {
        let tail = name.skip(n - 4);
        assert(tail[0] == name[n - 4] && tail[1] == name[n - 3]);
        assert(tail[2] == name[n - 2] && tail[3] == name[n - 1]);
        if name[n - 4] == '.' && name[n - 3] == 'p' && name[n - 2] == 'n' && name[n - 1] == 'g' {
            assert(tail =~= ".png"@);
        }
    }
}

/// Separators and single dots at the end of a path do not matter.
pub proof fn law_idle_ends_do_not_matter(path: Seq<char>)
    ensures
        ends_in_image(path.push('/')) == ends_in_image(path),
        ends_in_image(path.push('\\')) == ends_in_image(path),
        ends_in_image(path.push('/').push('.')) == ends_in_image(path),
{
    assert(path.push('/').drop_last() =~= path);
    assert(path.push('\\').drop_last() =~= path);
    let dotted = path.push('/').push('.');
    assert(dotted[dotted.len() - 2] == '/');
    assert(dotted.drop_last() =~= path.push('/'));
    assert(trimmed(path.push('/')) == trimmed(path));
    assert(trimmed(dotted) == trimmed(path.push('/')));
}

/// A drive or a share that a path begins with does not matter for what the path names.
pub proof fn law_drives_do_not_matter_for_images(letter: char, path: Seq<char>)
    requires
        'a' <= letter <= 'z' || 'A' <= letter <= 'Z',
    ensures
        names_image(seq![letter, ':'] + path) == ends_in_image(path),
        prefix_len(path) == 0 ==> names_image(path) == ends_in_image(path),
{
    assert((seq![letter, ':'] + path).skip(2) =~= path);
    assert(path.skip(0) =~= path);
}

/// A path that is a plain one comes after its base, with a single separator in between where the base
/// does not end with one. One that names a drive or a share stays alone, and one that begins with a
/// separator keeps of its base only the drive or the share.
pub proof fn law_paths_are_joined_with_one_separator(base: Seq<char>, path: Seq<char>)
    ensures
        prefix_len(path) > 0 ==> joined(base, path) == path,
        prefix_len(path) == 0 && path.len() > 0 && (path[0] == '/' || path[0] == '\\') ==> joined(
            base,
            path,
        ) == base.take(prefix_len(base)) + path,
        prefix_len(path) == 0 && (path.len() == 0 || path[0] != '/' && path[0] != '\\') ==> {
            let bare_drive = base.len() == 2 && prefix_len(base) == 2 && base[1] == ':' && ('a'
                <= base[0] <= 'z' || 'A' <= base[0] <= 'Z');
            joined(base, path) == if base.len() == 0 || base.last() == '/' || base.last() == '\\'
                || bare_drive {
                base + path
            } else {
                base.push('/') + path
            }
        },
{
    reveal_strlit("/");
    assert(base + "/"@ =~= base.push('/'));
}

} // verus!
