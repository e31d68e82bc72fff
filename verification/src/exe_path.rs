//! Paths of executables, as UTF-16 code units.
//!
//! A path is read as an optional drive (an ASCII letter and a colon), then
//! names separated by `\` or `/`. Empty names and the name `.` do not count.
//! Other prefixes (a network share, a verbatim path) get no reading of their
//! own: their parts are names like any other.

use vstd::prelude::*;
use vstd::slice::slice_subrange;
use crate::utf16::{decode_lossy, utf16_lossy};

verus! {

/// The code unit of `\`.
pub const BACKSLASH: u16 = 0x5C;

/// The code unit of `/`.
pub const SLASH: u16 = 0x2F;

/// The code unit of `.`.
pub const DOT: u16 = 0x2E;

/// The code unit of `:`.
pub const COLON: u16 = 0x3A;

/// `\` and `/` separate names.
pub open spec fn is_separator(unit: u16) -> bool {
    unit == BACKSLASH || unit == SLASH
}

/// An ASCII letter, of either case.
pub open spec fn is_letter(unit: u16) -> bool {
    0x41 <= unit <= 0x5A || 0x61 <= unit <= 0x7A
}

/// The drive that the path names, as its upper-case letter.
pub open spec fn drive_of(path: Seq<u16>) -> Option<u16> {
    if path.len() >= 2 && is_letter(path[0]) && path[1] == COLON {
        Some(
            if path[0] >= 0x61 {
                (path[0] - 0x20) as u16
            } else {
                path[0]
            },
        )
    } else {
        None
    }
}

/// Where the names begin: behind the drive, if there is one.
pub open spec fn body_start(path: Seq<u16>) -> int {
    if drive_of(path) is Some {
        2
    } else {
        0
    }
}

/// The path starts at the root of its drive.
pub open spec fn is_rooted(path: Seq<u16>) -> bool {
    body_start(path) < path.len() && is_separator(path[body_start(path)])
}

/// The first position at or behind `from` that holds a separator, or the
/// path's length.
pub open spec fn name_end(path: Seq<u16>, from: int) -> int
    decreases path.len() - from,
{
    if from < 0 || from >= path.len() || is_separator(path[from]) {
        from
    } else {
        name_end(path, from + 1)
    }
}

/// The name `.`, which stands for the directory it is in.
pub open spec fn dot_name() -> Seq<u16> {
    seq![DOT]
}

/// The name `..`, which stands for the directory above.
pub open spec fn dot_dot_name() -> Seq<u16> {
    seq![DOT, DOT]
}

/// The names of the path from position `from` on, in order.
pub open spec fn names_from(path: Seq<u16>, from: int) -> Seq<Seq<u16>>
    decreases path.len() - from,
{
    if from < 0 || from >= path.len() {
        Seq::empty()
    } else if is_separator(path[from]) {
        names_from(path, from + 1)
    } else {
        proof {
            name_end_bounds(path, from);
        }
        let end = name_end(path, from);
        let name = path.subrange(from, end);
        if name == dot_name() {
            names_from(path, end)
        } else {
            seq![name] + names_from(path, end)
        }
    }
}

/// The names of the path, in order.
pub open spec fn names(path: Seq<u16>) -> Seq<Seq<u16>> {
    names_from(path, body_start(path))
}

/// A name ends behind where it starts, within the path, at a separator or
/// at the path's end, and holds no separator.
pub proof fn name_end_bounds(path: Seq<u16>, from: int)
    requires
        0 <= from <= path.len(),
    ensures
        from <= name_end(path, from) <= path.len(),
        from < path.len() && !is_separator(path[from]) ==> from < name_end(path, from),
        name_end(path, from) < path.len() ==> is_separator(path[name_end(path, from)]),
        forall|k: int| from <= k < name_end(path, from) ==> !is_separator(#[trigger] path[k]),
    decreases path.len() - from,
{
    if from < path.len() && !is_separator(path[from]) {
        name_end_bounds(path, from + 1);
    }
}

/// The position of the last `.` in a name, or -1 if it has none.
pub open spec fn last_dot(name: Seq<u16>) -> int
    decreases name.len(),
{
    if name.len() == 0 {
        -1
    } else if name.last() == DOT {
        name.len() - 1
    } else {
        last_dot(name.drop_last())
    }
}

/// A file name without its extension: what stands before the last `.`,
/// unless nothing stands before it or there is none.
pub open spec fn stem_of(name: Seq<u16>) -> Seq<u16> {
    let dot = last_dot(name);
    if dot > 0 {
        name.subrange(0, dot)
    } else {
        name
    }
}

/// The file that the path names: its last name, unless that is `..`.
pub open spec fn file_name(path: Seq<u16>) -> Option<Seq<u16>> {
    let all = names(path);
    if all.len() > 0 && all.last() != dot_dot_name() {
        Some(all.last())
    } else {
        None
    }
}

/// What an executable at this path is called: the stem of its file name, or
/// the whole path where it names no file.
pub open spec fn owner_units(path: Seq<u16>) -> Seq<u16> {
    match file_name(path) {
        Some(name) => stem_of(name),
        None => path,
    }
}

/// The name `Windows`.
pub open spec fn windows_name() -> Seq<u16> {
    seq![0x57u16, 0x69u16, 0x6Eu16, 0x64u16, 0x6Fu16, 0x77u16, 0x73u16]
}

/// The name `SystemApps`.
pub open spec fn system_apps_name() -> Seq<u16> {
    seq![
        0x53u16,
        0x79u16,
        0x73u16,
        0x74u16,
        0x65u16,
        0x6Du16,
        0x41u16,
        0x70u16,
        0x70u16,
        0x73u16,
    ]
}

/// The path is, or lies under, the directory `C:\Windows\SystemApps`, where
/// the system keeps the applications of its own shell. The drive letter
/// counts in either case, the names as they are written.
pub open spec fn is_system_app(path: Seq<u16>) -> bool {
    &&& drive_of(path) == Some(0x43u16)
    &&& is_rooted(path)
    &&& names(path).len() >= 2
    &&& names(path)[0] == windows_name()
    &&& names(path)[1] == system_apps_name()
}

fn separates(unit: u16) -> (b: bool)
    ensures
        b == is_separator(unit),
{
    unit == BACKSLASH || unit == SLASH
}

fn has_drive(path: &[u16]) -> (b: bool)
    ensures
        b == (drive_of(path@) is Some),
{
    path.len() >= 2 && ((0x41 <= path[0] && path[0] <= 0x5A) || (0x61 <= path[0] && path[0]
        <= 0x7A)) && path[1] == COLON
}

fn find_name_end(path: &[u16], from: usize) -> (end: usize)
    requires
        from <= path.len(),
    ensures
        end == name_end(path@, from as int),
        from <= end <= path.len(),
{
    let mut end: usize = from;
    while end < path.len() && !separates(path[end])
        invariant
            from <= end <= path.len(),
            name_end(path@, end as int) == name_end(path@, from as int),
        decreases path.len() - end,
    {
        end += 1;
    }
    end
}

/// The first name at or behind `from`, as the range of positions it takes.
fn next_name(path: &[u16], from: usize) -> (found: Option<(usize, usize)>)
    requires
        from <= path.len(),
    ensures
        found is None ==> names_from(path@, from as int) == Seq::<Seq<u16>>::empty(),
        found is Some ==> from <= found.unwrap().0 < found.unwrap().1 <= path.len(),
        found is Some ==> names_from(path@, from as int) == seq![
            path@.subrange(found.unwrap().0 as int, found.unwrap().1 as int),
        ] + names_from(path@, found.unwrap().1 as int),
{
    let mut at: usize = from;
    while at < path.len()
        invariant
            from <= at <= path.len(),
            names_from(path@, at as int) == names_from(path@, from as int),
        decreases path.len() - at,
    {
        if separates(path[at]) {
            at += 1;
        } else {
            let end: usize = find_name_end(path, at);
            proof {
                name_end_bounds(path@, at as int);
            }
            let ghost name = path@.subrange(at as int, end as int);
            if end - at == 1 && path[at] == DOT {
                assert(name =~= dot_name());
                at = end;
            } else {
                assert(name != dot_name()) by {
                    if name == dot_name() {
                        assert(name.len() == 1);
                        assert(name[0] == DOT);
                    }
                }
                return Some((at, end));
            }
        }
    }
    None
}

/// Whether the positions from `start` to `end` hold exactly `expected`.
fn range_is(path: &[u16], start: usize, end: usize, expected: &[u16]) -> (same: bool)
    requires
        start <= end <= path.len(),
    ensures
        same == (path@.subrange(start as int, end as int) == expected@),
{
    if end - start != expected.len() {
        return false;
    }
    let mut k: usize = 0;
    while k < expected.len()
        invariant
            start <= end <= path.len(),
            end - start == expected.len(),
            k <= expected.len(),
            forall|j: int| 0 <= j < k ==> path@[start + j] == expected@[j],
        decreases expected.len() - k,
    {
        if path[start + k] != expected[k] {
            assert(path@.subrange(start as int, end as int)[k as int] != expected@[k as int]);
            return false;
        }
        k += 1;
    }
    assert(path@.subrange(start as int, end as int) =~= expected@);
    true
}

/// Whether the executable at `path` belongs to the system's own shell.
pub fn in_system_apps(path: &[u16]) -> (b: bool)
    ensures
        b == is_system_app(path@),
{
    if path.len() < 3 {
        return false;
    }
    // The drive `C`, in either case, and the root behind it.
    if !((path[0] == 0x43 || path[0] == 0x63) && path[1] == COLON && separates(path[2])) {
        return false;
    }
    let windows: [u16; 7] = [0x57, 0x69, 0x6E, 0x64, 0x6F, 0x77, 0x73];
    let system_apps: [u16; 10] = [0x53, 0x79, 0x73, 0x74, 0x65, 0x6D, 0x41, 0x70, 0x70, 0x73];
    assert(windows@ =~= windows_name());
    assert(system_apps@ =~= system_apps_name());
    match next_name(path, 2) {
        None => false,
        Some((first_start, first_end)) => {
            if !range_is(path, first_start, first_end, windows.as_slice()) {
                return false;
            }
            match next_name(path, first_end) {
                None => false,
                Some((second_start, second_end)) => range_is(
                    path,
                    second_start,
                    second_end,
                    system_apps.as_slice(),
                ),
            }
        },
    }
}

/// The last name of the path, as the range of positions it takes.
fn last_name(path: &[u16]) -> (found: Option<(usize, usize)>)
    ensures
        found is None ==> names(path@).len() == 0,
        found is Some ==> found.unwrap().0 < found.unwrap().1 <= path.len(),
        found is Some ==> names(path@).len() > 0 && names(path@).last() == path@.subrange(
            found.unwrap().0 as int,
            found.unwrap().1 as int,
        ),
{
    let mut at: usize = if has_drive(path) {
        2
    } else {
        0
    };
    let mut last: Option<(usize, usize)> = None;
    let ghost mut seen: Seq<Seq<u16>> = Seq::empty();
    loop
        invariant
            at <= path.len(),
            names(path@) == seen + names_from(path@, at as int),
            match last {
                None => seen.len() == 0,
                Some((start, end)) => {
                    &&& start < end <= path.len()
                    &&& seen.len() > 0
                    &&& seen.last() == path@.subrange(start as int, end as int)
                },
            },
        decreases path.len() - at,
    {
        match next_name(path, at) {
            None => {
                assert(names(path@) =~= seen);
                return last;
            },
            Some((start, end)) => {
                proof {
                    let name = path@.subrange(start as int, end as int);
                    assert(seen + (seq![name] + names_from(path@, end as int)) =~= seen.push(name)
                        + names_from(path@, end as int));
                    seen = seen.push(name);
                }
                last = Some((start, end));
                at = end;
            },
        }
    }
}

/// The position of the last `.` between `start` and `end`.
fn find_last_dot(path: &[u16], start: usize, end: usize) -> (found: Option<usize>)
    requires
        start <= end <= path.len(),
    ensures
        found is None ==> last_dot(path@.subrange(start as int, end as int)) == -1,
        found is Some ==> start <= found.unwrap() < end,
        found is Some ==> last_dot(path@.subrange(start as int, end as int)) == found.unwrap()
            - start,
{
    let mut at: usize = end;
    while at > start
        invariant
            start <= at <= end <= path.len(),
            last_dot(path@.subrange(start as int, end as int)) == last_dot(
                path@.subrange(start as int, at as int),
            ),
        decreases at - start,
    {
        let ghost head = path@.subrange(start as int, at as int);
        assert(head.last() == path@[at - 1]);
        assert(head.drop_last() =~= path@.subrange(start as int, at - 1));
        if path[at - 1] == DOT {
            return Some(at - 1);
        }
        at -= 1;
    }
    None
}

/// What an executable at `path` is called, in code units.
pub fn owner_part(path: &[u16]) -> (part: &[u16])
    ensures
        part@ == owner_units(path@),
{
    match last_name(path) {
        None => path,
        Some((start, end)) => {
            let ghost name = path@.subrange(start as int, end as int);
            if end - start == 2 && path[start] == DOT && path[start + 1] == DOT {
                assert(name =~= dot_dot_name());
                path
            } else {
                assert(name != dot_dot_name()) by {
                    if name == dot_dot_name() {
                        assert(name.len() == 2);
                        assert(name[0] == DOT && name[1] == DOT);
                    }
                }
                match find_last_dot(path, start, end) {
                    Some(dot) => {
                        if dot > start {
                            assert(name.subrange(0, dot - start) =~= path@.subrange(
                                start as int,
                                dot as int,
                            ));
                            slice_subrange(path, start, dot)
                        } else {
                            slice_subrange(path, start, end)
                        }
                    },
                    None => slice_subrange(path, start, end),
                }
            }
        },
    }
}

/// What an executable at `path` is called.
pub fn owner_name(path: &[u16]) -> (name: String)
    ensures
        name@ == utf16_lossy(owner_units(path@)),
{
    decode_lossy(owner_part(path))
}

} // verus!
