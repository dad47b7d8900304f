//! Keeping paths inside a base directory.
//!
//! A path is text with `/` between its components. It is resolved by its
//! text alone: an empty component and `.` stand for the directory reached so
//! far, `..` for its parent, and the parent of the root is the root. The base
//! directory is given as an absolute path without links.

use vstd::prelude::*;
use vstd::string::StringExecFns;
use crate::database::error::{DatabaseError, DatabaseResult};
use crate::text::{chars_of, contains_char, joined, push_char, str_eq, views};

verus! {

/// Whether a path starts at the root.
pub open spec fn is_absolute(path: Seq<char>) -> bool {
    path.len() > 0 && path[0] == '/'
}

/// The components of a path: the pieces between its separators. A path with
/// n separators has n + 1 components, some of which may be empty.
pub open spec fn components(path: Seq<char>) -> Seq<Seq<char>>
    decreases path.len(),
{
    if path.len() == 0 {
        seq![Seq::<char>::empty()]
    } else {
        let before = components(path.drop_last());
        if path.last() == '/' {
            before.push(Seq::<char>::empty())
        } else {
            before.drop_last().push(before.last().push(path.last()))
        }
    }
}

/// Where one component leads from the directory `at`.
pub open spec fn step(at: Seq<Seq<char>>, component: Seq<char>) -> Seq<Seq<char>> {
    if component.len() == 0 || component == seq!['.'] {
        at
    } else if component == seq!['.', '.'] {
        if at.len() > 0 {
            at.drop_last()
        } else {
            at
        }
    } else {
        at.push(component)
    }
}

/// Where the components `path` lead from the directory `at`.
pub open spec fn resolve(at: Seq<Seq<char>>, path: Seq<Seq<char>>) -> Seq<Seq<char>>
    decreases path.len(),
{
    if path.len() == 0 {
        at
    } else {
        resolve(step(at, path[0]), path.drop_first())
    }
}

/// Whether the directory `dir` is `base` or lies under it.
pub open spec fn lies_within(base: Seq<Seq<char>>, dir: Seq<Seq<char>>) -> bool {
    base.len() <= dir.len() && dir.take(base.len() as int) == base
}

/// The absolute path of a directory given by its components.
pub open spec fn absolute_path(dir: Seq<Seq<char>>) -> Seq<char> {
    seq!['/'] + joined(dir, seq!['/'])
}

/// The directory that the base `base_dir` names.
pub open spec fn base_of(base_dir: Seq<char>) -> Seq<Seq<char>> {
    resolve(Seq::empty(), components(base_dir))
}

/// The directory that `requested_path` names when it is read from the base
/// `base_dir`.
pub open spec fn resolved(base_dir: Seq<char>, requested_path: Seq<char>) -> Seq<Seq<char>> {
    resolve(base_of(base_dir), components(requested_path))
}

/// Whether a path holds no component `..`.
pub open spec fn never_climbs(path: Seq<Seq<char>>) -> bool {
    forall|i: int| 0 <= i < path.len() ==> path[i] != seq!['.', '.']
}

/// A path that never climbs leads to a directory within the one it starts
/// from.
pub proof fn path_without_climbing_stays_within(at: Seq<Seq<char>>, base: Seq<Seq<char>>, path: Seq<Seq<char>>)
    requires
        never_climbs(path),
        lies_within(base, at),
    ensures
        lies_within(base, resolve(at, path)),
    decreases path.len(),
{
    if path.len() > 0 {
        let next = step(at, path[0]);
        assert(path[0] != seq!['.', '.']);
        assert(lies_within(base, next)) by {
            assert(next.take(base.len() as int) =~= at.take(base.len() as int));
        }
        let rest = path.drop_first();
        assert forall|i: int| 0 <= i < rest.len() implies rest[i] != seq!['.', '.'] by {
            assert(rest[i] == path[i + 1]);
        }
        path_without_climbing_stays_within(next, base, rest);
    }
}

/// A relative path that holds no component `..` names the base or something
/// under it, whatever the base: such a path is accepted.
pub proof fn path_without_climbing_is_inside(base_dir: Seq<char>, requested_path: Seq<char>)
    requires
        never_climbs(components(requested_path)),
    ensures
        lies_within(base_of(base_dir), resolved(base_dir, requested_path)),
{
    let base = base_of(base_dir);
    assert(base.take(base.len() as int) =~= base);
    path_without_climbing_stays_within(base, base, components(requested_path));
}

/// The components of a path.
pub fn split_path(path: &str) -> (parts: Vec<String>)
    ensures
        views(parts@) == components(path@),
{
    let chars = chars_of(path);
    let mut parts: Vec<String> = Vec::new();
    let mut current = String::new();
    let mut i: usize = 0;
    assert(chars@.take(0) =~= Seq::<char>::empty());
    assert(views(parts@).push(current@) =~= components(chars@.take(0)));
    while i < chars.len()
        invariant
            i <= chars.len(),
            chars@ == path@,
            views(parts@).push(current@) == components(chars@.take(i as int)),
        decreases chars.len() - i,
    {
        let ghost before = components(chars@.take(i as int));
        assert(chars@.take(i + 1).drop_last() =~= chars@.take(i as int));
        assert(chars@.take(i + 1).last() == chars@[i as int]);
        assert(before.last() == current@);
        assert(before.drop_last() =~= views(parts@));
        if chars[i] == '/' {
            let ghost done = views(parts@);
            parts.push(current);
            assert(views(parts@) =~= done.push(before.last()));
            current = String::new();
        } else {
            push_char(&mut current, chars[i]);
        }
        assert(views(parts@).push(current@) =~= components(chars@.take(i + 1)));
        i += 1;
    }
    assert(chars@.take(chars.len() as int) =~= chars@);
    let ghost done = views(parts@);
    parts.push(current);
    assert(views(parts@) =~= done.push(current@));
    parts
}

/// Where the components `path` lead from the directory `at`.
pub fn resolve_from(at: Vec<String>, path: &Vec<String>) -> (dir: Vec<String>)
    ensures
        views(dir@) == resolve(views(at@), views(path@)),
{
    let mut dir = at;
    let mut i: usize = 0;
    assert(views(path@).skip(0) =~= views(path@));
    while i < path.len()
        invariant
            i <= path.len(),
            resolve(views(at@), views(path@)) == resolve(views(dir@), views(path@).skip(i as int)),
        decreases path.len() - i,
    {
        let ghost here = views(dir@);
        let ghost rest = views(path@).skip(i as int);
        assert(rest[0] == path@[i as int]@);
        assert(rest.drop_first() =~= views(path@).skip(i + 1));
        let part = path[i].as_str();
        proof {
            reveal_strlit(".");
            reveal_strlit("..");
            reveal_strlit("");
            assert("."@ =~= seq!['.']);
            assert(".."@ =~= seq!['.', '.']);
        }
        if part.is_empty() || str_eq(part, ".") {
            assert(part@.len() == 0 || part@ == seq!['.']);
        } else if str_eq(part, "..") {
            assert(part@.len() == 2);
            assert(seq!['.'].len() == 1);
            if dir.len() > 0 {
                dir.pop();
                assert(views(dir@) =~= here.drop_last());
            }
        } else {
            dir.push(path[i].clone());
            assert(views(dir@) =~= here.push(part@));
        }
        assert(views(dir@) == step(here, part@));
        i += 1;
    }
    dir
}

/// Whether the directory `dir` is `base` or lies under it.
pub fn is_within(base: &Vec<String>, dir: &Vec<String>) -> (r: bool)
    ensures
        r == lies_within(views(base@), views(dir@)),
{
    if base.len() > dir.len() {
        return false;
    }
    let mut i: usize = 0;
    while i < base.len()
        invariant
            i <= base.len() <= dir.len(),
            forall|k: int| 0 <= k < i ==> base@[k]@ == dir@[k]@,
        decreases base.len() - i,
    {
        if !str_eq(base[i].as_str(), dir[i].as_str()) {
            assert(views(dir@).take(base.len() as int)[i as int] != views(base@)[i as int]);
            return false;
        }
        i += 1;
    }
    assert(views(dir@).take(base.len() as int) =~= views(base@));
    true
}

/// The message of the error for a base directory that is not absolute.
pub open spec fn base_not_absolute() -> Seq<char> {
    "Failed to resolve base directory: path is not absolute"@
}

/// The message of the error for a requested path that is absolute.
pub open spec fn absolute_not_allowed() -> Seq<char> {
    "Absolute paths are not allowed"@
}

/// The message of the error for a requested path that leaves the base.
pub open spec fn traversal_detected() -> Seq<char> {
    "Path traversal attempt detected: requested path is outside the allowed directory"@
}

/// Resolves `requested_path` from the base directory `base_dir` and gives
/// the absolute path of what it names, provided that `requested_path` is
/// relative and names the base or something under it. An absolute path is
/// rejected, and so is any path that leads out of the base.
pub fn validate_path(base_dir: &str, requested_path: &str) -> (r: DatabaseResult<String>)
    ensures
        r is Ok == (is_absolute(base_dir@) && !is_absolute(requested_path@) && lies_within(
            base_of(base_dir@),
            resolved(base_dir@, requested_path@),
        )),
        r matches Ok(path) ==> path@ == absolute_path(resolved(base_dir@, requested_path@)),
        r matches Err(e) ==> e.is_security(
            if !is_absolute(base_dir@) {
                base_not_absolute()
            } else if is_absolute(requested_path@) {
                absolute_not_allowed()
            } else {
                traversal_detected()
            },
        ),
{
    if !starts_at_root(base_dir) {
        return Err(
            DatabaseError::SecurityError(
                "Failed to resolve base directory: path is not absolute".to_owned(),
            ),
        );
    }
    if starts_at_root(requested_path) {
        return Err(DatabaseError::SecurityError("Absolute paths are not allowed".to_owned()));
    }
    let root: Vec<String> = Vec::new();
    assert(views(root@) =~= Seq::<Seq<char>>::empty());
    let base = resolve_from(root, &split_path(base_dir));
    let start = base.clone();
    assert(views(start@) =~= views(base@)) by {
        assert(start@ =~= base@);
    }
    let dir = resolve_from(start, &split_path(requested_path));
    if !is_within(&base, &dir) {
        return Err(
            DatabaseError::SecurityError(
                "Path traversal attempt detected: requested path is outside the allowed directory".to_owned(),
            ),
        );
    }
    let mut path = "/".to_owned();
    path.append(crate::text::join(&dir, "/").as_str());
    proof {
        reveal_strlit("/");
        assert("/"@ =~= seq!['/']);
    }
    Ok(path)
}

/// Gives the absolute path of what `path` names, provided that `path` and
/// `base_dir` are absolute and `path` names the base or something under it.
pub fn check_within(base_dir: &str, path: &str) -> (r: DatabaseResult<String>)
    ensures
        r is Ok == (is_absolute(base_dir@) && is_absolute(path@) && lies_within(
            base_of(base_dir@),
            base_of(path@),
        )),
        r matches Ok(found) ==> found@ == absolute_path(base_of(path@)),
        r matches Err(e) ==> e.is_security(
            if !is_absolute(base_dir@) {
                base_not_absolute()
            } else {
                traversal_detected()
            },
        ),
{
    if !starts_at_root(base_dir) {
        return Err(
            DatabaseError::SecurityError(
                "Failed to resolve base directory: path is not absolute".to_owned(),
            ),
        );
    }
    let root: Vec<String> = Vec::new();
    assert(views(root@) =~= Seq::<Seq<char>>::empty());
    let base = resolve_from(root, &split_path(base_dir));
    let start: Vec<String> = Vec::new();
    assert(views(start@) =~= Seq::<Seq<char>>::empty());
    let dir = resolve_from(start, &split_path(path));
    if !starts_at_root(path) || !is_within(&base, &dir) {
        return Err(
            DatabaseError::SecurityError(
                "Path traversal attempt detected: requested path is outside the allowed directory".to_owned(),
            ),
        );
    }
    let mut found = "/".to_owned();
    found.append(crate::text::join(&dir, "/").as_str());
    proof {
        reveal_strlit("/");
        assert("/"@ =~= seq!['/']);
    }
    Ok(found)
}

/// Whether a path starts at the root.
pub fn starts_at_root(path: &str) -> (r: bool)
    ensures
        r == is_absolute(path@),
{
    let chars = chars_of(path);
    chars.len() > 0 && chars[0] == '/'
}

/// The message of the error for a file name, if the name is not safe: it is
/// empty, holds a separator, is `.` or `..`, or holds a null character.
pub open spec fn filename_fault(filename: Seq<char>) -> Option<Seq<char>> {
    if filename.len() == 0 {
        Some("Filename cannot be empty"@)
    } else if filename.contains('/') || filename.contains('\\') {
        Some("Filename cannot contain directory separators"@)
    } else if filename == seq!['.', '.'] || filename == seq!['.'] {
        Some("Invalid filename: cannot use . or .."@)
    } else if filename.contains('\0') {
        Some("Filename cannot contain null bytes"@)
    } else {
        None
    }
}

/// Gives `filename` back if it is safe as the name of a file in a directory,
/// and says what is wrong with it if it is not.
pub fn validate_filename(filename: &str) -> (r: DatabaseResult<&str>)
    ensures
        match filename_fault(filename@) {
            Some(message) => r matches Err(e) && e.is_security(message),
            None => r matches Ok(name) && name@ == filename@,
        },
{
    proof {
        reveal_strlit(".");
        reveal_strlit("..");
        assert("."@ =~= seq!['.']);
        assert(".."@ =~= seq!['.', '.']);
    }
    if filename.is_empty() {
        return Err(DatabaseError::SecurityError("Filename cannot be empty".to_owned()));
    }
    if contains_char(filename, '/') || contains_char(filename, '\\') {
        return Err(
            DatabaseError::SecurityError("Filename cannot contain directory separators".to_owned()),
        );
    }
    if str_eq(filename, "..") || str_eq(filename, ".") {
        return Err(DatabaseError::SecurityError("Invalid filename: cannot use . or ..".to_owned()));
    }
    if contains_char(filename, '\0') {
        return Err(DatabaseError::SecurityError("Filename cannot contain null bytes".to_owned()));
    }
    Ok(filename)
}

} // verus!
