//! Paths as text, in the Unix form.

use vstd::prelude::*;

use crate::text::{chars_of, concat2, concat3, ends_with_char, starts_with_char, string_of_range};

verus! {

/// Whether `path` starts at the root.
pub open spec fn is_absolute_path(path: Seq<char>) -> bool {
    path.len() > 0 && path[0] == '/'
}

/// `part` below `base`: a part that starts at the root stands alone, and a slash is put between
/// the two where the base does not end in one.
pub open spec fn joined(base: Seq<char>, part: Seq<char>) -> Seq<char> {
    if is_absolute_path(part) {
        part
    } else if base.len() == 0 || base.last() == '/' {
        base + part
    } else {
        base + "/"@ + part
    }
}

/// Whether `path` starts at the root.
pub fn is_absolute(path: &str) -> (r: bool)
    ensures
        r == is_absolute_path(path@),
{
    starts_with_char(path, '/')
}

/// Joins `part` onto `base`.
pub fn join(base: &str, part: &str) -> (r: String)
    ensures
        r@ == joined(base@, part@),
{
    if is_absolute(part) {
        part.to_owned()
    } else if base.is_empty() || ends_with_char(base, '/') {
        concat2(base, part)
    } else {
        concat3(base, "/", part)
    }
}

/// How much of `path` is its root: one slash, or nothing.
pub open spec fn root_len(path: Seq<char>) -> nat {
    if is_absolute_path(path) {
        1
    } else {
        0
    }
}

/// Whether `path` ends in something that names no component of its own: a slash, or a single dot
/// behind a slash.
pub open spec fn has_loose_end(path: Seq<char>) -> bool {
    let n = path.len() as int;
    n > root_len(path) && (path[n - 1] == '/' || (path[n - 1] == '.' && n >= 2 && path[n - 2] == '/'))
}

/// `path` up to the end of its last component.
pub open spec fn stem(path: Seq<char>) -> Seq<char>
    decreases path.len(),
{
    if has_loose_end(path) {
        stem(path.drop_last())
    } else {
        path
    }
}

/// `path` up to and including its last slash.
pub open spec fn through_last_slash(path: Seq<char>) -> Seq<char>
    decreases path.len(),
{
    if path.len() == 0 || path.last() == '/' {
        path
    } else {
        through_last_slash(path.drop_last())
    }
}

/// What is left of `path` without its last component; nothing where it has none.
pub open spec fn parent_path(path: Seq<char>) -> Option<Seq<char>> {
    let s = stem(path);
    if s.len() <= root_len(path) {
        None
    } else {
        Some(stem(through_last_slash(s)))
    }
}

/// The last component of `path`, unless it is a dot, two dots or missing.
pub open spec fn file_name_of(path: Seq<char>) -> Option<Seq<char>> {
    let s = stem(path);
    let name = s.skip(through_last_slash(s).len() as int);
    if s.len() <= root_len(path) || name == seq!['.'] || name == seq!['.', '.'] {
        None
    } else {
        Some(name)
    }
}

/// Whether `s` is a name that a directory entry can have.
pub open spec fn is_plain_name(s: Seq<char>) -> bool {
    s.len() > 0 && !s.contains('/') && s != seq!['.'] && s != seq!['.', '.']
}

proof fn lemma_through_last_slash(base: Seq<char>, name: Seq<char>)
    requires
        base.len() == 0 || base.last() == '/',
        !name.contains('/'),
    ensures
        through_last_slash(base + name) == base,
    decreases name.len(),
{
    if name.len() == 0 {
        assert(base + name =~= base);
    } else {
        assert(name.contains(name.last()));
        assert((base + name).last() == name.last());
        assert((base + name).drop_last() =~= base + name.drop_last());
        assert forall|i: int| 0 <= i < name.drop_last().len() implies name.drop_last()[i] != '/' by {
            assert(name.contains(name[i]));
        }
        lemma_through_last_slash(base, name.drop_last());
    }
}

proof fn lemma_after_last_slash(path: Seq<char>)
    ensures
        through_last_slash(path).len() <= path.len(),
        forall|i: int| through_last_slash(path).len() <= i < path.len() ==> path[i] != '/',
        path.len() > 0 && path.last() != '/' ==> through_last_slash(path).len() < path.len(),
    decreases path.len(),
{
    if path.len() > 0 && path.last() != '/' {
        lemma_after_last_slash(path.drop_last());
        assert forall|i: int| through_last_slash(path).len() <= i < path.len() implies path[i]
            != '/' by {
            if i < path.len() - 1 {
                assert(path.drop_last()[i] == path[i]);
            }
        }
    }
}

proof fn lemma_stem_is_tight(path: Seq<char>)
    ensures
        !has_loose_end(stem(path)),
        stem(path).len() > root_len(path) ==> root_len(stem(path)) == root_len(path),
    decreases path.len(),
{
    if has_loose_end(path) {
        lemma_stem_is_tight(path.drop_last());
        if path.drop_last().len() > 0 {
            assert(path.drop_last()[0] == path[0]);
        }
    }
}

/// The last component of a path, where it counts as a file name, is a plain name.
pub proof fn lemma_file_name_is_plain(path: Seq<char>)
    ensures
        file_name_of(path) matches Some(name) ==> is_plain_name(name),
{
    if let Some(name) = file_name_of(path) {
        let s = stem(path);
        lemma_stem_is_tight(path);
        lemma_after_last_slash(s);
        assert(s.len() > root_len(s));
        assert(s.last() != '/');
        assert forall|i: int| 0 <= i < name.len() implies name[i] != '/' by {
            assert(name[i] == s[through_last_slash(s).len() + i]);
        }
    }
}

/// A path with a plain name joined to it ends in that name, and taking the name away again leaves
/// the path up to the end of its last component.
pub proof fn law_parent_undoes_join(base: Seq<char>, name: Seq<char>)
    requires
        is_plain_name(name),
    ensures
        parent_path(joined(base, name)) == Some(stem(base)),
        file_name_of(joined(base, name)) == Some(name),
{
    reveal_strlit("/");
    let n = name.len() as int;
    let path = joined(base, name);
    assert(name.contains(name[0]));
    assert(name.contains(name[n - 1]));
    let dir = if base.len() == 0 || base.last() == '/' {
        base
    } else {
        base + "/"@
    };
    assert(path == dir + name);
    assert(path.last() == name.last());
    if n == 1 {
        assert(name =~= seq![name[0]]);
    } else {
        assert(path[path.len() - 2] == name[n - 2]);
        assert(name.contains(name[n - 2]));
    }
    assert(!has_loose_end(path));
    assert(path.len() > root_len(path));
    assert("/"@ =~= seq!['/']);
    lemma_through_last_slash(dir, name);
    assert(path.skip(dir.len() as int) =~= name);
    if base.len() > 0 && base.last() != '/' {
        assert(dir.drop_last() =~= base);
        assert(has_loose_end(dir));
    }
}

/// The length of `chars[..end]` up to the end of its last component.
fn stem_end(chars: &Vec<char>, end: usize) -> (r: usize)
    requires
        end <= chars@.len(),
    ensures
        r <= end,
        chars@.take(r as int) == stem(chars@.take(end as int)),
{
    let mut at: usize = end;
    let root: usize = if end > 0 && chars[0] == '/' {
        1
    } else {
        0
    };
    while at > root && (chars[at - 1] == '/' || (chars[at - 1] == '.' && at >= 2 && chars[at - 2]
        == '/'))
        invariant
            at <= end <= chars@.len(),
            root == root_len(chars@.take(end as int)),
            at > 0 ==> root == root_len(chars@.take(at as int)),
            at == 0 ==> root == 0,
            stem(chars@.take(at as int)) == stem(chars@.take(end as int)),
        decreases at,
    {
        proof {
            assert(chars@.take(at as int).drop_last() =~= chars@.take(at - 1));
        }
        at = at - 1;
    }
    at
}

/// The length of `chars[..end]` up to and including its last slash.
fn slash_end(chars: &Vec<char>, end: usize) -> (r: usize)
    requires
        end <= chars@.len(),
    ensures
        r <= end,
        chars@.take(r as int) == through_last_slash(chars@.take(end as int)),
{
    let mut at: usize = end;
    while at > 0 && chars[at - 1] != '/'
        invariant
            at <= end <= chars@.len(),
            through_last_slash(chars@.take(at as int)) == through_last_slash(
                chars@.take(end as int),
            ),
        decreases at,
    {
        proof {
            assert(chars@.take(at as int).drop_last() =~= chars@.take(at - 1));
        }
        at = at - 1;
    }
    at
}

/// `path` without its last component.
pub fn parent(path: &str) -> (r: Option<String>)
    ensures
        match r {
            Some(p) => parent_path(path@) == Some(p@),
            None => parent_path(path@) is None,
        },
{
    let chars = chars_of(path);
    let len: usize = chars.len();
    let root: usize = if len > 0 && chars[0] == '/' {
        1
    } else {
        0
    };
    proof {
        assert(chars@.take(len as int) =~= path@);
    }
    let end: usize = stem_end(&chars, len);
    if end <= root {
        return None;
    }
    let slash: usize = slash_end(&chars, end);
    let parent_end: usize = stem_end(&chars, slash);
    proof {
        assert(chars@.subrange(0, parent_end as int) =~= chars@.take(parent_end as int));
    }
    Some(string_of_range(&chars, 0, parent_end))
}

/// The last component of `path`, unless it is a dot, two dots or missing.
pub fn file_name(path: &str) -> (r: Option<String>)
    ensures
        match r {
            Some(name) => file_name_of(path@) == Some(name@),
            None => file_name_of(path@) is None,
        },
{
    let chars = chars_of(path);
    let len: usize = chars.len();
    let root: usize = if len > 0 && chars[0] == '/' {
        1
    } else {
        0
    };
    proof {
        assert(chars@.take(len as int) =~= path@);
    }
    let end: usize = stem_end(&chars, len);
    if end <= root {
        return None;
    }
    let slash: usize = slash_end(&chars, end);
    let ghost name = chars@.subrange(slash as int, end as int);
    proof {
        assert(stem(path@).skip(slash as int) =~= name);
        assert(name =~= seq!['.'] <==> name.len() == 1 && name[0] == '.');
        assert(name =~= seq!['.', '.'] <==> name.len() == 2 && name[0] == '.' && name[1] == '.');
    }
    if end - slash == 1 && chars[slash] == '.' {
        return None;
    }
    if end - slash == 2 && chars[slash] == '.' && chars[slash + 1] == '.' {
        return None;
    }
    Some(string_of_range(&chars, slash, end))
}

} // verus!
