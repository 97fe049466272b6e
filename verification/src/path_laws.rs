//! What joining and taking apart paths comes to, character by character.

use vstd::prelude::*;

use crate::components::{
    components_of, is_descendant, lead, segment_steps, steps, ComponentView, PathComponent,
};
use crate::text::split_on;
use crate::text_laws::law_split_parts_make_up_the_text;
use crate::unix_path::{
    file_name_of, has_loose_end, is_absolute_path, is_plain_name, joined, law_parent_undoes_join, parent_path,
    stem,
};

verus! {

/// A path starts at the root exactly where its first character is a slash.
pub proof fn law_absolute_paths_start_with_a_slash(path: Seq<char>)
    ensures
        is_absolute_path(path) <==> path.len() > 0 && path[0] == '/',
{
}

/// A path that starts at the root stands alone. Any other is put behind the base, with exactly one
/// slash between them that either ended the base or was added, and nothing else changes.
pub proof fn law_joining_puts_one_slash_between(base: Seq<char>, part: Seq<char>)
    ensures
        part.len() > 0 && part[0] == '/' ==> joined(base, part) == part,
        base.len() > 0 && base.last() != '/' && (part.len() == 0 || part[0] != '/') ==> joined(
            base,
            part,
        ) == base + seq!['/'] + part,
        base.len() > 0 && base.last() == '/' && (part.len() == 0 || part[0] != '/') ==> joined(
            base,
            part,
        ) == base + part,
        base.len() == 0 && (part.len() == 0 || part[0] != '/') ==> joined(base, part) == part,
{
    reveal_strlit("/");
    assert("/"@ =~= seq!['/']);
    assert(base.len() == 0 ==> base + part =~= part);
}

/// A name behind a directory and a slash is the file name, and the directory is the parent; slashes
/// behind the name make no difference.
pub proof fn law_names_follow_the_last_slash(directory: Seq<char>, name: Seq<char>)
    requires
        directory.len() > 0,
        directory.last() != '/',
        !(directory.len() >= 2 && directory.last() == '.' && directory[directory.len() - 2] == '/'),
        name.len() > 0,
        !name.contains('/'),
        name != seq!['.'],
        name != seq!['.', '.'],
    ensures
        file_name_of(directory + seq!['/'] + name) == Some(name),
        parent_path(directory + seq!['/'] + name) == Some(directory),
        file_name_of(directory + seq!['/'] + name + seq!['/']) == Some(name),
        file_name_of(name) == Some(name),
{
    let path = directory + seq!['/'] + name;
    assert(name.contains(name[0]));
    law_joining_puts_one_slash_between(directory, name);
    law_parent_undoes_join(directory, name);
    assert(is_plain_name(name));
    assert(!has_loose_end(directory));
    assert(stem(directory) == directory);
    let none = Seq::<char>::empty();
    law_parent_undoes_join(none, name);
    law_joining_puts_one_slash_between(none, name);
    let longer = path + seq!['/'];
    assert(longer.drop_last() =~= path);
    assert(has_loose_end(longer));
    assert(longer[0] == path[0]);
}

/// Paths that name no file have no file name.
pub proof fn law_some_paths_have_no_name(directory: Seq<char>)
    ensures
        file_name_of(Seq::<char>::empty()) is None,
        file_name_of(seq!['/']) is None,
        file_name_of(seq!['.']) is None,
        file_name_of(seq!['.', '.']) is None,
        parent_path(seq!['/']) is None,
        parent_path(Seq::<char>::empty()) is None,
{
    let none = Seq::<char>::empty();
    let slash = seq!['/'];
    let dot = seq!['.'];
    let dots = seq!['.', '.'];
    assert(!has_loose_end(none));
    assert(!has_loose_end(slash));
    assert(!has_loose_end(dot));
    assert(!has_loose_end(dots));
    lemma_no_slash(dot);
    lemma_no_slash(dots);
    assert(dot.skip(0) =~= dot);
    assert(dots.skip(0) =~= dots);
}

proof fn lemma_no_slash(s: Seq<char>)
    requires
        forall|i: int| 0 <= i < s.len() ==> s[i] != '/',
    ensures
        crate::unix_path::through_last_slash(s).len() == 0,
    decreases s.len(),
{
    if s.len() > 0 {
        assert forall|i: int| 0 <= i < s.drop_last().len() implies s.drop_last()[i] != '/' by {
            assert(s.drop_last()[i] == s[i]);
        }
        lemma_no_slash(s.drop_last());
    }
}

/// The steps of the parts of a path hold a step up exactly where one of the parts is two dots, and no
/// step in place at all.
proof fn lemma_steps(segments: Seq<Seq<char>>)
    ensures
        forall|i: int|
            0 <= i < steps(segments).len() ==> (#[trigger] steps(segments)[i]) is Normal || steps(
                segments,
            )[i] is ParentDir,
        (exists|i: int| 0 <= i < segments.len() && #[trigger] segments[i] == ".."@) <==> (exists|
            i: int,
        |
            0 <= i < steps(segments).len() && (#[trigger] steps(segments)[i]) is ParentDir),
    decreases segments.len(),
{
    if segments.len() > 0 {
        let init = segments.drop_last();
        lemma_steps(init);
        let before = steps(init);
        let added = segment_steps(segments.last());
        let all = steps(segments);
        reveal_strlit("..");
        reveal_strlit(".");
        assert forall|i: int| 0 <= i < all.len() implies (#[trigger] all[i]) is Normal
            || all[i] is ParentDir by {
            if i < before.len() {
                assert(all[i] == before[i]);
            }
        }
        if exists|i: int| 0 <= i < segments.len() && #[trigger] segments[i] == ".."@ {
            let i = choose|i: int| 0 <= i < segments.len() && #[trigger] segments[i] == ".."@;
            if i < init.len() {
                assert(init[i] == ".."@);
                let j = choose|j: int| 0 <= j < before.len() && (#[trigger] before[j]) is ParentDir;
                assert(all[j] == before[j]);
            } else {
                assert(".."@.len() == 2);
                assert("."@.len() == 1);
                assert(added.len() == 1);
                assert(all[before.len() as int] == added[0]);
            }
        }
        if exists|i: int| 0 <= i < all.len() && (#[trigger] all[i]) is ParentDir {
            let i = choose|i: int| 0 <= i < all.len() && (#[trigger] all[i]) is ParentDir;
            if i < before.len() {
                assert(before[i] is ParentDir);
                let j = choose|j: int| 0 <= j < init.len() && #[trigger] init[j] == ".."@;
                assert(segments[j] == ".."@);
            } else {
                assert(all[i] == added[i - before.len()]);
                assert(segments[segments.len() - 1] == ".."@);
            }
        }
    }
}

/// A path leads down exactly where it is not empty, does not start at the root, does not start in
/// place, and takes no step up anywhere between its slashes.
pub proof fn law_paths_lead_down_without_steps_up(path: Seq<char>)
    ensures
        is_descendant(path) <==> path.len() > 0 && path[0] != '/' && split_on(path, '/')[0] != "."@
            && forall|i: int|
            0 <= i < split_on(path, '/').len() ==> #[trigger] split_on(path, '/')[i] != ".."@,
{
    let segments = split_on(path, '/');
    law_split_parts_make_up_the_text(path, '/');
    lemma_steps(segments);
    let all = components_of(path);
    let front = lead(path);
    let down = steps(segments);
    assert(all == front + down);
    if is_descendant(path) {
        if front.len() > 0 {
            assert(all[0] == front[0]);
            assert(all[0] is Normal);
        }
        if exists|i: int| 0 <= i < segments.len() && #[trigger] segments[i] == ".."@ {
            let j = choose|j: int| 0 <= j < down.len() && (#[trigger] down[j]) is ParentDir;
            assert(all[front.len() + j] == down[j]);
            assert(all[front.len() + j] is Normal);
        }
    } else if path.len() > 0 && path[0] != '/' && segments[0] != "."@ && forall|i: int|
        0 <= i < segments.len() ==> #[trigger] segments[i] != ".."@ {
        let i = choose|i: int| 0 <= i < all.len() && !((#[trigger] all[i]) is Normal);
        assert(all[i] == down[i]);
        assert(down[i] is ParentDir);
        let j = choose|j: int| 0 <= j < segments.len() && #[trigger] segments[j] == ".."@;
        assert(segments[j] != ".."@);
    }
}

/// A component shows its name.
pub proof fn law_components_show_their_names(name: String)
    ensures
        PathComponent::Normal(name)@ == ComponentView::Normal(name@),
        PathComponent::RootDir@ is RootDir,
        PathComponent::CurDir@ is CurDir,
        PathComponent::ParentDir@ is ParentDir,
{
}

} // verus!
