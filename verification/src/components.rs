//! The components of paths.

use vstd::prelude::*;

use crate::text::{first_of, lemma_first_of, same_text, split, split_on, texts};
use crate::unix_path::{is_absolute, is_absolute_path, joined};

verus! {

/// One step of a path.
#[derive(Debug, PartialEq, Eq)]
pub enum PathComponent {
    RootDir,
    CurDir,
    ParentDir,
    Normal(String),
}

/// What a [`PathComponent`] stands for.
pub enum ComponentView {
    RootDir,
    CurDir,
    ParentDir,
    Normal(Seq<char>),
}

impl View for PathComponent {
    type V = ComponentView;

    open spec fn view(&self) -> ComponentView {
        match self {
            PathComponent::RootDir => ComponentView::RootDir,
            PathComponent::CurDir => ComponentView::CurDir,
            PathComponent::ParentDir => ComponentView::ParentDir,
            PathComponent::Normal(name) => ComponentView::Normal(name@),
        }
    }
}

/// What a sequence of components stands for.
pub open spec fn components_view(v: Seq<PathComponent>) -> Seq<ComponentView> {
    v.map_values(|c: PathComponent| c@)
}

/// The steps that the part of a path between two slashes makes: none where it is empty or a dot.
pub open spec fn segment_steps(segment: Seq<char>) -> Seq<ComponentView> {
    if segment.len() == 0 || segment == "."@ {
        Seq::empty()
    } else if segment == ".."@ {
        seq![ComponentView::ParentDir]
    } else {
        seq![ComponentView::Normal(segment)]
    }
}

/// The steps that the parts of a path make.
pub open spec fn steps(segments: Seq<Seq<char>>) -> Seq<ComponentView>
    decreases segments.len(),
{
    if segments.len() == 0 {
        Seq::empty()
    } else {
        steps(segments.drop_last()) + segment_steps(segments.last())
    }
}

/// How a path starts: at the root, explicitly where it is, or with its first part.
pub open spec fn lead(path: Seq<char>) -> Seq<ComponentView> {
    if is_absolute_path(path) {
        seq![ComponentView::RootDir]
    } else if split_on(path, '/')[0] == "."@ {
        seq![ComponentView::CurDir]
    } else {
        Seq::empty()
    }
}

/// The components of `path`.
pub open spec fn components_of(path: Seq<char>) -> Seq<ComponentView> {
    lead(path) + steps(split_on(path, '/'))
}

/// The components of `path`.
pub fn components(path: &str) -> (r: Vec<PathComponent>)
    ensures
        components_view(r@) == components_of(path@),
{
    let segments = split(path, '/');
    let ghost all = split_on(path@, '/');
    let mut out: Vec<PathComponent> = Vec::new();
    proof {
        assert(texts(segments@).len() == segments@.len());
        assert(all.len() > 0);
        assert(all[0] == segments@[0]@);
    }
    if is_absolute(path) {
        out.push(PathComponent::RootDir);
    } else if same_text(&segments[0], ".") {
        out.push(PathComponent::CurDir);
    }
    let mut i: usize = 0;
    proof {
        assert(components_view(out@) =~= lead(path@));
        assert(all.take(0) =~= Seq::empty());
        assert(lead(path@) + steps(all.take(0)) =~= lead(path@));
    }
    while i < segments.len()
        invariant
            i <= segments@.len(),
            all == texts(segments@),
            components_view(out@) == lead(path@) + steps(all.take(i as int)),
        decreases segments@.len() - i,
    {
        let ghost before = components_view(out@);
        let segment = segments[i].as_str();
        proof {
            assert(all.take(i + 1).drop_last() =~= all.take(i as int));
            assert(all[i as int] == segment@);
            assert(all.take(i + 1).last() == segment@);
        }
        if !segment.is_empty() && !same_text(segment, ".") {
            if same_text(segment, "..") {
                out.push(PathComponent::ParentDir);
                proof {
                    assert(components_view(out@) =~= before.push(ComponentView::ParentDir));
                }
            } else {
                out.push(PathComponent::Normal(segment.to_owned()));
                proof {
                    assert(components_view(out@) =~= before.push(ComponentView::Normal(segment@)));
                }
            }
        }
        proof {
            assert(components_view(out@) =~= lead(path@) + steps(all.take(i + 1)));
        }
        i = i + 1;
    }
    proof {
        assert(all.take(i as int) =~= all);
    }
    out
}

/// Whether `path` is made of steps down alone, and of one at least.
pub open spec fn is_descendant(path: Seq<char>) -> bool {
    &&& path.len() > 0
    &&& !is_absolute_path(path)
    &&& forall|i: int|
        0 <= i < components_of(path).len() ==> (#[trigger] components_of(path)[i]) is Normal
}

/// Whether `path` is made of steps down alone, and of one at least.
pub fn leads_down(path: &str) -> (r: bool)
    ensures
        r == is_descendant(path@),
{
    let parts = components(path);
    let ghost all = components_of(path@);
    proof {
        assert(all.len() == parts@.len());
    }
    if path.is_empty() || is_absolute(path) {
        return false;
    }
    let mut i: usize = 0;
    while i < parts.len()
        invariant
            i <= parts@.len(),
            all == components_view(parts@),
            all == components_of(path@),
            forall|j: int| 0 <= j < i ==> (#[trigger] all[j]) is Normal,
        decreases parts@.len() - i,
    {
        proof {
            assert(all[i as int] == parts@[i as int]@);
        }
        if !matches!(parts[i], PathComponent::Normal(_)) {
            proof {
                assert(!(all[i as int] is Normal));
            }
            return false;
        }
        i = i + 1;
    }
    true
}

/// Splitting two texts with a separator between them is splitting each.
proof fn lemma_split_concat(a: Seq<char>, c: char, b: Seq<char>)
    ensures
        split_on(a + seq![c] + b, c) == split_on(a, c) + split_on(b, c),
    decreases a.len(),
{
    let all = a + seq![c] + b;
    let i = first_of(a, c);
    lemma_first_of_range(a, c);
    assert forall|j: int| 0 <= j < i implies all[j] != c by {
        assert(all[j] == a[j]);
    }
    lemma_first_of(all, c, i);
    if i < a.len() {
        assert(all.take(i) =~= a.take(i));
        assert(all.skip(i + 1) =~= a.skip(i + 1) + seq![c] + b);
        lemma_split_concat(a.skip(i + 1), c, b);
        assert(split_on(all, c) =~= split_on(a, c) + split_on(b, c));
    } else {
        assert(all.take(i) =~= a);
        assert(all.skip(i + 1) =~= b);
    }
}

proof fn lemma_first_of_range(s: Seq<char>, c: char)
    ensures
        0 <= first_of(s, c) <= s.len(),
        first_of(s, c) < s.len() ==> s[first_of(s, c)] == c,
        forall|j: int| 0 <= j < first_of(s, c) ==> s[j] != c,
    decreases s.len(),
{
    if s.len() > 0 && s[0] != c {
        lemma_first_of_range(s.skip(1), c);
        assert forall|j: int| 0 <= j < first_of(s, c) implies s[j] != c by {
            if j > 0 {
                assert(s.skip(1)[j - 1] == s[j]);
            }
        }
        if first_of(s, c) < s.len() {
            assert(s.skip(1)[first_of(s, c) - 1] == s[first_of(s, c)]);
        }
    }
}

proof fn lemma_steps_concat(a: Seq<Seq<char>>, b: Seq<Seq<char>>)
    ensures
        steps(a + b) == steps(a) + steps(b),
    decreases b.len(),
{
    if b.len() == 0 {
        assert(a + b =~= a);
        assert(steps(a) + steps(b) =~= steps(a));
    } else {
        assert((a + b).drop_last() =~= a + b.drop_last());
        assert((a + b).last() == b.last());
        lemma_steps_concat(a, b.drop_last());
        assert(steps(a + b) =~= steps(a) + steps(b));
    }
}

proof fn lemma_lead_of_prefix(a: Seq<char>, b: Seq<char>)
    requires
        a.len() > 0,
    ensures
        lead(a + seq!['/'] + b) == lead(a),
        lead(a + seq!['/']) == lead(a),
{
    let none = Seq::<char>::empty();
    lemma_split_concat(a, '/', b);
    lemma_split_concat(a, '/', none);
    assert(a + seq!['/'] + none =~= a + seq!['/']);
    assert(split_on(a, '/').len() > 0);
    assert((a + seq!['/'] + b)[0] == a[0]);
    assert((a + seq!['/'])[0] == a[0]);
}

/// A path joined onto another that does not start at the root has the components of the one,
/// followed by the steps of the other: nothing is lost, and nothing is taken back but by steps to
/// a parent directory.
pub proof fn law_join_appends_components(base: Seq<char>, part: Seq<char>)
    requires
        base.len() > 0,
        !is_absolute_path(part),
    ensures
        components_of(joined(base, part)) == components_of(base) + steps(split_on(part, '/')),
{
    reveal_strlit("/");
    assert("/"@ =~= seq!['/']);
    let none = Seq::<char>::empty();
    if base.last() == '/' {
        let root = base.drop_last();
        assert(base =~= root + seq!['/']);
        assert(base + part =~= root + seq!['/'] + part);
        lemma_split_concat(root, '/', part);
        lemma_split_concat(root, '/', none);
        assert(root + seq!['/'] + none =~= base);
        lemma_steps_concat(split_on(root, '/'), split_on(part, '/'));
        lemma_steps_concat(split_on(root, '/'), split_on(none, '/'));
        assert(split_on(none, '/') =~= seq![none]);
        assert(seq![none].drop_last() =~= Seq::<Seq<char>>::empty());
        assert(steps(seq![none].drop_last()) == Seq::<ComponentView>::empty());
        assert(segment_steps(seq![none].last()) == Seq::<ComponentView>::empty());
        assert(steps(seq![none]) =~= Seq::<ComponentView>::empty());
        assert(steps(split_on(base, '/')) =~= steps(split_on(root, '/')));
        if root.len() > 0 {
            lemma_lead_of_prefix(root, part);
        } else {
            assert(base[0] == '/');
            assert((base + part)[0] == '/');
        }
    } else {
        lemma_split_concat(base, '/', part);
        lemma_steps_concat(split_on(base, '/'), split_on(part, '/'));
        lemma_lead_of_prefix(base, part);
    }
    assert(components_of(joined(base, part)) =~= components_of(base) + steps(split_on(part, '/')));
}

} // verus!
