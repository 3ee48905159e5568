//! Paths as the policy sees them: plain strings, taken apart by the
//! platform's own path rules and resolved against the workspace root
//! component by component. Nothing here asks the file system: `.` and `..`
//! are resolved in the text alone.

use crate::text::{chars_eq, clone_string, opt_view, str_chars};
use std::path::{Component, Path};
use vstd::prelude::*;

verus! {

/// Whether the platform takes `path` to be absolute.
pub uninterp spec fn path_is_absolute(path: Seq<char>) -> bool;

/// The path that the platform makes of `path` appended to `base`.
pub uninterp spec fn path_join(base: Seq<char>, path: Seq<char>) -> Seq<char>;

/// `Path::is_absolute`: the answer depends on the path's text alone, by
/// the rules of the platform the library is built for.
#[verifier::external_body]
fn is_absolute(path: &str) -> (b: bool)
    ensures
        b == path_is_absolute(path@),
{
    Path::new(path).is_absolute()
}

/// `Path::join`: the joined path depends on the two texts alone.
#[verifier::external_body]
pub(crate) fn join(base: &str, path: &str) -> (out: String)
    ensures
        out@ == path_join(base@, path@),
{
    Path::new(base).join(path).to_string_lossy().into_owned()
}

/// The kinds of component that the platform finds in a path.
#[derive(Debug, Clone, Copy, PartialEq, Eq, Structural)]
pub enum PartKind {
    /// What stands before the root on some platforms, such as a drive.
    Prefix,
    /// The root directory.
    Root,
    /// The directory itself, written `.`.
    Current,
    /// The directory above, written `..`.
    Parent,
    /// The name of a file or of a directory.
    Name,
}

/// One component of a path: its kind and its text.
#[derive(Debug, Clone)]
pub struct PathPart {
    pub kind: PartKind,
    pub text: String,
}

pub struct PathPartView {
    pub kind: PartKind,
    pub text: Seq<char>,
}

impl View for PathPart {
    type V = PathPartView;

    open spec fn view(&self) -> PathPartView {
        PathPartView { kind: self.kind, text: self.text@ }
    }
}

pub open spec fn part_views(parts: Seq<PathPart>) -> Seq<PathPartView> {
    Seq::new(parts.len(), |i: int| parts[i]@)
}

/// The components that the platform finds in `path`, in order.
pub uninterp spec fn path_components(path: Seq<char>) -> Seq<PathPartView>;

/// `Path::components`: the components depend on the path's text alone.
/// Each is handed out with its kind and with its own text, as `as_os_str`
/// gives it.
#[verifier::external_body]
fn components(path: &str) -> (out: Vec<PathPart>)
    ensures
        part_views(out@) == path_components(path@),
{
    Path::new(path).components().map(|part| PathPart {
        kind: match part {
            Component::Prefix(_) => PartKind::Prefix,
            Component::RootDir => PartKind::Root,
            Component::CurDir => PartKind::Current,
            Component::ParentDir => PartKind::Parent,
            Component::Normal(_) => PartKind::Name,
        },
        text: part.as_os_str().to_string_lossy().into_owned(),
    }).collect()
}

/// The extension of the last component of `path`, where it has one.
pub uninterp spec fn path_extension(path: Seq<char>) -> Option<Seq<char>>;

/// The last component of `path`, where it is the name of a file or of a
/// directory.
pub uninterp spec fn path_file_name(path: Seq<char>) -> Option<Seq<char>>;

/// `Path::extension`: the extension depends on the path's text alone.
#[verifier::external_body]
pub(crate) fn extension(path: &str) -> (out: Option<String>)
    ensures
        opt_view(out) == path_extension(path@),
{
    match Path::new(path).extension() {
        Some(ext) => Some(ext.to_string_lossy().into_owned()),
        None => None,
    }
}

/// `Path::file_name`: the name depends on the path's text alone.
#[verifier::external_body]
pub(crate) fn file_name(path: &str) -> (out: Option<String>)
    ensures
        opt_view(out) == path_file_name(path@),
{
    match Path::new(path).file_name() {
        Some(name) => Some(name.to_string_lossy().into_owned()),
        None => None,
    }
}

/// What one more component makes of the components resolved so far. A
/// `.` changes nothing. A `..` takes back the name before it; at the root
/// it changes nothing, for nothing lies above the root; anywhere else it
/// stays, as a step above where the path began. Every other component is
/// added.
pub open spec fn spec_push_part(done: Seq<PathPartView>, part: PathPartView) -> Seq<
    PathPartView,
> {
    if part.kind == PartKind::Current {
        done
    } else if part.kind == PartKind::Parent && done.len() > 0 && done.last().kind
        == PartKind::Name {
        done.drop_last()
    } else if part.kind == PartKind::Parent && done.len() > 0 && done.last().kind
        == PartKind::Root {
        done
    } else {
        done.push(part)
    }
}

/// The components with every `.` and `..` resolved, from left to right.
pub open spec fn spec_normalize(parts: Seq<PathPartView>) -> Seq<PathPartView>
    decreases parts.len(),
{
    if parts.len() == 0 {
        Seq::empty()
    } else {
        spec_push_part(spec_normalize(parts.drop_last()), parts.last())
    }
}

/// Whether the component at `at` needs no resolving: it is no `.`, and
/// if it is a `..`, it stands at the start, after a prefix or after
/// another `..`.
pub open spec fn spec_settled_at(parts: Seq<PathPartView>, at: int) -> bool {
    &&& parts[at].kind != PartKind::Current
    &&& (parts[at].kind == PartKind::Parent && at > 0 ==> parts[at - 1].kind == PartKind::Parent
        || parts[at - 1].kind == PartKind::Prefix)
}

/// Whether nothing is left to resolve.
pub open spec fn spec_is_normal(parts: Seq<PathPartView>) -> bool {
    forall|at: int| 0 <= at < parts.len() ==> #[trigger] spec_settled_at(parts, at)
}

/// The path that the components make: each joined onto those before it.
pub open spec fn spec_parts_path(parts: Seq<PathPartView>) -> Seq<char>
    decreases parts.len(),
{
    if parts.len() == 0 {
        Seq::empty()
    } else {
        path_join(spec_parts_path(parts.drop_last()), parts.last().text)
    }
}

/// A path argument as the sandbox rules see it.
#[derive(Debug, Clone)]
pub struct ResolvedPath {
    /// The path made absolute against the workspace root, with `.` and
    /// `..` resolved.
    pub absolute: String,
    /// The same path written from the workspace root, as `./...`, where it
    /// lies under the root.
    pub relative: Option<String>,
    /// Whether the path lies under the workspace root.
    pub inside_workspace: bool,
}

pub struct ResolvedPathView {
    pub absolute: Seq<char>,
    pub relative: Option<Seq<char>>,
    pub inside_workspace: bool,
}

impl View for ResolvedPath {
    type V = ResolvedPathView;

    open spec fn view(&self) -> ResolvedPathView {
        ResolvedPathView {
            absolute: self.absolute@,
            relative: opt_view(self.relative),
            inside_workspace: self.inside_workspace,
        }
    }
}

/// A path of the given components, seen from a workspace root of the
/// given components. Both are resolved first. The path lies in the
/// workspace exactly when the root's components lead its own; its relative
/// form is then made of the components after those.
pub open spec fn spec_resolve_parts(
    root: Seq<PathPartView>,
    path: Seq<PathPartView>,
) -> ResolvedPathView {
    let base = spec_normalize(root);
    let full = spec_normalize(path);
    let inside = base.is_prefix_of(full);
    ResolvedPathView {
        absolute: spec_parts_path(full),
        relative: if inside {
            Some(path_join(seq!['.'], spec_parts_path(full.skip(base.len() as int))))
        } else {
            None
        },
        inside_workspace: inside,
    }
}

/// An absolute path stays as it is; any other is joined onto the root.
pub open spec fn spec_rooted(root: Seq<char>, path: Seq<char>) -> Seq<char> {
    if path_is_absolute(path) {
        path
    } else {
        path_join(root, path)
    }
}

/// A path argument seen from the workspace root: the path is set on the
/// root, and both are taken apart and resolved.
pub open spec fn spec_resolve_target(root: Seq<char>, path: Seq<char>) -> ResolvedPathView {
    spec_resolve_parts(path_components(root), path_components(spec_rooted(root, path)))
}

/// The absolute, resolved form of a path argument.
pub open spec fn spec_resolve_path(root: Seq<char>, path: Seq<char>) -> Seq<char> {
    spec_resolve_target(root, path).absolute
}

/// Resolving leaves nothing to resolve.
pub proof fn lemma_normalize_is_normal(parts: Seq<PathPartView>)
    ensures
        spec_is_normal(spec_normalize(parts)),
    decreases parts.len(),
{
    if parts.len() > 0 {
        let done = spec_normalize(parts.drop_last());
        let out = spec_normalize(parts);
        lemma_normalize_is_normal(parts.drop_last());
        assert forall|at: int| 0 <= at < out.len() implies #[trigger] spec_settled_at(
            out,
            at,
        ) by {
            if at < done.len() {
                assert(spec_settled_at(done, at));
            }
            if at > 0 && at - 1 < done.len() {
                assert(spec_settled_at(done, at - 1));
            }
        }
    }
}

/// Where nothing is left to resolve, resolving changes nothing.
pub proof fn lemma_normal_stays(parts: Seq<PathPartView>)
    requires
        spec_is_normal(parts),
    ensures
        spec_normalize(parts) == parts,
    decreases parts.len(),
{
    if parts.len() > 0 {
        let front = parts.drop_last();
        assert forall|at: int| 0 <= at < front.len() implies #[trigger] spec_settled_at(
            front,
            at,
        ) by {
            assert(spec_settled_at(parts, at));
        }
        lemma_normal_stays(front);
        assert(spec_settled_at(parts, parts.len() - 1));
        assert(front.push(parts.last()) =~= parts);
    } else {
        assert(parts =~= Seq::empty());
    }
}

/// Resolving twice is resolving once.
pub proof fn lemma_normalize_twice(parts: Seq<PathPartView>)
    ensures
        spec_normalize(spec_normalize(parts)) == spec_normalize(parts),
{
    lemma_normalize_is_normal(parts);
    lemma_normal_stays(spec_normalize(parts));
}

/// Names added to a path only make it longer: none of them takes
/// anything back.
pub proof fn lemma_names_are_kept(parts: Seq<PathPartView>, names: Seq<PathPartView>)
    requires
        forall|i: int| 0 <= i < names.len() ==> (#[trigger] names[i]).kind == PartKind::Name,
    ensures
        spec_normalize(parts + names) == spec_normalize(parts) + names,
    decreases names.len(),
{
    if names.len() == 0 {
        assert(parts + names =~= parts);
        assert(spec_normalize(parts) + names =~= spec_normalize(parts));
    } else {
        let front = names.drop_last();
        lemma_names_are_kept(parts, front);
        assert((parts + names).drop_last() =~= parts + front);
        assert((parts + names).last() == names.last());
        assert((spec_normalize(parts) + front).push(names.last()) =~= spec_normalize(parts)
            + names);
    }
}

/// A path that goes down from the workspace root by names alone lies in
/// the workspace.
pub proof fn lemma_going_down_stays_inside(root: Seq<PathPartView>, names: Seq<PathPartView>)
    requires
        forall|i: int| 0 <= i < names.len() ==> (#[trigger] names[i]).kind == PartKind::Name,
    ensures
        spec_resolve_parts(root, root + names).inside_workspace,
{
    lemma_names_are_kept(root, names);
    let base = spec_normalize(root);
    assert((base + names).subrange(0, base.len() as int) =~= base);
}

/// A path that climbs from the workspace root, a directory with a name,
/// to the directory above and goes down by another name lies outside
/// the workspace.
pub proof fn lemma_climbing_out_leaves(
    root: Seq<PathPartView>,
    parent: PathPartView,
    name: PathPartView,
)
    requires
        spec_normalize(root).len() > 0,
        spec_normalize(root).last().kind == PartKind::Name,
        parent.kind == PartKind::Parent,
        name.kind == PartKind::Name,
        name != spec_normalize(root).last(),
    ensures
        !spec_resolve_parts(root, root + seq![parent, name]).inside_workspace,
        spec_normalize(root + seq![parent, name]) == spec_normalize(root).drop_last().push(name),
{
    let base = spec_normalize(root);
    let path = root + seq![parent, name];
    let step = root + seq![parent];
    assert(path.drop_last() =~= step);
    assert(path.last() == name);
    assert(step.drop_last() =~= root);
    assert(step.last() == parent);
    assert(spec_normalize(step) == base.drop_last());
    let full = spec_normalize(path);
    assert(full == base.drop_last().push(name));
    if base.is_prefix_of(full) {
        assert(full.subrange(0, base.len() as int)[base.len() - 1] == name);
        assert(base[base.len() - 1] == name);
    }
}

fn copy_part(part: &PathPart) -> (out: PathPart)
    ensures
        out@ == part@,
{
    PathPart { kind: part.kind, text: clone_string(&part.text) }
}

fn same_part(a: &PathPart, b: &PathPart) -> (same: bool)
    ensures
        same == (a@ == b@),
{
    a.kind == b.kind && chars_eq(&str_chars(a.text.as_str()), &str_chars(b.text.as_str()))
}

/// The components with every `.` and `..` resolved.
pub fn normalize(parts: &Vec<PathPart>) -> (out: Vec<PathPart>)
    ensures
        part_views(out@) == spec_normalize(part_views(parts@)),
{
    let mut out: Vec<PathPart> = Vec::new();
    let mut i: usize = 0;
    assert(part_views(parts@).take(0) =~= Seq::empty());
    assert(part_views(out@) =~= Seq::empty());
    while i < parts.len()
        invariant
            i <= parts.len(),
            part_views(out@) == spec_normalize(part_views(parts@).take(i as int)),
        decreases parts.len() - i,
    {
        let ghost views = part_views(parts@);
        let ghost before = part_views(out@);
        assert(views.take(i + 1).drop_last() =~= views.take(i as int));
        assert(views.take(i + 1).last() == parts@[i as int]@);
        let part = &parts[i];
        let n: usize = out.len();
        if part.kind == PartKind::Current {
        } else if part.kind == PartKind::Parent && n > 0 && out[n - 1].kind == PartKind::Name {
            out.pop();
            assert(part_views(out@) =~= before.drop_last());
        } else if part.kind == PartKind::Parent && n > 0 && out[n - 1].kind == PartKind::Root {
        } else {
            let copy = copy_part(part);
            out.push(copy);
            assert(part_views(out@) =~= before.push(part@));
        }
        i += 1;
    }
    assert(part_views(parts@).take(parts.len() as int) =~= part_views(parts@));
    out
}

/// Whether the components `base` are the first components of `path`.
pub fn leads(base: &Vec<PathPart>, path: &Vec<PathPart>) -> (b: bool)
    ensures
        b == part_views(base@).is_prefix_of(part_views(path@)),
{
    if base.len() > path.len() {
        return false;
    }
    let mut i: usize = 0;
    while i < base.len()
        invariant
            i <= base.len() <= path.len(),
            forall|k: int| 0 <= k < i ==> (#[trigger] base@[k])@ == path@[k]@,
        decreases base.len() - i,
    {
        if !same_part(&base[i], &path[i]) {
            assert(part_views(base@)[i as int] != part_views(path@).subrange(
                0,
                base.len() as int,
            )[i as int]);
            return false;
        }
        i += 1;
    }
    assert(part_views(base@) =~= part_views(path@).subrange(0, base.len() as int));
    true
}

/// The path made of the components from `from` on.
pub fn parts_path(parts: &Vec<PathPart>, from: usize) -> (out: String)
    requires
        from <= parts.len(),
    ensures
        out@ == spec_parts_path(part_views(parts@).skip(from as int)),
{
    let mut out = String::new();
    let mut i: usize = from;
    assert(part_views(parts@).subrange(from as int, from as int) =~= Seq::empty());
    while i < parts.len()
        invariant
            from <= i <= parts.len(),
            out@ == spec_parts_path(part_views(parts@).subrange(from as int, i as int)),
        decreases parts.len() - i,
    {
        let ghost views = part_views(parts@);
        assert(views.subrange(from as int, i + 1).drop_last() =~= views.subrange(
            from as int,
            i as int,
        ));
        assert(views.subrange(from as int, i + 1).last() == parts@[i as int]@);
        out = join(out.as_str(), parts[i].text.as_str());
        i += 1;
    }
    assert(part_views(parts@).subrange(from as int, parts.len() as int) =~= part_views(
        parts@,
    ).skip(from as int));
    out
}

/// A path of the given components, seen from a workspace root of the
/// given components.
pub fn resolve_parts(root: &Vec<PathPart>, path: &Vec<PathPart>) -> (out: ResolvedPath)
    ensures
        out@ == spec_resolve_parts(part_views(root@), part_views(path@)),
{
    let base = normalize(root);
    let full = normalize(path);
    let inside_workspace = leads(&base, &full);
    let absolute = parts_path(&full, 0);
    assert(part_views(full@).skip(0) =~= part_views(full@));
    let relative = if inside_workspace {
        let rest = parts_path(&full, base.len());
        proof {
            reveal_strlit(".");
            assert("."@ =~= seq!['.']);
        }
        Some(join(".", rest.as_str()))
    } else {
        None
    };
    ResolvedPath { absolute, relative, inside_workspace }
}

/// A path argument seen from the workspace root.
pub fn resolve_target(root: &str, path: &str) -> (out: ResolvedPath)
    ensures
        out@ == spec_resolve_target(root@, path@),
{
    let rooted = if is_absolute(path) {
        path.to_owned()
    } else {
        join(root, path)
    };
    let root_parts = components(root);
    let path_parts = components(rooted.as_str());
    resolve_parts(&root_parts, &path_parts)
}

/// The absolute, resolved form of a path argument.
pub fn resolve_path(root: &str, path: &str) -> (out: String)
    ensures
        out@ == spec_resolve_path(root@, path@),
{
    resolve_target(root, path).absolute
}

} // verus!
