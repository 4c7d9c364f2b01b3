//! File paths, taken apart into their components.
use vstd::prelude::*;

verus! {

/// One component of a path. A name is held as the bytes in which the platform encodes it.
#[derive(Debug, PartialEq, Eq)]
pub enum Component {
    /// A drive or share in front of the path, where the platform has such a thing.
    Prefix(Vec<u8>),
    /// The root directory.
    RootDir,
    /// The current directory, `.`.
    CurDir,
    /// The directory above, `..`.
    ParentDir,
    /// A file or directory name.
    Normal(Vec<u8>),
}

/// A component as contracts speak of it.
pub enum Part {
    Prefix(Seq<u8>),
    RootDir,
    CurDir,
    ParentDir,
    Normal(Seq<u8>),
}

impl View for Component {
    type V = Part;

    open spec fn view(&self) -> Part {
        match self {
            Component::Prefix(bytes) => Part::Prefix(bytes@),
            Component::RootDir => Part::RootDir,
            Component::CurDir => Part::CurDir,
            Component::ParentDir => Part::ParentDir,
            Component::Normal(bytes) => Part::Normal(bytes@),
        }
    }
}

/// A path: its components, first to last. Two paths are the same when their components are.
#[derive(Debug, PartialEq, Eq)]
pub struct FilePath {
    pub components: Vec<Component>,
}

impl View for FilePath {
    type V = Seq<Part>;

    open spec fn view(&self) -> Seq<Part> {
        self.components@.map_values(|component: Component| component@)
    }
}

/// The path without its last component. A path that ends in a root or a prefix, or that has no
/// component at all, has no parent.
pub open spec fn parent_of(path: Seq<Part>) -> Option<Seq<Part>> {
    if path.len() == 0 || path.last() is Prefix || path.last() is RootDir {
        None
    } else {
        Some(path.drop_last())
    }
}

/// The name that the path ends in, if it ends in one.
pub open spec fn file_name_of(path: Seq<Part>) -> Option<Seq<u8>> {
    if path.len() > 0 && path.last() is Normal {
        Some(path.last()->Normal_0)
    } else {
        None
    }
}

/// The views of a list of names.
pub open spec fn names_of(names: Seq<Vec<u8>>) -> Seq<Seq<u8>> {
    names.map_values(|name: Vec<u8>| name@)
}

/// The views of a list of paths.
pub open spec fn paths_of(paths: Seq<FilePath>) -> Seq<Seq<Part>> {
    paths.map_values(|path: FilePath| path@)
}

/// The view of a path that may be absent.
pub open spec fn found(path: Option<FilePath>) -> Option<Seq<Part>> {
    match path {
        Some(path) => Some(path@),
        None => None,
    }
}

/// A path that ends in a name is that name in its parent directory.
pub proof fn law_name_in_parent(path: Seq<Part>)
    requires
        file_name_of(path) is Some,
    ensures
        parent_of(path) is Some,
        path == parent_of(path)->0.push(Part::Normal(file_name_of(path)->0)),
{
    assert(path =~= path.drop_last().push(path.last()));
}

/// A name put into a directory makes a path with that parent and that file name.
pub proof fn law_parent_of_name(dir: Seq<Part>, name: Seq<u8>)
    ensures
        parent_of(dir.push(Part::Normal(name))) == Some(dir),
        file_name_of(dir.push(Part::Normal(name))) == Some(name),
{
    assert(dir.push(Part::Normal(name)).drop_last() =~= dir);
}

/// A path has a file name exactly when its last component is one.
pub proof fn law_file_name_is_last(path: Seq<Part>, name: Seq<u8>)
    ensures
        file_name_of(path) == Some(name) <==> path.len() > 0 && path.last() == Part::Normal(name),
        file_name_of(path) is None <==> path.len() == 0 || path.last() !is Normal,
{
}

/// A component put behind a path makes a path with that parent, unless the component is a prefix or
/// a root, behind which there is nothing to take off. The empty path has no parent.
pub proof fn law_parent_drops_last(dir: Seq<Part>, part: Part)
    ensures
        match part {
            Part::Prefix(_) | Part::RootDir => parent_of(dir.push(part)) is None,
            Part::CurDir | Part::ParentDir | Part::Normal(_) => parent_of(dir.push(part)) == Some(
                dir,
            ),
        },
        parent_of(Seq::empty()) is None,
{
    assert(dir.push(part).drop_last() =~= dir);
}

/// Contracts see each component of a path, with all bytes of a name, and no other.
pub proof fn law_every_component_is_seen(path: FilePath, index: int)
    requires
        0 <= index < path.components@.len(),
    ensures
        path@.len() == path.components@.len(),
        match path.components@[index] {
            Component::Prefix(bytes) => path@[index] == Part::Prefix(bytes@),
            Component::RootDir => path@[index] == Part::RootDir,
            Component::CurDir => path@[index] == Part::CurDir,
            Component::ParentDir => path@[index] == Part::ParentDir,
            Component::Normal(bytes) => path@[index] == Part::Normal(bytes@),
        },
{
}

/// Two components are seen alike exactly when they are of one kind and hold the same bytes.
pub proof fn law_components_are_told_apart(left: Component, right: Component)
    ensures
        left@ == right@ <==> (match (left, right) {
            (Component::Prefix(left), Component::Prefix(right)) => left@ == right@,
            (Component::Normal(left), Component::Normal(right)) => left@ == right@,
            (Component::RootDir, Component::RootDir) => true,
            (Component::CurDir, Component::CurDir) => true,
            (Component::ParentDir, Component::ParentDir) => true,
            _ => false,
        }),
{
}

/// Contracts see each name and each path of a list, in its place, and no other.
pub proof fn law_lists_are_seen(names: Seq<Vec<u8>>, paths: Seq<FilePath>)
    ensures
        names_of(names).len() == names.len(),
        forall|i: int| 0 <= i < names.len() ==> #[trigger] names_of(names)[i] == names[i]@,
        paths_of(paths).len() == paths.len(),
        forall|i: int| 0 <= i < paths.len() ==> #[trigger] paths_of(paths)[i] == paths[i]@,
{
}

/// A path that may be absent is seen as that path where there is one.
pub proof fn law_found_is_seen(path: FilePath)
    ensures
        found(Some(path)) == Some(path@),
        found(None) is None,
{
}

/// Whether two names are the same, byte for byte.
pub(crate) fn same_bytes(left: &Vec<u8>, right: &Vec<u8>) -> (same: bool)
    ensures
        same == (left@ == right@),
{
    if left.len() != right.len() {
        return false;
    }
    for i in 0..left.len()
        invariant
            left.len() == right.len(),
            forall|j: int| 0 <= j < i ==> left@[j] == right@[j],
    {
        if left[i] != right[i] {
            return false;
        }
    }
    assert(left@ =~= right@);
    true
}

/// A copy of a name.
pub(crate) fn copy_bytes(bytes: &Vec<u8>) -> (copy: Vec<u8>)
    ensures
        copy@ == bytes@,
{
    let copy = bytes.clone();
    assert(copy@ =~= bytes@);
    copy
}

/// A copy of a list of names.
pub(crate) fn copy_names(names: &Vec<Vec<u8>>) -> (copy: Vec<Vec<u8>>)
    ensures
        names_of(copy@) == names_of(names@),
{
    let mut copy: Vec<Vec<u8>> = Vec::new();
    for i in 0..names.len()
        invariant
            copy.len() == i,
            forall|j: int| 0 <= j < i ==> #[trigger] copy@[j]@ == names@[j]@,
    {
        copy.push(copy_bytes(&names[i]));
    }
    assert(names_of(copy@) =~= names_of(names@));
    copy
}

impl Clone for Component {
    fn clone(&self) -> (copy: Self)
        ensures
            copy@ == self@,
    {
        match self {
            Component::Prefix(bytes) => Component::Prefix(copy_bytes(bytes)),
            Component::RootDir => Component::RootDir,
            Component::CurDir => Component::CurDir,
            Component::ParentDir => Component::ParentDir,
            Component::Normal(bytes) => Component::Normal(copy_bytes(bytes)),
        }
    }
}

impl Component {
    fn same_as(&self, other: &Component) -> (same: bool)
        ensures
            same == (self@ == other@),
    {
        match (self, other) {
            (Component::Prefix(left), Component::Prefix(right)) => same_bytes(left, right),
            (Component::RootDir, Component::RootDir) => true,
            (Component::CurDir, Component::CurDir) => true,
            (Component::ParentDir, Component::ParentDir) => true,
            (Component::Normal(left), Component::Normal(right)) => same_bytes(left, right),
            _ => false,
        }
    }
}

impl FilePath {
    /// The path that has these components.
    pub fn new(components: Vec<Component>) -> (path: FilePath)
        ensures
            path.components == components,
    {
        FilePath { components }
    }

    /// The first `len` components of the path.
    fn first(&self, len: usize) -> (path: FilePath)
        requires
            len <= self@.len(),
        ensures
            path@ == self@.take(len as int),
    {
        let mut components: Vec<Component> = Vec::new();
        for i in 0..len
            invariant
                len <= self.components.len(),
                components.len() == i,
                forall|j: int| 0 <= j < i ==> #[trigger] components@[j]@ == self.components@[j]@,
        {
            components.push(self.components[i].clone());
        }
        let path = FilePath { components };
        assert(path@ =~= self@.take(len as int));
        path
    }

    /// The path without its last component, if it has a parent.
    pub fn parent(&self) -> (parent: Option<FilePath>)
        ensures
            found(parent) == parent_of(self@),
    {
        let len: usize = self.components.len();
        if len == 0 {
            return None;
        }
        match &self.components[len - 1] {
            Component::Prefix(_) | Component::RootDir => None,
            _ => {
                assert(self@.take(len - 1) =~= self@.drop_last());
                Some(self.first(len - 1))
            },
        }
    }

    /// The name that the path ends in, if it ends in one.
    pub fn file_name(&self) -> (name: Option<Vec<u8>>)
        ensures
            match name {
                Some(name) => file_name_of(self@) == Some(name@),
                None => file_name_of(self@) is None,
            },
    {
        let len: usize = self.components.len();
        if len == 0 {
            return None;
        }
        match &self.components[len - 1] {
            Component::Normal(name) => Some(copy_bytes(name)),
            _ => None,
        }
    }

    /// Whether both paths have the same components.
    pub fn same_as(&self, other: &FilePath) -> (same: bool)
        ensures
            same == (self@ == other@),
    {
        if self.components.len() != other.components.len() {
            assert(self@.len() != other@.len());
            return false;
        }
        for i in 0..self.components.len()
            invariant
                self.components.len() == other.components.len(),
                forall|j: int| 0 <= j < i ==> self@[j] == other@[j],
        {
            if !self.components[i].same_as(&other.components[i]) {
                assert(self@[i as int] != other@[i as int]);
                return false;
            }
        }
        assert(self@ =~= other@);
        true
    }
}

impl Clone for FilePath {
    fn clone(&self) -> (copy: Self)
        ensures
            copy@ == self@,
    {
        assert(self@.take(self@.len() as int) =~= self@);
        self.first(self.components.len())
    }
}

} // verus!
