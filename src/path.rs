use vstd::prelude::*;

verus! {

/// The abstract value of a path: whether it starts at the root directory, and the
/// names of its components in order.
pub type PathView = (bool, Seq<Seq<char>>);

/// A file-system path held as its components: whether it starts at the root
/// directory, then the names of the components that follow.
#[derive(Debug, PartialEq, Eq)]
pub struct FsPath {
    pub absolute: bool,
    pub parts: Vec<String>,
}

impl View for FsPath {
    type V = PathView;

    open spec fn view(&self) -> PathView {
        (self.absolute, self.parts.deep_view())
    }
}

/// The abstract values of a sequence of paths.
pub open spec fn paths_view(v: Seq<FsPath>) -> Seq<PathView> {
    Seq::new(v.len(), |i: int| v[i]@)
}

/// The abstract values of an optional list of paths, none where it is absent.
pub open spec fn optional_paths_view(o: Option<Vec<FsPath>>) -> Seq<PathView> {
    match o {
        Some(v) => paths_view(v@),
        None => Seq::empty(),
    }
}

/// Whether `base` is `path` or one of its ancestors: the same root, and the components
/// of `base` begin those of `path`.
pub open spec fn starts_with(path: PathView, base: PathView) -> bool {
    &&& path.0 == base.0
    &&& base.1.len() <= path.1.len()
    &&& path.1.subrange(0, base.1.len() as int) == base.1
}

/// The components of `path` below `root`, where `path` lies under `root`.
pub open spec fn relative_parts(path: PathView, root: PathView) -> Option<Seq<Seq<char>>> {
    if starts_with(path, root) {
        Some(path.1.skip(root.1.len() as int))
    } else {
        None
    }
}

/// `relative` re-rooted under `dest_root`, below the folder `group` where one is given.
pub open spec fn rerooted(
    dest_root: PathView,
    group: Option<Seq<char>>,
    relative: Seq<Seq<char>>,
) -> PathView {
    match group {
        Some(g) => (dest_root.0, dest_root.1.push(g) + relative),
        None => (dest_root.0, dest_root.1 + relative),
    }
}

/// Why a destination could not be computed.
#[derive(Clone, Copy, Debug, PartialEq, Eq, Structural)]
pub enum PathError {
    /// The file does not lie under the source root.
    NotUnderRoot,
}

fn copy_parts(parts: &Vec<String>, out: &mut Vec<String>, from: usize)
    requires
        from <= parts@.len(),
    ensures
        final(out).deep_view() == old(out).deep_view() + parts.deep_view().skip(from as int),
{
    let mut i: usize = from;
    while i < parts.len()
        invariant
            from <= i <= parts@.len(),
            out.deep_view() == old(out).deep_view() + parts.deep_view().subrange(
                from as int,
                i as int,
            ),
        decreases parts@.len() - i,
    {
        let ghost before = out.deep_view();
        let part = parts[i].clone();
        assert(part@ == parts.deep_view()[i as int]);
        out.push(part);
        proof {
            assert(out.deep_view() =~= before.push(parts.deep_view()[i as int]));
        }
        i = i + 1;
        proof {
            assert(out.deep_view() =~= old(out).deep_view() + parts.deep_view().subrange(
                from as int,
                i as int,
            ));
        }
    }
    proof {
        assert(parts.deep_view().subrange(from as int, i as int) =~= parts.deep_view().skip(
            from as int,
        ));
    }
}

impl FsPath {
    /// A copy of this path.
    pub fn duplicate(&self) -> (r: FsPath)
        ensures
            r@ == self@,
    {
        let mut parts: Vec<String> = Vec::new();
        copy_parts(&self.parts, &mut parts, 0);
        proof {
            assert(parts.deep_view() =~= self.parts.deep_view());
        }
        FsPath { absolute: self.absolute, parts }
    }

    /// Whether `base` is this path or one of its ancestors, compared by components.
    pub fn starts_with(&self, base: &FsPath) -> (r: bool)
        ensures
            r == starts_with(self@, base@),
    {
        if self.absolute != base.absolute || base.parts.len() > self.parts.len() {
            return false;
        }
        let mut i: usize = 0;
        while i < base.parts.len()
            invariant
                base.parts@.len() <= self.parts@.len(),
                i <= base.parts@.len(),
                self@.1.subrange(0, i as int) == base@.1.subrange(0, i as int),
            decreases base.parts@.len() - i,
        {
            if self.parts[i] != base.parts[i] {
                proof {
                    assert(self@.1.subrange(0, base@.1.len() as int)[i as int] != base@.1[i as int]);
                }
                return false;
            }
            i = i + 1;
            proof {
                assert(self@.1.subrange(0, i as int) =~= base@.1.subrange(0, i as int));
            }
        }
        proof {
            assert(base@.1.subrange(0, i as int) =~= base@.1);
        }
        true
    }

    /// Whether this path and `other` have the same components.
    pub fn same_as(&self, other: &FsPath) -> (r: bool)
        ensures
            r == (self@ == other@),
    {
        if self.parts.len() != other.parts.len() {
            return false;
        }
        let r = self.starts_with(other);
        proof {
            assert(self@.1 =~= self@.1.subrange(0, other@.1.len() as int));
        }
        r
    }
}

/// Calculate destination path for a file: its path below `source_root`, re-rooted under
/// `dest_root`, inside the folder `group_folder` where one is given.
pub fn calculate_dest_path(
    source_path: &FsPath,
    source_root: &FsPath,
    dest_root: &FsPath,
    group_folder: Option<&str>,
) -> (r: Result<FsPath, PathError>)
    ensures
        r is Ok <==> starts_with(source_path@, source_root@),
        r is Err ==> r == Err::<FsPath, PathError>(PathError::NotUnderRoot),
        r matches Ok(p) ==> p@ == rerooted(
            dest_root@,
            match group_folder {
                Some(g) => Some(g@),
                None => None,
            },
            relative_parts(source_path@, source_root@)->Some_0,
        ),
{
    if !source_path.starts_with(source_root) {
        return Err(PathError::NotUnderRoot);
    }
    let mut parts: Vec<String> = Vec::new();
    copy_parts(&dest_root.parts, &mut parts, 0);
    assert(parts.deep_view() =~= dest_root@.1);
    let ghost group_view = match group_folder {
        Some(g) => Some(g@),
        None => None,
    };
    match group_folder {
        Some(g) => {
            let name = String::from_str(g);
            parts.push(name);
            assert(parts.deep_view() =~= dest_root@.1.push(g@));
        },
        None => {},
    }
    let ghost head = parts.deep_view();
    copy_parts(&source_path.parts, &mut parts, source_root.parts.len());
    let r = FsPath { absolute: dest_root.absolute, parts };
    proof {
        assert(r@.1 == head + source_path@.1.skip(source_root@.1.len() as int));
        assert(r@ =~= rerooted(
            dest_root@,
            group_view,
            relative_parts(source_path@, source_root@)->Some_0,
        ));
    }
    Ok(r)
}

} // verus!

verus! {

/// Re-rooting keeps the structure below the source root exactly; a path outside the
/// source root has no destination; and a group folder adds exactly one component, directly
/// under the destination root, leaving the relative components as they are.
pub proof fn lemma_destination_structure(
    path: PathView,
    root: PathView,
    dest_root: PathView,
    group: Seq<char>,
)
    ensures
        relative_parts(path, root) is None <==> !starts_with(path, root),
        starts_with(path, root) ==> {
            let rel = relative_parts(path, root)->Some_0;
            let plain = rerooted(dest_root, None, rel);
            let grouped = rerooted(dest_root, Some(group), rel);
            &&& root.1 + rel == path.1
            &&& plain.0 == dest_root.0 && grouped.0 == dest_root.0
            &&& plain.1 == dest_root.1 + rel
            &&& grouped.1 == plain.1.insert(dest_root.1.len() as int, group)
            &&& grouped.1[dest_root.1.len() as int] == group
            &&& grouped.1.skip(dest_root.1.len() as int + 1) == rel
        },
{
    if starts_with(path, root) {
        let rel = relative_parts(path, root)->Some_0;
        let plain = rerooted(dest_root, None, rel);
        let grouped = rerooted(dest_root, Some(group), rel);
        assert(root.1 + rel =~= path.1);
        assert(grouped.1 =~= plain.1.insert(dest_root.1.len() as int, group));
        assert(grouped.1.skip(dest_root.1.len() as int + 1) =~= rel);
    }
}

} // verus!
