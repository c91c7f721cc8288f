//! Domain-neutral typed tag primitives.
use vstd::prelude::*;
use vstd::std_specs::cmp::PartialEqSpec;

verus! {

/// True when `path` holds an atom equal to `atom`.
pub open spec fn path_has_atom<Atom: PartialEq>(path: Seq<Atom>, atom: Atom) -> bool {
    exists|i: int| 0 <= i < path.len() && (#[trigger] path[i]).eq_spec(&atom)
}

/// True when `path` begins with the atoms of `prefix`.
pub open spec fn path_starts_with<Atom: PartialEq>(path: Seq<Atom>, prefix: Seq<Atom>) -> bool {
    &&& prefix.len() <= path.len()
    &&& forall|i: int| 0 <= i < prefix.len() ==> (#[trigger] path[i]).eq_spec(&prefix[i])
}

/// True when `path` holds every atom of `atoms`.
pub open spec fn path_has_all_atoms<Atom: PartialEq>(path: Seq<Atom>, atoms: Seq<Atom>) -> bool {
    forall|j: int| 0 <= j < atoms.len() ==> path_has_atom(path, #[trigger] atoms[j])
}

/// Two paths are the same exact path.
pub open spec fn same_path<Atom: PartialEq>(a: Seq<Atom>, b: Seq<Atom>) -> bool {
    &&& a.len() == b.len()
    &&& forall|i: int| 0 <= i < a.len() ==> (#[trigger] a[i]).eq_spec(&b[i])
}

/// True when `paths` holds a path equal to `path`.
pub open spec fn paths_have<Atom: PartialEq>(paths: Seq<Seq<Atom>>, path: Seq<Atom>) -> bool {
    exists|i: int| 0 <= i < paths.len() && same_path(#[trigger] paths[i], path)
}

/// The atom paths of a sequence of tags.
pub open spec fn tag_paths<Atom>(tags: Seq<Tag<Atom>>) -> Seq<Seq<Atom>> {
    tags.map_values(|t: Tag<Atom>| t@)
}

/// Exact-path query semantics: no `none` path present, every `all` path present, and
/// some `any` path present unless `any` is empty.
pub open spec fn query_holds<Atom: PartialEq>(
    paths: Seq<Seq<Atom>>,
    all: Seq<Seq<Atom>>,
    any: Seq<Seq<Atom>>,
    none: Seq<Seq<Atom>>,
) -> bool {
    &&& forall|j: int| 0 <= j < none.len() ==> !paths_have(paths, #[trigger] none[j])
    &&& forall|j: int| 0 <= j < all.len() ==> paths_have(paths, #[trigger] all[j])
    &&& (any.len() == 0 || exists|j: int| 0 <= j < any.len() && paths_have(paths, #[trigger] any[j]))
}

/// One grouped hierarchical tag path.
#[derive(Clone, Debug, PartialEq, Eq)]
pub struct Tag<Atom> {
    atoms: Vec<Atom>,
}

impl<Atom> Tag<Atom> {
    /// The atoms of this path in order.
    pub closed spec fn view(&self) -> Seq<Atom> {
        self.atoms@
    }

    /// Creates a tag from a grouped path of atoms.
    pub fn new(atoms: Vec<Atom>) -> (tag: Tag<Atom>)
        ensures
            tag@ == atoms@,
    {
        Tag { atoms }
    }

    /// Returns this tag's atoms as one grouped path.
    pub fn atoms(&self) -> (atoms: &[Atom])
        ensures
            atoms@ == self@,
    {
        self.atoms.as_slice()
    }
}

impl<Atom: PartialEq> Tag<Atom> {
    /// Returns true when this exact path contains `atom`.
    pub fn has_atom(&self, atom: &Atom) -> (found: bool)
        ensures
            Atom::obeys_eq_spec() ==> found == path_has_atom(self@, *atom),
    {
        let mut index: usize = 0;
        while index < self.atoms.len()
            invariant
                0 <= index <= self.atoms@.len(),
                Atom::obeys_eq_spec() ==> forall|k: int|
                    0 <= k < index ==> !(#[trigger] self.atoms@[k]).eq_spec(atom),
            decreases self.atoms@.len() - index,
        {
            if self.atoms[index] == *atom {
                return true;
            }
            index = index + 1;
        }
        false
    }

    /// Returns true when this tag starts with `prefix`.
    pub fn starts_with(&self, prefix: &Tag<Atom>) -> (starts: bool)
        ensures
            Atom::obeys_eq_spec() ==> starts == path_starts_with(self@, prefix@),
    {
        if prefix.atoms.len() > self.atoms.len() {
            return false;
        }
        let mut index: usize = 0;
        while index < prefix.atoms.len()
            invariant
                prefix.atoms@.len() <= self.atoms@.len(),
                0 <= index <= prefix.atoms@.len(),
                Atom::obeys_eq_spec() ==> forall|k: int|
                    0 <= k < index ==> (#[trigger] self.atoms@[k]).eq_spec(&prefix.atoms@[k]),
            decreases prefix.atoms@.len() - index,
        {
            if !(self.atoms[index] == prefix.atoms[index]) {
                return false;
            }
            index = index + 1;
        }
        true
    }

    /// Returns true when every atom of `atoms` appears inside this one grouped path.
    pub fn has_all_atoms(&self, atoms: &[Atom]) -> (all: bool)
        ensures
            Atom::obeys_eq_spec() ==> all == path_has_all_atoms(self@, atoms@),
    {
        let mut index: usize = 0;
        while index < atoms.len()
            invariant
                0 <= index <= atoms@.len(),
                Atom::obeys_eq_spec() ==> forall|k: int|
                    0 <= k < index ==> path_has_atom(self@, #[trigger] atoms@[k]),
            decreases atoms@.len() - index,
        {
            if !self.has_atom(&atoms[index]) {
                return false;
            }
            index = index + 1;
        }
        true
    }

    /// Returns true when `other` is the same exact path.
    fn same_path_as(&self, other: &Tag<Atom>) -> (same: bool)
        ensures
            Atom::obeys_eq_spec() ==> same == same_path(self@, other@),
    {
        if self.atoms.len() != other.atoms.len() {
            return false;
        }
        let mut index: usize = 0;
        while index < self.atoms.len()
            invariant
                self.atoms@.len() == other.atoms@.len(),
                0 <= index <= self.atoms@.len(),
                Atom::obeys_eq_spec() ==> forall|k: int|
                    0 <= k < index ==> (#[trigger] self.atoms@[k]).eq_spec(&other.atoms@[k]),
            decreases self.atoms@.len() - index,
        {
            if !(self.atoms[index] == other.atoms[index]) {
                return false;
            }
            index = index + 1;
        }
        true
    }
}

/// Query over exact tag paths.
#[derive(Clone, Debug, Default, PartialEq, Eq)]
pub struct TagSetQuery<Atom> {
    pub all: Vec<Tag<Atom>>,
    pub any: Vec<Tag<Atom>>,
    pub none: Vec<Tag<Atom>>,
}

/// A collection of grouped tag paths.
#[derive(Clone, Debug, Default, PartialEq, Eq)]
pub struct TagSet<Atom> {
    items: Vec<Tag<Atom>>,
}

impl<Atom> TagSet<Atom> {
    /// The grouped paths of this set in insertion order.
    pub closed spec fn view(&self) -> Seq<Seq<Atom>> {
        tag_paths(self.items@)
    }

    /// Creates a tag set from grouped tag paths.
    pub fn new(items: Vec<Tag<Atom>>) -> (set: TagSet<Atom>)
        ensures
            set@ == tag_paths(items@),
    {
        TagSet { items }
    }

    /// Returns grouped tag paths in insertion order.
    pub fn items(&self) -> (items: &[Tag<Atom>])
        ensures
            tag_paths(items@) == self@,
    {
        self.items.as_slice()
    }
}

impl<Atom: PartialEq> TagSet<Atom> {
    /// Returns true when the exact tag path exists.
    pub fn has(&self, tag: &Tag<Atom>) -> (present: bool)
        ensures
            Atom::obeys_eq_spec() ==> present == paths_have(self@, tag@),
    {
        let mut index: usize = 0;
        while index < self.items.len()
            invariant
                0 <= index <= self.items@.len(),
                Atom::obeys_eq_spec() ==> forall|k: int|
                    0 <= k < index ==> !same_path(#[trigger] tag_paths(self.items@)[k], tag@),
            decreases self.items@.len() - index,
        {
            if self.items[index].same_path_as(tag) {
                assert(tag_paths(self.items@)[index as int] == self.items@[index as int]@);
                assert(self@[index as int] == self.items@[index as int]@);
                return true;
            }
            index = index + 1;
        }
        false
    }

    /// Returns true when any grouped path contains `atom`.
    pub fn has_atom(&self, atom: &Atom) -> (present: bool)
        ensures
            Atom::obeys_eq_spec() ==> present == exists|i: int|
                0 <= i < self@.len() && path_has_atom(#[trigger] self@[i], *atom),
    {
        let mut index: usize = 0;
        while index < self.items.len()
            invariant
                0 <= index <= self.items@.len(),
                Atom::obeys_eq_spec() ==> forall|k: int|
                    0 <= k < index ==> !path_has_atom(#[trigger] tag_paths(self.items@)[k], *atom),
            decreases self.items@.len() - index,
        {
            if self.items[index].has_atom(atom) {
                assert(tag_paths(self.items@)[index as int] == self.items@[index as int]@);
                assert(self@[index as int] == self.items@[index as int]@);
                return true;
            }
            index = index + 1;
        }
        false
    }

    /// Returns true when any grouped path starts with `prefix`.
    pub fn has_prefix(&self, prefix: &Tag<Atom>) -> (present: bool)
        ensures
            Atom::obeys_eq_spec() ==> present == exists|i: int|
                0 <= i < self@.len() && path_starts_with(#[trigger] self@[i], prefix@),
    {
        let mut index: usize = 0;
        while index < self.items.len()
            invariant
                0 <= index <= self.items@.len(),
                Atom::obeys_eq_spec() ==> forall|k: int|
                    0 <= k < index ==> !path_starts_with(
                        #[trigger] tag_paths(self.items@)[k],
                        prefix@,
                    ),
            decreases self.items@.len() - index,
        {
            if self.items[index].starts_with(prefix) {
                assert(tag_paths(self.items@)[index as int] == self.items@[index as int]@);
                assert(self@[index as int] == self.items@[index as int]@);
                return true;
            }
            index = index + 1;
        }
        false
    }

    /// Returns true when one grouped path contains all requested atoms.
    pub fn has_tag_with_all_atoms(&self, atoms: &[Atom]) -> (present: bool)
        ensures
            Atom::obeys_eq_spec() ==> present == exists|i: int|
                0 <= i < self@.len() && path_has_all_atoms(#[trigger] self@[i], atoms@),
    {
        let mut index: usize = 0;
        while index < self.items.len()
            invariant
                0 <= index <= self.items@.len(),
                Atom::obeys_eq_spec() ==> forall|k: int|
                    0 <= k < index ==> !path_has_all_atoms(
                        #[trigger] tag_paths(self.items@)[k],
                        atoms@,
                    ),
            decreases self.items@.len() - index,
        {
            if self.items[index].has_all_atoms(atoms) {
                assert(tag_paths(self.items@)[index as int] == self.items@[index as int]@);
                assert(self@[index as int] == self.items@[index as int]@);
                return true;
            }
            index = index + 1;
        }
        false
    }

    /// Returns true when some tag of `tags` is present (`want`) or absent (`!want`).
    fn any_tag_with_presence(&self, tags: &Vec<Tag<Atom>>, want: bool) -> (found: bool)
        ensures
            Atom::obeys_eq_spec() ==> found == exists|j: int|
                0 <= j < tags@.len() && paths_have(self@, #[trigger] tag_paths(tags@)[j])
                    == want,
    {
        let mut index: usize = 0;
        while index < tags.len()
            invariant
                0 <= index <= tags@.len(),
                Atom::obeys_eq_spec() ==> forall|k: int|
                    0 <= k < index ==> paths_have(self@, #[trigger] tag_paths(tags@)[k]) != want,
            decreases tags@.len() - index,
        {
            let present = self.has(&tags[index]);
            assert(tag_paths(tags@)[index as int] == tags@[index as int]@);
            if present == want {
                return true;
            }
            index = index + 1;
        }
        false
    }

    /// Evaluates an exact-path query.
    pub fn matches(&self, query: &TagSetQuery<Atom>) -> (matched: bool)
        ensures
            Atom::obeys_eq_spec() ==> matched == query_holds(
                self@,
                tag_paths(query.all@),
                tag_paths(query.any@),
                tag_paths(query.none@),
            ),
    {
        if self.any_tag_with_presence(&query.none, true) {
            return false;
        }
        if self.any_tag_with_presence(&query.all, false) {
            return false;
        }
        query.any.len() == 0 || self.any_tag_with_presence(&query.any, true)
    }
}

/// Common behavior needed by ability and active-effect stores.
pub trait TagCollection: Clone + Sized {
    type Tag: Clone;

    /// Whether `has_tag` answers according to `tag_model`.
    spec fn obeys_tag_model() -> bool;

    /// Whether this collection holds `tag`.
    spec fn tag_model(&self, tag: Self::Tag) -> bool;

    fn has_tag(&self, tag: &Self::Tag) -> (present: bool)
        ensures
            Self::obeys_tag_model() ==> present == self.tag_model(*tag),
    ;
}

impl<Atom: Clone + PartialEq> TagCollection for TagSet<Atom> {
    type Tag = Tag<Atom>;

    open spec fn obeys_tag_model() -> bool {
        Atom::obeys_eq_spec()
    }

    open spec fn tag_model(&self, tag: Tag<Atom>) -> bool {
        paths_have(self@, tag@)
    }

    fn has_tag(&self, tag: &Tag<Atom>) -> (present: bool) {
        self.has(tag)
    }
}

/// A query fails on every set that holds one of its `none` paths, on every set that misses
/// one of its `all` paths, and, when it lists `any` paths, on every set that holds none of
/// them. A query with no paths holds on every set, and a query that only excludes one path
/// holds exactly on the sets without it.
pub proof fn lemma_query_exclusions_and_requirements<Atom: PartialEq>(
    paths: Seq<Seq<Atom>>,
    all: Seq<Seq<Atom>>,
    any: Seq<Seq<Atom>>,
    none: Seq<Seq<Atom>>,
)
    ensures
        forall|i: int, j: int|
            0 <= i < paths.len() && 0 <= j < none.len() && same_path(#[trigger] paths[i], #[trigger] none[j])
                ==> !query_holds(paths, all, any, none),
        forall|j: int| 0 <= j < all.len() && !paths_have(paths, #[trigger] all[j]) ==> !query_holds(paths, all, any, none),
        any.len() > 0 && (forall|j: int| 0 <= j < any.len() ==> !paths_have(paths, #[trigger] any[j]))
            ==> !query_holds(paths, all, any, none),
        all.len() == 0 && any.len() == 0 && none.len() == 0 ==> query_holds(paths, all, any, none),
        forall|excluded: Seq<Atom>|
            #[trigger] query_holds(paths, Seq::empty(), Seq::empty(), seq![excluded]) <==> !paths_have(paths, excluded),
{
    assert forall|i: int, j: int|
        0 <= i < paths.len() && 0 <= j < none.len() && same_path(#[trigger] paths[i], #[trigger] none[j])
        implies !query_holds(paths, all, any, none) by {
        assert(paths_have(paths, none[j]));
    }
    assert forall|excluded: Seq<Atom>|
        #[trigger] query_holds(paths, Seq::empty(), Seq::empty(), seq![excluded]) <==> !paths_have(paths, excluded) by {
        assert(seq![excluded][0] == excluded);
    }
}

} // verus!
