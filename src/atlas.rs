//! Texture atlas assembly: textures are registered by name, then the atlas is
//! built once, giving each name the tile index of its registration order.
use vstd::prelude::*;

verus! {

#[derive(Clone, Copy, Debug, PartialEq, Eq, Structural)]
pub enum AtlasError {
    /// A texture of the same name was registered before.
    DuplicateName,
    /// The atlas was built with no texture registered.
    EmptyAtlas,
    /// The atlas was already built.
    AlreadyBuilt,
}

/// The names held by a vector of strings.
pub open spec fn names_of(v: Seq<String>) -> Seq<Seq<char>> {
    v.map_values(|s: String| s@)
}

/// No name occurs twice.
pub open spec fn distinct_names(names: Seq<Seq<char>>) -> bool {
    forall|i: int, j: int| 0 <= i < names.len() && 0 <= j < names.len() && i != j ==> names[i] != names[j]
}

/// Collects the named textures of an atlas, in registration order.
pub struct AtlasBuilder {
    names: Vec<String>,
    built: bool,
}

/// The name to tile index table of a built atlas.
#[derive(Debug)]
pub struct AtlasTable {
    names: Vec<String>,
}

impl AtlasBuilder {
    /// Names registered so far, in registration order.
    pub closed spec fn names(&self) -> Seq<Seq<char>> {
        names_of(self.names@)
    }

    /// Whether `build` has been called.
    pub closed spec fn is_built(&self) -> bool {
        self.built
    }

    pub open spec fn wf(&self) -> bool {
        distinct_names(self.names())
    }

    pub fn new() -> (r: AtlasBuilder)
        ensures
            r.wf(),
            r.names() == Seq::<Seq<char>>::empty(),
            !r.is_built(),
    {
        let r = AtlasBuilder { names: Vec::new(), built: false };
        assert(r.names() =~= Seq::<Seq<char>>::empty());
        r
    }

    /// Number of registered textures.
    pub fn len(&self) -> (r: usize)
        ensures
            r == self.names().len(),
    {
        self.names.len()
    }

    /// Registers the texture `name` as the next tile. Fails with
    /// `AlreadyBuilt` once the atlas is built, and with `DuplicateName` when
    /// the name is registered already; the builder is then unchanged.
    pub fn add(&mut self, name: String) -> (r: Result<(), AtlasError>)
        requires
            old(self).wf(),
        ensures
            final(self).wf(),
            final(self).is_built() == old(self).is_built(),
            old(self).is_built() ==> r == Err::<(), AtlasError>(AtlasError::AlreadyBuilt)
                && final(self).names() == old(self).names(),
            !old(self).is_built() && old(self).names().contains(name@) ==> r == Err::<(), AtlasError>(
                AtlasError::DuplicateName,
            ) && final(self).names() == old(self).names(),
            !old(self).is_built() && !old(self).names().contains(name@) ==> r == Ok::<(), AtlasError>(())
                && final(self).names() == old(self).names().push(name@),
    {
        if self.built {
            return Err(AtlasError::AlreadyBuilt);
        }
        let mut i: usize = 0;
        while i < self.names.len()
            invariant
                i <= self.names@.len(),
                *self == *old(self),
                self.wf(),
                !self.built,
                forall|j: int| 0 <= j < i ==> self.names()[j] != name@,
            decreases self.names@.len() - i,
        {
            if self.names[i] == name {
                assert(self.names()[i as int] == name@);
                return Err(AtlasError::DuplicateName);
            }
            i = i + 1;
        }
        assert(!self.names().contains(name@));
        self.names.push(name);
        assert(self.names() =~= old(self).names().push(name@));
        Ok(())
    }

    /// Builds the atlas table. A builder builds once: every later call fails
    /// with `AlreadyBuilt`. A first call with no texture registered fails with
    /// `EmptyAtlas`; otherwise the table maps the `i`-th registered name to `i`.
    pub fn build(&mut self) -> (r: Result<AtlasTable, AtlasError>)
        requires
            old(self).wf(),
        ensures
            final(self).wf(),
            final(self).is_built(),
            final(self).names() == old(self).names(),
            old(self).is_built() ==> r is Err && r->Err_0 == AtlasError::AlreadyBuilt,
            !old(self).is_built() && old(self).names().len() == 0 ==> r is Err && r->Err_0
                == AtlasError::EmptyAtlas,
            !old(self).is_built() && old(self).names().len() > 0 ==> r is Ok && r->Ok_0.wf()
                && r->Ok_0.names() == old(self).names(),
    {
        if self.built {
            return Err(AtlasError::AlreadyBuilt);
        }
        self.built = true;
        if self.names.len() == 0 {
            return Err(AtlasError::EmptyAtlas);
        }
        let names = self.names.clone();
        assert(names@ == self.names@);
        Ok(AtlasTable { names })
    }
}

impl AtlasTable {
    /// Registered names; the name at position `i` has tile index `i`.
    pub closed spec fn names(&self) -> Seq<Seq<char>> {
        names_of(self.names@)
    }

    /// Every table holds each name once.
    #[verifier::type_invariant]
    closed spec fn names_distinct(&self) -> bool {
        distinct_names(self.names())
    }

    pub open spec fn wf(&self) -> bool {
        distinct_names(self.names())
    }

    /// Number of tiles in the atlas.
    pub fn len(&self) -> (r: usize)
        ensures
            r == self.names().len(),
    {
        self.names.len()
    }

    /// The tile index of `name`, or `None` when no texture of that name was
    /// registered.
    pub fn index_of(&self, name: &String) -> (r: Option<usize>)
        ensures
            self.wf(),
            match r {
                Some(i) => i < self.names().len() && self.names()[i as int] == name@,
                None => !self.names().contains(name@),
            },
    {
        proof {
            use_type_invariant(self);
        }
        let mut i: usize = 0;
        while i < self.names.len()
            invariant
                i <= self.names@.len(),
                self.wf(),
                forall|j: int| 0 <= j < i ==> self.names()[j] != name@,
            decreases self.names@.len() - i,
        {
            if self.names[i] == *name {
                return Some(i);
            }
            i = i + 1;
        }
        None
    }
}

/// In a well-formed table a name has at most one tile index.
pub proof fn lemma_index_unique(t: &AtlasTable, i: int, j: int)
    requires
        t.wf(),
        0 <= i < t.names().len(),
        0 <= j < t.names().len(),
        t.names()[i] == t.names()[j],
    ensures
        i == j,
{
}

} // verus!
