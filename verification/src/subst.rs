//! Substitutions: finite maps from type-parameter names to types.
use vstd::prelude::*;

use crate::model::SpecType;
use crate::types::{Name, Type};

verus! {

/// One binding of a substitution.
#[derive(Clone, Debug, PartialEq, Eq)]
pub struct Binding {
    pub name: Name,
    pub ty: Type,
}

/// A map from names to types. A later binding of a name replaces an earlier
/// one.
#[derive(Clone, Debug, PartialEq, Eq)]
pub struct TypeMap {
    pub entries: Vec<Binding>,
}

/// The map that a list of bindings stands for.
pub open spec fn bindings_map(entries: Seq<Binding>) -> Map<Name, SpecType>
    decreases entries.len(),
{
    if entries.len() == 0 {
        Map::empty()
    } else {
        bindings_map(entries.drop_last()).insert(entries.last().name, entries.last().ty@)
    }
}

impl View for TypeMap {
    type V = Map<Name, SpecType>;

    open spec fn view(&self) -> Map<Name, SpecType> {
        bindings_map(self.entries@)
    }
}

/// What inference found: the bindings, and the parameters it could not
/// resolve.
#[derive(Clone, Debug, PartialEq, Eq)]
pub struct Inference {
    pub types: TypeMap,
    pub errored: Vec<Name>,
}

/// The model of [`Inference`].
pub struct SpecInference {
    pub types: Map<Name, SpecType>,
    pub errored: Seq<Name>,
}

impl View for Inference {
    type V = SpecInference;

    open spec fn view(&self) -> SpecInference {
        SpecInference { types: self.types@, errored: self.errored@ }
    }
}

impl TypeMap {
    /// The map that binds nothing.
    pub fn new() -> (r: TypeMap)
        ensures
            r@ == Map::<Name, SpecType>::empty(),
    {
        TypeMap { entries: Vec::new() }
    }

    /// Binds `name` to `ty`, replacing what it was bound to.
    pub fn insert(&mut self, name: Name, ty: Type)
        ensures
            final(self)@ == old(self)@.insert(name, ty@),
    {
        self.entries.push(Binding { name, ty });
        assert(self.entries@.drop_last() == old(self).entries@);
    }

    /// The type that `name` is bound to.
    pub fn get(&self, name: Name) -> (r: Option<&Type>)
        ensures
            match r {
                Some(t) => self@.contains_key(name) && self@[name] == t@,
                None => !self@.contains_key(name),
            },
    {
        let mut i: usize = self.entries.len();
        assert(self.entries@.subrange(0, i as int) == self.entries@);
        while i > 0
            invariant
                i <= self.entries.len(),
                forall|j: int| i <= j < self.entries.len() ==> self.entries[j].name != name,
                self@.contains_key(name) <==> bindings_map(
                    self.entries@.subrange(0, i as int),
                ).contains_key(name),
                self@.contains_key(name) ==> self@[name] == bindings_map(
                    self.entries@.subrange(0, i as int),
                )[name],
            decreases i,
        {
            let ghost prefix = self.entries@.subrange(0, i as int);
            assert(prefix.drop_last() == self.entries@.subrange(0, i - 1));
            assert(prefix.last() == self.entries[i - 1]);
            i -= 1;
            if self.entries[i].name == name {
                return Some(&self.entries[i].ty);
            }
        }
        assert(self.entries@.subrange(0, 0).len() == 0);
        None
    }

    /// Whether `name` is bound.
    pub fn contains_key(&self, name: Name) -> (r: bool)
        ensures
            r == self@.contains_key(name),
    {
        self.get(name).is_some()
    }
}

} // verus!
