//! The declarations that references are resolved against.
use vstd::prelude::*;

use crate::model::SpecType;
use crate::types::{Name, Type};

verus! {

/// A named type of the program or of the built-in library.
#[derive(Clone, Debug, PartialEq, Eq)]
pub struct Decl {
    pub name: Name,
    /// Whether the name was declared as a type alias.
    pub is_alias: bool,
    pub ty: Type,
}

/// The model of [`Decl`].
pub struct SpecDecl {
    pub name: Name,
    pub is_alias: bool,
    pub ty: SpecType,
}

impl View for Decl {
    type V = SpecDecl;

    open spec fn view(&self) -> SpecDecl {
        SpecDecl { name: self.name, is_alias: self.is_alias, ty: self.ty@ }
    }
}

/// The type environment of one resolution.
#[derive(Clone, Debug, PartialEq, Eq)]
pub struct TypeEnv {
    /// The declarations; of two with one name the first counts.
    pub decls: Vec<Decl>,
    /// How many references, parents or super classes may be followed in a
    /// row.
    pub depth_limit: usize,
    /// Whether calling a plain function with `new` is an error.
    pub no_implicit_any: bool,
}

/// The model of [`TypeEnv`].
pub struct SpecEnv {
    pub decls: Seq<SpecDecl>,
    pub depth_limit: nat,
    pub no_implicit_any: bool,
}

impl View for TypeEnv {
    type V = SpecEnv;

    open spec fn view(&self) -> SpecEnv {
        SpecEnv {
            decls: Seq::new(self.decls.len() as nat, |i: int| self.decls[i]@),
            depth_limit: self.depth_limit as nat,
            no_implicit_any: self.no_implicit_any,
        }
    }
}

/// The first declaration of `name` at or after position `from`.
pub open spec fn lookup_from(decls: Seq<SpecDecl>, name: Name, from: nat) -> Option<SpecDecl>
    decreases decls.len() - from,
{
    if from >= decls.len() {
        None
    } else if decls[from as int].name == name {
        Some(decls[from as int])
    } else {
        lookup_from(decls, name, from + 1)
    }
}

impl SpecEnv {
    /// The declaration of `name`.
    pub open spec fn lookup(self, name: Name) -> Option<SpecDecl> {
        lookup_from(self.decls, name, 0)
    }

    /// The type that `name` stands for.
    pub open spec fn type_of(self, name: Name) -> Option<SpecType> {
        match self.lookup(name) {
            Some(d) => Some(d.ty),
            None => None,
        }
    }

    /// The type with the references at its top followed, at most `fuel` of
    /// them. A reference to an undeclared name stays.
    pub open spec fn resolve(self, ty: SpecType, fuel: nat) -> SpecType
        decreases fuel,
    {
        match ty {
            SpecType::Ref { name, .. } => match self.type_of(name) {
                Some(t) => if fuel == 0 {
                    ty
                } else {
                    self.resolve(t, (fuel - 1) as nat)
                },
                None => ty,
            },
            _ => ty,
        }
    }

    /// The structural form of a type: its references followed as far as the
    /// environment allows.
    pub open spec fn normal(self, ty: SpecType) -> SpecType {
        self.resolve(ty, self.depth_limit)
    }
}

impl TypeEnv {
    /// The declaration of `name`.
    pub fn find(&self, name: Name) -> (r: Option<&Decl>)
        ensures
            match r {
                Some(d) => self@.lookup(name) == Some(d@),
                None => self@.lookup(name).is_none(),
            },
    {
        let mut i: usize = 0;
        while i < self.decls.len()
            invariant
                i <= self.decls.len(),
                self@.lookup(name) == lookup_from(self@.decls, name, i as nat),
            decreases self.decls.len() - i,
        {
            if self.decls[i].name == name {
                return Some(&self.decls[i]);
            }
            i += 1;
        }
        None
    }

    /// The type that `name` stands for.
    pub fn find_type(&self, name: Name) -> (r: Option<&Type>)
        ensures
            match r {
                Some(t) => self@.type_of(name) == Some(t@),
                None => self@.type_of(name).is_none(),
            },
    {
        match self.find(name) {
            Some(d) => Some(&d.ty),
            None => None,
        }
    }

    /// Follows the references at the top of a type, at most `fuel` of them.
    fn resolve<'a>(&'a self, ty: &'a Type, fuel: usize) -> (r: &'a Type)
        ensures
            r@ == self@.resolve(ty@, fuel as nat),
        decreases fuel,
    {
        match ty {
            Type::Ref { name, .. } => match self.find_type(*name) {
                Some(t) => if fuel == 0 {
                    ty
                } else {
                    self.resolve(t, fuel - 1)
                },
                None => ty,
            },
            _ => ty,
        }
    }

    /// The structural form of a type.
    pub fn normalize<'a>(&'a self, ty: &'a Type) -> (r: &'a Type)
        ensures
            r@ == self@.normal(ty@),
    {
        self.resolve(ty, self.depth_limit)
    }
}

} // verus!
