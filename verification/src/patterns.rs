//! The identifiers that a binding pattern binds.
use vstd::prelude::*;

use crate::model::{opt_pat_model, opt_pats_model, pats_model, SpecPat};
use crate::types::{Name, Pat};

verus! {

/// The identifiers of the first `n` elements of an array pattern, in order.
pub open spec fn ids_in_elems(elems: Seq<Option<SpecPat>>, n: nat) -> Seq<Name>
    decreases elems, n,
{
    if n == 0 || n > elems.len() {
        Seq::empty()
    } else {
        ids_in_elems(elems, (n - 1) as nat) + match elems[n - 1] {
            Some(p) => ids_in(p),
            None => Seq::empty(),
        }
    }
}

/// The identifiers of the first `n` properties of an object pattern, in
/// order.
pub open spec fn ids_in_props(props: Seq<SpecPat>, n: nat) -> Seq<Name>
    decreases props, n,
{
    if n == 0 || n > props.len() {
        Seq::empty()
    } else {
        ids_in_props(props, (n - 1) as nat) + ids_in(props[n - 1])
    }
}

/// The identifiers that the pattern binds, in the order in which they are
/// written. Default values and expressions bind nothing.
pub open spec fn ids_in(pat: SpecPat) -> Seq<Name>
    decreases pat, 0nat,
{
    match pat {
        SpecPat::Ident { name, .. } => seq![name],
        SpecPat::Array { elems, .. } => ids_in_elems(elems, elems.len()),
        SpecPat::Object { props, .. } => ids_in_props(props, props.len()),
        SpecPat::Rest { arg, .. } => ids_in(*arg),
        SpecPat::Assign { left } => ids_in(*left),
        SpecPat::Invalid | SpecPat::Expr => Seq::empty(),
    }
}

/// Collects the identifiers that patterns bind.
#[derive(Clone, Debug, PartialEq, Eq)]
pub struct DestructuringFinder {
    pub found: Vec<Name>,
}

impl DestructuringFinder {
    /// A finder that has found nothing yet.
    pub fn new() -> (r: DestructuringFinder)
        ensures
            r.found@ == Seq::<Name>::empty(),
    {
        DestructuringFinder { found: Vec::new() }
    }

    /// Adds the identifiers of the first `n` elements of an array pattern.
    fn visit_elems(&mut self, elems: &Vec<Option<Pat>>, n: usize)
        ensures
            final(self).found@ == old(self).found@ + ids_in_elems(opt_pats_model(*elems), n as nat),
        decreases elems, n,
    {
        if n == 0 || n > elems.len() {
            assert(self.found@ + Seq::<Name>::empty() =~= self.found@);
        } else {
            let ghost start = self.found@;
            let ghost em = opt_pats_model(*elems);
            self.visit_elems(elems, n - 1);
            assert(em[n - 1] == opt_pat_model(elems[n - 1]));
            match &elems[n - 1] {
                Some(p) => {
                    self.visit(p);
                },
                None => {
                    assert(self.found@ + Seq::<Name>::empty() =~= self.found@);
                },
            }
            assert(self.found@ =~= start + ids_in_elems(em, n as nat));
        }
    }

    /// Adds the identifiers of the first `n` properties of an object pattern.
    fn visit_props(&mut self, props: &Vec<Pat>, n: usize)
        ensures
            final(self).found@ == old(self).found@ + ids_in_props(pats_model(*props), n as nat),
        decreases props, n,
    {
        if n == 0 || n > props.len() {
            assert(self.found@ + Seq::<Name>::empty() =~= self.found@);
        } else {
            let ghost start = self.found@;
            let ghost pm = pats_model(*props);
            self.visit_props(props, n - 1);
            assert(pm[n - 1] == props[n - 1]@);
            self.visit(&props[n - 1]);
            assert(self.found@ =~= start + ids_in_props(pm, n as nat));
        }
    }

    /// Adds the identifiers that `pat` binds.
    pub fn visit(&mut self, pat: &Pat)
        ensures
            final(self).found@ == old(self).found@ + ids_in(pat@),
        decreases pat, 0nat,
    {
        match pat {
            Pat::Ident { name, .. } => {
                let ghost start = self.found@;
                self.found.push(*name);
                assert(self.found@ =~= start + seq![*name]);
            },
            Pat::Array { elems, .. } => {
                self.visit_elems(elems, elems.len());
            },
            Pat::Object { props, .. } => {
                self.visit_props(props, props.len());
            },
            Pat::Rest { arg, .. } => {
                self.visit(arg);
            },
            Pat::Assign { left } => {
                self.visit(left);
            },
            Pat::Invalid | Pat::Expr => {
                assert(self.found@ + Seq::<Name>::empty() =~= self.found@);
            },
        }
    }
}

/// Finds the identifiers that the pattern binds, in the order in which they
/// are written.
pub fn find_ids_in_pat(pat: &Pat) -> (found: Vec<Name>)
    ensures
        found@ == ids_in(pat@),
{
    let mut finder = DestructuringFinder::new();
    finder.visit(pat);
    assert(Seq::<Name>::empty() + ids_in(pat@) =~= ids_in(pat@));
    finder.found
}

} // verus!
