use vstd::prelude::*;

use crate::space::Spaces;

verus! {

/// A color value made of a fixed number of scalar components of one type, tagged with the
/// color space it belongs to.
///
/// The components of a value, in canonical order, are given by `components`; that order is
/// the order of the record's fields, followed by the alpha component where there is one.
pub trait ColorType: Sized {
    /// The scalar type of every component.
    type ComponentTy: Copy;

    /// The color space this type's values are expressed in.
    const SPACE: Spaces;

    /// How many scalar components a value holds, alpha included.
    const NUM_COMPONENTS: usize;

    /// The components of `self` in canonical order.
    spec fn components(&self) -> Seq<Self::ComponentTy>;

    /// The value whose components, in canonical order, are `s`.
    spec fn from_components(s: Seq<Self::ComponentTy>) -> Self;

    /// Every value has exactly `NUM_COMPONENTS` components, and is rebuilt from them unchanged.
    proof fn lemma_components(c: Self)
        ensures
            c.components().len() == Self::NUM_COMPONENTS,
            Self::from_components(c.components()) == c,
    ;

    /// Building a value from `NUM_COMPONENTS` scalars and reading its components back gives
    /// those scalars, in the same order.
    proof fn lemma_from_components(s: Seq<Self::ComponentTy>)
        requires
            s.len() == Self::NUM_COMPONENTS,
        ensures
            Self::from_components(s).components() == s,
    ;

    /// Borrows the component at position `i` in canonical order.
    fn component(&self, i: usize) -> (r: &Self::ComponentTy)
        requires
            i < self.components().len(),
        ensures
            *r == self.components()[i as int],
    ;

    /// Borrows the component at position `i` in canonical order for writing: what is written
    /// through the borrow becomes that component, and the others stay as they were.
    fn component_mut(&mut self, i: usize) -> (r: &mut Self::ComponentTy)
        requires
            i < old(self).components().len(),
        ensures
            *r == old(self).components()[i as int],
            final(self).components() == old(self).components().update(i as int, *final(r)),
    ;
}

/// A color record of one color space, without an alpha channel: its component count is the
/// one its space declares.
pub trait BaseColor: ColorType {
    /// The record's field count agrees with its space's component count.
    proof fn lemma_space_components()
        ensures
            Self::SPACE.spec_num_components() == Self::NUM_COMPONENTS,
    ;
}

/// Two values of one color type are equal exactly when their components are equal, in order.
pub proof fn lemma_eq_iff_components<C: ColorType>(a: C, b: C)
    ensures
        a == b <==> a.components() == b.components(),
{
    C::lemma_components(a);
    C::lemma_components(b);
}

/// Changing any one component of a value to a different scalar gives a value that is not
/// equal to the first.
pub proof fn lemma_changed_component_differs<C: ColorType>(c: C, i: int, v: C::ComponentTy)
    requires
        0 <= i < C::NUM_COMPONENTS,
        v != c.components()[i],
    ensures
        C::from_components(c.components().update(i, v)) != c,
        C::from_components(c.components().update(i, v)).components() == c.components().update(
            i,
            v,
        ),
{
    C::lemma_components(c);
    C::lemma_from_components(c.components().update(i, v));
}

/// The color space of a record declares as many components as the record has fields.
pub proof fn lemma_base_space_components<C: BaseColor>(c: C)
    ensures
        C::SPACE.spec_num_components() == C::NUM_COMPONENTS,
        c.components().len() == C::SPACE.spec_num_components(),
{
    C::lemma_space_components();
    C::lemma_components(c);
}

} // verus!
