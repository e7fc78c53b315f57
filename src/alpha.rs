use vstd::prelude::*;

use crate::color_type::{BaseColor, ColorType};
use crate::space::Spaces;

verus! {

/// A color with an alpha component.
///
/// The color components and the alpha component are completely separate. In canonical
/// order the alpha component comes last, after the color's own components.
#[derive(Clone, Copy, Debug, Hash, PartialEq, Eq)]
pub struct Alpha<ColorTy: ColorType> {
    /// The contained color, which is completely separate from the `alpha` value.
    pub color: ColorTy,
    /// The alpha component.
    pub alpha: ColorTy::ComponentTy,
}

/// A premultiplied color with an alpha component.
///
/// The color components are meant to have been multiplied by the alpha component already.
/// That is the caller's promise: nothing here checks it or scales anything. In canonical
/// order the alpha component comes last, after the color's own components.
#[derive(Clone, Copy, Debug, Hash, PartialEq, Eq)]
pub struct PremultipliedAlpha<ColorTy: ColorType> {
    /// The contained color, which has been premultiplied with `alpha`.
    pub color: ColorTy,
    /// The alpha component.
    pub alpha: ColorTy::ComponentTy,
}

impl<C: BaseColor> ColorType for Alpha<C> {
    type ComponentTy = C::ComponentTy;

    const SPACE: Spaces = C::SPACE;

    const NUM_COMPONENTS: usize = C::NUM_COMPONENTS + 1;

    open spec fn components(&self) -> Seq<C::ComponentTy> {
        self.color.components().push(self.alpha)
    }

    open spec fn from_components(s: Seq<C::ComponentTy>) -> Self {
        Alpha { color: C::from_components(s.drop_last()), alpha: s.last() }
    }

    proof fn lemma_components(c: Self) {
        C::lemma_space_components();
        C::lemma_components(c.color);
        assert(c.components().drop_last() =~= c.color.components());
    }

    proof fn lemma_from_components(s: Seq<C::ComponentTy>) {
        C::lemma_space_components();
        C::lemma_from_components(s.drop_last());
        assert(Self::from_components(s).components() =~= s);
    }

    fn component(&self, i: usize) -> (r: &C::ComponentTy) {
        proof {
            C::lemma_space_components();
            C::lemma_components(self.color);
        }
        if i < C::NUM_COMPONENTS {
            self.color.component(i)
        } else {
            &self.alpha
        }
    }

    fn component_mut(&mut self, i: usize) -> (r: &mut C::ComponentTy) {
        proof {
            C::lemma_space_components();
            C::lemma_components(self.color);
        }
        if i < C::NUM_COMPONENTS {
            self.color.component_mut(i)
        } else {
            &mut self.alpha
        }
    }
}

impl<C: BaseColor> ColorType for PremultipliedAlpha<C> {
    type ComponentTy = C::ComponentTy;

    const SPACE: Spaces = C::SPACE;

    const NUM_COMPONENTS: usize = C::NUM_COMPONENTS + 1;

    open spec fn components(&self) -> Seq<C::ComponentTy> {
        self.color.components().push(self.alpha)
    }

    open spec fn from_components(s: Seq<C::ComponentTy>) -> Self {
        PremultipliedAlpha { color: C::from_components(s.drop_last()), alpha: s.last() }
    }

    proof fn lemma_components(c: Self) {
        C::lemma_space_components();
        C::lemma_components(c.color);
        assert(c.components().drop_last() =~= c.color.components());
    }

    proof fn lemma_from_components(s: Seq<C::ComponentTy>) {
        C::lemma_space_components();
        C::lemma_from_components(s.drop_last());
        assert(Self::from_components(s).components() =~= s);
    }

    fn component(&self, i: usize) -> (r: &C::ComponentTy) {
        proof {
            C::lemma_space_components();
            C::lemma_components(self.color);
        }
        if i < C::NUM_COMPONENTS {
            self.color.component(i)
        } else {
            &self.alpha
        }
    }

    fn component_mut(&mut self, i: usize) -> (r: &mut C::ComponentTy) {
        proof {
            C::lemma_space_components();
            C::lemma_components(self.color);
        }
        if i < C::NUM_COMPONENTS {
            self.color.component_mut(i)
        } else {
            &mut self.alpha
        }
    }
}

/// Building a color with alpha from one scalar more than its color has components, and
/// reading its components back, gives those scalars in the same order; the last one is the
/// alpha component and the others are the color's, in order.
pub proof fn lemma_alpha_round_trip<C: BaseColor>(s: Seq<C::ComponentTy>)
    requires
        s.len() == C::NUM_COMPONENTS + 1,
    ensures
        Alpha::<C>::from_components(s).components() == s,
        Alpha::<C>::from_components(s).alpha == s.last(),
        Alpha::<C>::from_components(s).color.components() == s.drop_last(),
{
    C::lemma_space_components();
    C::lemma_from_components(s.drop_last());
    Alpha::<C>::lemma_from_components(s);
}

/// A color with alpha is rebuilt unchanged from its components, of which the alpha component
/// is the last.
pub proof fn lemma_alpha_components<C: BaseColor>(c: Alpha<C>)
    ensures
        Alpha::<C>::from_components(c.components()) == c,
        c.components().len() == C::NUM_COMPONENTS + 1,
        c.components().last() == c.alpha,
{
    C::lemma_space_components();
    Alpha::<C>::lemma_components(c);
}

/// Building a premultiplied color from one scalar more than its color has components, and
/// reading its components back, gives those scalars in the same order; the last one is the
/// alpha component and the others are the color's, in order.
pub proof fn lemma_premultiplied_round_trip<C: BaseColor>(s: Seq<C::ComponentTy>)
    requires
        s.len() == C::NUM_COMPONENTS + 1,
    ensures
        PremultipliedAlpha::<C>::from_components(s).components() == s,
        PremultipliedAlpha::<C>::from_components(s).alpha == s.last(),
        PremultipliedAlpha::<C>::from_components(s).color.components() == s.drop_last(),
{
    C::lemma_space_components();
    C::lemma_from_components(s.drop_last());
    PremultipliedAlpha::<C>::lemma_from_components(s);
}

/// A premultiplied color is rebuilt unchanged from its components, of which the alpha
/// component is the last.
pub proof fn lemma_premultiplied_components<C: BaseColor>(c: PremultipliedAlpha<C>)
    ensures
        PremultipliedAlpha::<C>::from_components(c.components()) == c,
        c.components().len() == C::NUM_COMPONENTS + 1,
        c.components().last() == c.alpha,
{
    C::lemma_space_components();
    PremultipliedAlpha::<C>::lemma_components(c);
}

/// Adding an alpha channel keeps the color space and adds one component to the count that
/// the space declares.
pub proof fn lemma_alpha_space<C: BaseColor>()
    ensures
        Alpha::<C>::SPACE == C::SPACE,
        Alpha::<C>::NUM_COMPONENTS == C::SPACE.spec_num_components() + 1,
        PremultipliedAlpha::<C>::SPACE == C::SPACE,
        PremultipliedAlpha::<C>::NUM_COMPONENTS == C::SPACE.spec_num_components() + 1,
{
    C::lemma_space_components();
}

} // verus!
