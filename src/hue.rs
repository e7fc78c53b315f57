//! Colors in the hue-based HSL and HSV spaces.

use vstd::prelude::*;

use crate::alpha::{Alpha, PremultipliedAlpha};
use crate::color_type::{BaseColor, ColorType};
use crate::space::Spaces;

verus! {

/// A color in the HSL color space.
///
/// Since HSL is a relative color space, it is required to know the RGB space which
/// it was transformed from. We define this as the linear sRGB space, as that is
/// the most common case.
#[derive(Clone, Copy, Debug, Hash, PartialEq, Eq, PartialOrd, Ord, Structural)]
pub struct Hsl<ComponentTy> {
    /// The H (hue) component. Varies from 0 to 1.
    pub h: ComponentTy,
    /// The S (saturation) component. Varies from 0 to 1.
    pub s: ComponentTy,
    /// The L (lightness) component. Varies from 0 to 1.
    pub l: ComponentTy,
}

impl<T: Copy> ColorType for Hsl<T> {
    type ComponentTy = T;

    const SPACE: Spaces = Spaces::Hsl;

    const NUM_COMPONENTS: usize = 3;

    open spec fn components(&self) -> Seq<T> {
        seq![self.h, self.s, self.l]
    }

    open spec fn from_components(s: Seq<T>) -> Self {
        Hsl { h: s[0], s: s[1], l: s[2] }
    }

    proof fn lemma_components(c: Self) {
    }

    proof fn lemma_from_components(s: Seq<T>) {
        assert(Self::from_components(s).components() =~= s);
    }

    fn component(&self, i: usize) -> (r: &T) {
        if i == 0 {
            &self.h
        } else if i == 1 {
            &self.s
        } else {
            &self.l
        }
    }

    fn component_mut(&mut self, i: usize) -> (r: &mut T) {
        if i == 0 {
            &mut self.h
        } else if i == 1 {
            &mut self.s
        } else {
            &mut self.l
        }
    }
}

impl<T: Copy> BaseColor for Hsl<T> {
    proof fn lemma_space_components() {
    }
}

impl<T: Copy> From<[T; 3]> for Hsl<T> {
    fn from(a: [T; 3]) -> Hsl<T> {
        Hsl { h: a[0], s: a[1], l: a[2] }
    }
}

impl<T: Copy> vstd::std_specs::convert::FromSpecImpl<[T; 3]> for Hsl<T> {
    open spec fn obeys_from_spec() -> bool {
        true
    }

    open spec fn from_spec(a: [T; 3]) -> Hsl<T> {
        <Hsl<T> as ColorType>::from_components(a@)
    }
}

impl<T: Copy> Into<[T; 3]> for Hsl<T> {
    fn into(self) -> [T; 3] {
        [self.h, self.s, self.l]
    }
}

impl<T: Copy> vstd::std_specs::convert::IntoSpecImpl<[T; 3]> for Hsl<T> {
    open spec fn obeys_into_spec() -> bool {
        true
    }

    open spec fn into_spec(self) -> [T; 3] {
        [self.h, self.s, self.l]
    }
}

impl<T: Copy> From<Alpha<Hsl<T>>> for Hsl<T> {
    fn from(col_alpha: Alpha<Hsl<T>>) -> Hsl<T> {
        col_alpha.color
    }
}

impl<T: Copy> vstd::std_specs::convert::FromSpecImpl<Alpha<Hsl<T>>> for Hsl<T> {
    open spec fn obeys_from_spec() -> bool {
        true
    }

    open spec fn from_spec(col_alpha: Alpha<Hsl<T>>) -> Hsl<T> {
        col_alpha.color
    }
}

impl<T: Copy> From<[T; 4]> for Alpha<Hsl<T>> {
    fn from(a: [T; 4]) -> Alpha<Hsl<T>> {
        Alpha { color: Hsl { h: a[0], s: a[1], l: a[2] }, alpha: a[3] }
    }
}

impl<T: Copy> vstd::std_specs::convert::FromSpecImpl<[T; 4]> for Alpha<Hsl<T>> {
    open spec fn obeys_from_spec() -> bool {
        true
    }

    open spec fn from_spec(a: [T; 4]) -> Alpha<Hsl<T>> {
        <Alpha<Hsl<T>> as ColorType>::from_components(a@)
    }
}

impl<T: Copy> Into<[T; 4]> for Alpha<Hsl<T>> {
    fn into(self) -> [T; 4] {
        [self.color.h, self.color.s, self.color.l, self.alpha]
    }
}

impl<T: Copy> vstd::std_specs::convert::IntoSpecImpl<[T; 4]> for Alpha<Hsl<T>> {
    open spec fn obeys_into_spec() -> bool {
        true
    }

    open spec fn into_spec(self) -> [T; 4] {
        [self.color.h, self.color.s, self.color.l, self.alpha]
    }
}

impl<T: Copy> From<PremultipliedAlpha<Hsl<T>>> for Hsl<T> {
    fn from(col_alpha: PremultipliedAlpha<Hsl<T>>) -> Hsl<T> {
        col_alpha.color
    }
}

impl<T: Copy> vstd::std_specs::convert::FromSpecImpl<PremultipliedAlpha<Hsl<T>>> for Hsl<T> {
    open spec fn obeys_from_spec() -> bool {
        true
    }

    open spec fn from_spec(col_alpha: PremultipliedAlpha<Hsl<T>>) -> Hsl<T> {
        col_alpha.color
    }
}

impl<T: Copy> From<[T; 4]> for PremultipliedAlpha<Hsl<T>> {
    fn from(a: [T; 4]) -> PremultipliedAlpha<Hsl<T>> {
        PremultipliedAlpha { color: Hsl { h: a[0], s: a[1], l: a[2] }, alpha: a[3] }
    }
}

impl<T: Copy> vstd::std_specs::convert::FromSpecImpl<[T; 4]> for PremultipliedAlpha<Hsl<T>> {
    open spec fn obeys_from_spec() -> bool {
        true
    }

    open spec fn from_spec(a: [T; 4]) -> PremultipliedAlpha<Hsl<T>> {
        <PremultipliedAlpha<Hsl<T>> as ColorType>::from_components(a@)
    }
}

impl<T: Copy> Into<[T; 4]> for PremultipliedAlpha<Hsl<T>> {
    fn into(self) -> [T; 4] {
        [self.color.h, self.color.s, self.color.l, self.alpha]
    }
}

impl<T: Copy> vstd::std_specs::convert::IntoSpecImpl<[T; 4]> for PremultipliedAlpha<Hsl<T>> {
    open spec fn obeys_into_spec() -> bool {
        true
    }

    open spec fn into_spec(self) -> [T; 4] {
        [self.color.h, self.color.s, self.color.l, self.alpha]
    }
}

/// A color in the HSV color space.
///
/// Since HSV is a relative color space, it is required to know the RGB space which
/// it was transformed from. We define this as the linear sRGB space, as that is
/// the most common case.
#[derive(Clone, Copy, Debug, Hash, PartialEq, Eq, PartialOrd, Ord, Structural)]
pub struct Hsv<ComponentTy> {
    /// The H (hue) component. Varies from 0 to 1.
    pub h: ComponentTy,
    /// The S (saturation) component. Varies from 0 to 1.
    pub s: ComponentTy,
    /// The V (value) component. Varies from 0 to 1.
    pub v: ComponentTy,
}

impl<T: Copy> ColorType for Hsv<T> {
    type ComponentTy = T;

    const SPACE: Spaces = Spaces::Hsv;

    const NUM_COMPONENTS: usize = 3;

    open spec fn components(&self) -> Seq<T> {
        seq![self.h, self.s, self.v]
    }

    open spec fn from_components(s: Seq<T>) -> Self {
        Hsv { h: s[0], s: s[1], v: s[2] }
    }

    proof fn lemma_components(c: Self) {
    }

    proof fn lemma_from_components(s: Seq<T>) {
        assert(Self::from_components(s).components() =~= s);
    }

    fn component(&self, i: usize) -> (r: &T) {
        if i == 0 {
            &self.h
        } else if i == 1 {
            &self.s
        } else {
            &self.v
        }
    }

    fn component_mut(&mut self, i: usize) -> (r: &mut T) {
        if i == 0 {
            &mut self.h
        } else if i == 1 {
            &mut self.s
        } else {
            &mut self.v
        }
    }
}

impl<T: Copy> BaseColor for Hsv<T> {
    proof fn lemma_space_components() {
    }
}

impl<T: Copy> From<[T; 3]> for Hsv<T> {
    fn from(a: [T; 3]) -> Hsv<T> {
        Hsv { h: a[0], s: a[1], v: a[2] }
    }
}

impl<T: Copy> vstd::std_specs::convert::FromSpecImpl<[T; 3]> for Hsv<T> {
    open spec fn obeys_from_spec() -> bool {
        true
    }

    open spec fn from_spec(a: [T; 3]) -> Hsv<T> {
        <Hsv<T> as ColorType>::from_components(a@)
    }
}

impl<T: Copy> Into<[T; 3]> for Hsv<T> {
    fn into(self) -> [T; 3] {
        [self.h, self.s, self.v]
    }
}

impl<T: Copy> vstd::std_specs::convert::IntoSpecImpl<[T; 3]> for Hsv<T> {
    open spec fn obeys_into_spec() -> bool {
        true
    }

    open spec fn into_spec(self) -> [T; 3] {
        [self.h, self.s, self.v]
    }
}

impl<T: Copy> From<Alpha<Hsv<T>>> for Hsv<T> {
    fn from(col_alpha: Alpha<Hsv<T>>) -> Hsv<T> {
        col_alpha.color
    }
}

impl<T: Copy> vstd::std_specs::convert::FromSpecImpl<Alpha<Hsv<T>>> for Hsv<T> {
    open spec fn obeys_from_spec() -> bool {
        true
    }

    open spec fn from_spec(col_alpha: Alpha<Hsv<T>>) -> Hsv<T> {
        col_alpha.color
    }
}

impl<T: Copy> From<[T; 4]> for Alpha<Hsv<T>> {
    fn from(a: [T; 4]) -> Alpha<Hsv<T>> {
        Alpha { color: Hsv { h: a[0], s: a[1], v: a[2] }, alpha: a[3] }
    }
}

impl<T: Copy> vstd::std_specs::convert::FromSpecImpl<[T; 4]> for Alpha<Hsv<T>> {
    open spec fn obeys_from_spec() -> bool {
        true
    }

    open spec fn from_spec(a: [T; 4]) -> Alpha<Hsv<T>> {
        <Alpha<Hsv<T>> as ColorType>::from_components(a@)
    }
}

impl<T: Copy> Into<[T; 4]> for Alpha<Hsv<T>> {
    fn into(self) -> [T; 4] {
        [self.color.h, self.color.s, self.color.v, self.alpha]
    }
}

impl<T: Copy> vstd::std_specs::convert::IntoSpecImpl<[T; 4]> for Alpha<Hsv<T>> {
    open spec fn obeys_into_spec() -> bool {
        true
    }

    open spec fn into_spec(self) -> [T; 4] {
        [self.color.h, self.color.s, self.color.v, self.alpha]
    }
}

impl<T: Copy> From<PremultipliedAlpha<Hsv<T>>> for Hsv<T> {
    fn from(col_alpha: PremultipliedAlpha<Hsv<T>>) -> Hsv<T> {
        col_alpha.color
    }
}

impl<T: Copy> vstd::std_specs::convert::FromSpecImpl<PremultipliedAlpha<Hsv<T>>> for Hsv<T> {
    open spec fn obeys_from_spec() -> bool {
        true
    }

    open spec fn from_spec(col_alpha: PremultipliedAlpha<Hsv<T>>) -> Hsv<T> {
        col_alpha.color
    }
}

impl<T: Copy> From<[T; 4]> for PremultipliedAlpha<Hsv<T>> {
    fn from(a: [T; 4]) -> PremultipliedAlpha<Hsv<T>> {
        PremultipliedAlpha { color: Hsv { h: a[0], s: a[1], v: a[2] }, alpha: a[3] }
    }
}

impl<T: Copy> vstd::std_specs::convert::FromSpecImpl<[T; 4]> for PremultipliedAlpha<Hsv<T>> {
    open spec fn obeys_from_spec() -> bool {
        true
    }

    open spec fn from_spec(a: [T; 4]) -> PremultipliedAlpha<Hsv<T>> {
        <PremultipliedAlpha<Hsv<T>> as ColorType>::from_components(a@)
    }
}

impl<T: Copy> Into<[T; 4]> for PremultipliedAlpha<Hsv<T>> {
    fn into(self) -> [T; 4] {
        [self.color.h, self.color.s, self.color.v, self.alpha]
    }
}

impl<T: Copy> vstd::std_specs::convert::IntoSpecImpl<[T; 4]> for PremultipliedAlpha<Hsv<T>> {
    open spec fn obeys_into_spec() -> bool {
        true
    }

    open spec fn into_spec(self) -> [T; 4] {
        [self.color.h, self.color.s, self.color.v, self.alpha]
    }
}

} // verus!
