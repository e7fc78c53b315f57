//! Single-channel luminance and luma.

use vstd::prelude::*;

use crate::alpha::{Alpha, PremultipliedAlpha};
use crate::color_type::{BaseColor, ColorType};
use crate::space::Spaces;

verus! {

/// A single-channel CIE luminance.
#[derive(Clone, Copy, Debug, Hash, PartialEq, Eq, PartialOrd, Ord, Structural)]
pub struct Luminance<ComponentTy> {
    /// CIE luminance.
    pub l: ComponentTy,
}

impl<T: Copy> ColorType for Luminance<T> {
    type ComponentTy = T;

    const SPACE: Spaces = Spaces::Luminance;

    const NUM_COMPONENTS: usize = 1;

    open spec fn components(&self) -> Seq<T> {
        seq![self.l]
    }

    open spec fn from_components(s: Seq<T>) -> Self {
        Luminance { l: s[0] }
    }

    proof fn lemma_components(c: Self) {
    }

    proof fn lemma_from_components(s: Seq<T>) {
        assert(Self::from_components(s).components() =~= s);
    }

    fn component(&self, i: usize) -> (r: &T) {
        &self.l
    }

    fn component_mut(&mut self, i: usize) -> (r: &mut T) {
        &mut self.l
    }
}

impl<T: Copy> BaseColor for Luminance<T> {
    proof fn lemma_space_components() {
    }
}

impl<T: Copy> From<[T; 1]> for Luminance<T> {
    fn from(a: [T; 1]) -> Luminance<T> {
        Luminance { l: a[0] }
    }
}

impl<T: Copy> vstd::std_specs::convert::FromSpecImpl<[T; 1]> for Luminance<T> {
    open spec fn obeys_from_spec() -> bool {
        true
    }

    open spec fn from_spec(a: [T; 1]) -> Luminance<T> {
        <Luminance<T> as ColorType>::from_components(a@)
    }
}

impl<T: Copy> Into<[T; 1]> for Luminance<T> {
    fn into(self) -> [T; 1] {
        [self.l]
    }
}

impl<T: Copy> vstd::std_specs::convert::IntoSpecImpl<[T; 1]> for Luminance<T> {
    open spec fn obeys_into_spec() -> bool {
        true
    }

    open spec fn into_spec(self) -> [T; 1] {
        [self.l]
    }
}

impl<T: Copy> From<Alpha<Luminance<T>>> for Luminance<T> {
    fn from(col_alpha: Alpha<Luminance<T>>) -> Luminance<T> {
        col_alpha.color
    }
}

impl<T: Copy> vstd::std_specs::convert::FromSpecImpl<Alpha<Luminance<T>>> for Luminance<T> {
    open spec fn obeys_from_spec() -> bool {
        true
    }

    open spec fn from_spec(col_alpha: Alpha<Luminance<T>>) -> Luminance<T> {
        col_alpha.color
    }
}

impl<T: Copy> From<[T; 2]> for Alpha<Luminance<T>> {
    fn from(a: [T; 2]) -> Alpha<Luminance<T>> {
        Alpha { color: Luminance { l: a[0] }, alpha: a[1] }
    }
}

impl<T: Copy> vstd::std_specs::convert::FromSpecImpl<[T; 2]> for Alpha<Luminance<T>> {
    open spec fn obeys_from_spec() -> bool {
        true
    }

    open spec fn from_spec(a: [T; 2]) -> Alpha<Luminance<T>> {
        <Alpha<Luminance<T>> as ColorType>::from_components(a@)
    }
}

impl<T: Copy> Into<[T; 2]> for Alpha<Luminance<T>> {
    fn into(self) -> [T; 2] {
        [self.color.l, self.alpha]
    }
}

impl<T: Copy> vstd::std_specs::convert::IntoSpecImpl<[T; 2]> for Alpha<Luminance<T>> {
    open spec fn obeys_into_spec() -> bool {
        true
    }

    open spec fn into_spec(self) -> [T; 2] {
        [self.color.l, self.alpha]
    }
}

impl<T: Copy> From<PremultipliedAlpha<Luminance<T>>> for Luminance<T> {
    fn from(col_alpha: PremultipliedAlpha<Luminance<T>>) -> Luminance<T> {
        col_alpha.color
    }
}

impl<T: Copy> vstd::std_specs::convert::FromSpecImpl<PremultipliedAlpha<Luminance<T>>> for Luminance<T> {
    open spec fn obeys_from_spec() -> bool {
        true
    }

    open spec fn from_spec(col_alpha: PremultipliedAlpha<Luminance<T>>) -> Luminance<T> {
        col_alpha.color
    }
}

impl<T: Copy> From<[T; 2]> for PremultipliedAlpha<Luminance<T>> {
    fn from(a: [T; 2]) -> PremultipliedAlpha<Luminance<T>> {
        PremultipliedAlpha { color: Luminance { l: a[0] }, alpha: a[1] }
    }
}

impl<T: Copy> vstd::std_specs::convert::FromSpecImpl<[T; 2]> for PremultipliedAlpha<Luminance<T>> {
    open spec fn obeys_from_spec() -> bool {
        true
    }

    open spec fn from_spec(a: [T; 2]) -> PremultipliedAlpha<Luminance<T>> {
        <PremultipliedAlpha<Luminance<T>> as ColorType>::from_components(a@)
    }
}

impl<T: Copy> Into<[T; 2]> for PremultipliedAlpha<Luminance<T>> {
    fn into(self) -> [T; 2] {
        [self.color.l, self.alpha]
    }
}

impl<T: Copy> vstd::std_specs::convert::IntoSpecImpl<[T; 2]> for PremultipliedAlpha<Luminance<T>> {
    open spec fn obeys_into_spec() -> bool {
        true
    }

    open spec fn into_spec(self) -> [T; 2] {
        [self.color.l, self.alpha]
    }
}

/// A single-channel CIE luma (non-linear transform from luminance).
#[derive(Clone, Copy, Debug, Hash, PartialEq, Eq, PartialOrd, Ord, Structural)]
pub struct Luma<ComponentTy> {
    /// CIE luma.
    pub l: ComponentTy,
}

impl<T: Copy> ColorType for Luma<T> {
    type ComponentTy = T;

    const SPACE: Spaces = Spaces::Luma;

    const NUM_COMPONENTS: usize = 1;

    open spec fn components(&self) -> Seq<T> {
        seq![self.l]
    }

    open spec fn from_components(s: Seq<T>) -> Self {
        Luma { l: s[0] }
    }

    proof fn lemma_components(c: Self) {
    }

    proof fn lemma_from_components(s: Seq<T>) {
        assert(Self::from_components(s).components() =~= s);
    }

    fn component(&self, i: usize) -> (r: &T) {
        &self.l
    }

    fn component_mut(&mut self, i: usize) -> (r: &mut T) {
        &mut self.l
    }
}

impl<T: Copy> BaseColor for Luma<T> {
    proof fn lemma_space_components() {
    }
}

impl<T: Copy> From<[T; 1]> for Luma<T> {
    fn from(a: [T; 1]) -> Luma<T> {
        Luma { l: a[0] }
    }
}

impl<T: Copy> vstd::std_specs::convert::FromSpecImpl<[T; 1]> for Luma<T> {
    open spec fn obeys_from_spec() -> bool {
        true
    }

    open spec fn from_spec(a: [T; 1]) -> Luma<T> {
        <Luma<T> as ColorType>::from_components(a@)
    }
}

impl<T: Copy> Into<[T; 1]> for Luma<T> {
    fn into(self) -> [T; 1] {
        [self.l]
    }
}

impl<T: Copy> vstd::std_specs::convert::IntoSpecImpl<[T; 1]> for Luma<T> {
    open spec fn obeys_into_spec() -> bool {
        true
    }

    open spec fn into_spec(self) -> [T; 1] {
        [self.l]
    }
}

impl<T: Copy> From<Alpha<Luma<T>>> for Luma<T> {
    fn from(col_alpha: Alpha<Luma<T>>) -> Luma<T> {
        col_alpha.color
    }
}

impl<T: Copy> vstd::std_specs::convert::FromSpecImpl<Alpha<Luma<T>>> for Luma<T> {
    open spec fn obeys_from_spec() -> bool {
        true
    }

    open spec fn from_spec(col_alpha: Alpha<Luma<T>>) -> Luma<T> {
        col_alpha.color
    }
}

impl<T: Copy> From<[T; 2]> for Alpha<Luma<T>> {
    fn from(a: [T; 2]) -> Alpha<Luma<T>> {
        Alpha { color: Luma { l: a[0] }, alpha: a[1] }
    }
}

impl<T: Copy> vstd::std_specs::convert::FromSpecImpl<[T; 2]> for Alpha<Luma<T>> {
    open spec fn obeys_from_spec() -> bool {
        true
    }

    open spec fn from_spec(a: [T; 2]) -> Alpha<Luma<T>> {
        <Alpha<Luma<T>> as ColorType>::from_components(a@)
    }
}

impl<T: Copy> Into<[T; 2]> for Alpha<Luma<T>> {
    fn into(self) -> [T; 2] {
        [self.color.l, self.alpha]
    }
}

impl<T: Copy> vstd::std_specs::convert::IntoSpecImpl<[T; 2]> for Alpha<Luma<T>> {
    open spec fn obeys_into_spec() -> bool {
        true
    }

    open spec fn into_spec(self) -> [T; 2] {
        [self.color.l, self.alpha]
    }
}

impl<T: Copy> From<PremultipliedAlpha<Luma<T>>> for Luma<T> {
    fn from(col_alpha: PremultipliedAlpha<Luma<T>>) -> Luma<T> {
        col_alpha.color
    }
}

impl<T: Copy> vstd::std_specs::convert::FromSpecImpl<PremultipliedAlpha<Luma<T>>> for Luma<T> {
    open spec fn obeys_from_spec() -> bool {
        true
    }

    open spec fn from_spec(col_alpha: PremultipliedAlpha<Luma<T>>) -> Luma<T> {
        col_alpha.color
    }
}

impl<T: Copy> From<[T; 2]> for PremultipliedAlpha<Luma<T>> {
    fn from(a: [T; 2]) -> PremultipliedAlpha<Luma<T>> {
        PremultipliedAlpha { color: Luma { l: a[0] }, alpha: a[1] }
    }
}

impl<T: Copy> vstd::std_specs::convert::FromSpecImpl<[T; 2]> for PremultipliedAlpha<Luma<T>> {
    open spec fn obeys_from_spec() -> bool {
        true
    }

    open spec fn from_spec(a: [T; 2]) -> PremultipliedAlpha<Luma<T>> {
        <PremultipliedAlpha<Luma<T>> as ColorType>::from_components(a@)
    }
}

impl<T: Copy> Into<[T; 2]> for PremultipliedAlpha<Luma<T>> {
    fn into(self) -> [T; 2] {
        [self.color.l, self.alpha]
    }
}

impl<T: Copy> vstd::std_specs::convert::IntoSpecImpl<[T; 2]> for PremultipliedAlpha<Luma<T>> {
    open spec fn obeys_into_spec() -> bool {
        true
    }

    open spec fn into_spec(self) -> [T; 2] {
        [self.color.l, self.alpha]
    }
}

} // verus!
