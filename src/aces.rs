//! Colors in the ACES color spaces.

use vstd::prelude::*;

use crate::alpha::{Alpha, PremultipliedAlpha};
use crate::color_type::{BaseColor, ColorType};
use crate::space::Spaces;

verus! {

/// A color in the ACEScg color space.
///
/// This color space uses the ACES AP1 primaries and D60 white point.
#[derive(Clone, Copy, Debug, Hash, PartialEq, Eq, PartialOrd, Ord, Structural)]
pub struct AcesCg<ComponentTy> {
    /// The red component.
    pub r: ComponentTy,
    /// The green component.
    pub g: ComponentTy,
    /// The blue component.
    pub b: ComponentTy,
}

impl<T: Copy> ColorType for AcesCg<T> {
    type ComponentTy = T;

    const SPACE: Spaces = Spaces::AcesCg;

    const NUM_COMPONENTS: usize = 3;

    open spec fn components(&self) -> Seq<T> {
        seq![self.r, self.g, self.b]
    }

    open spec fn from_components(s: Seq<T>) -> Self {
        AcesCg { r: s[0], g: s[1], b: s[2] }
    }

    proof fn lemma_components(c: Self) {
    }

    proof fn lemma_from_components(s: Seq<T>) {
        assert(Self::from_components(s).components() =~= s);
    }

    fn component(&self, i: usize) -> (r: &T) {
        if i == 0 {
            &self.r
        } else if i == 1 {
            &self.g
        } else {
            &self.b
        }
    }

    fn component_mut(&mut self, i: usize) -> (r: &mut T) {
        if i == 0 {
            &mut self.r
        } else if i == 1 {
            &mut self.g
        } else {
            &mut self.b
        }
    }
}

impl<T: Copy> BaseColor for AcesCg<T> {
    proof fn lemma_space_components() {
    }
}

impl<T: Copy> From<[T; 3]> for AcesCg<T> {
    fn from(a: [T; 3]) -> AcesCg<T> {
        AcesCg { r: a[0], g: a[1], b: a[2] }
    }
}

impl<T: Copy> vstd::std_specs::convert::FromSpecImpl<[T; 3]> for AcesCg<T> {
    open spec fn obeys_from_spec() -> bool {
        true
    }

    open spec fn from_spec(a: [T; 3]) -> AcesCg<T> {
        <AcesCg<T> as ColorType>::from_components(a@)
    }
}

impl<T: Copy> Into<[T; 3]> for AcesCg<T> {
    fn into(self) -> [T; 3] {
        [self.r, self.g, self.b]
    }
}

impl<T: Copy> vstd::std_specs::convert::IntoSpecImpl<[T; 3]> for AcesCg<T> {
    open spec fn obeys_into_spec() -> bool {
        true
    }

    open spec fn into_spec(self) -> [T; 3] {
        [self.r, self.g, self.b]
    }
}

impl<T: Copy> From<Alpha<AcesCg<T>>> for AcesCg<T> {
    fn from(col_alpha: Alpha<AcesCg<T>>) -> AcesCg<T> {
        col_alpha.color
    }
}

impl<T: Copy> vstd::std_specs::convert::FromSpecImpl<Alpha<AcesCg<T>>> for AcesCg<T> {
    open spec fn obeys_from_spec() -> bool {
        true
    }

    open spec fn from_spec(col_alpha: Alpha<AcesCg<T>>) -> AcesCg<T> {
        col_alpha.color
    }
}

impl<T: Copy> From<[T; 4]> for Alpha<AcesCg<T>> {
    fn from(a: [T; 4]) -> Alpha<AcesCg<T>> {
        Alpha { color: AcesCg { r: a[0], g: a[1], b: a[2] }, alpha: a[3] }
    }
}

impl<T: Copy> vstd::std_specs::convert::FromSpecImpl<[T; 4]> for Alpha<AcesCg<T>> {
    open spec fn obeys_from_spec() -> bool {
        true
    }

    open spec fn from_spec(a: [T; 4]) -> Alpha<AcesCg<T>> {
        <Alpha<AcesCg<T>> as ColorType>::from_components(a@)
    }
}

impl<T: Copy> Into<[T; 4]> for Alpha<AcesCg<T>> {
    fn into(self) -> [T; 4] {
        [self.color.r, self.color.g, self.color.b, self.alpha]
    }
}

impl<T: Copy> vstd::std_specs::convert::IntoSpecImpl<[T; 4]> for Alpha<AcesCg<T>> {
    open spec fn obeys_into_spec() -> bool {
        true
    }

    open spec fn into_spec(self) -> [T; 4] {
        [self.color.r, self.color.g, self.color.b, self.alpha]
    }
}

impl<T: Copy> From<PremultipliedAlpha<AcesCg<T>>> for AcesCg<T> {
    fn from(col_alpha: PremultipliedAlpha<AcesCg<T>>) -> AcesCg<T> {
        col_alpha.color
    }
}

impl<T: Copy> vstd::std_specs::convert::FromSpecImpl<PremultipliedAlpha<AcesCg<T>>> for AcesCg<T> {
    open spec fn obeys_from_spec() -> bool {
        true
    }

    open spec fn from_spec(col_alpha: PremultipliedAlpha<AcesCg<T>>) -> AcesCg<T> {
        col_alpha.color
    }
}

impl<T: Copy> From<[T; 4]> for PremultipliedAlpha<AcesCg<T>> {
    fn from(a: [T; 4]) -> PremultipliedAlpha<AcesCg<T>> {
        PremultipliedAlpha { color: AcesCg { r: a[0], g: a[1], b: a[2] }, alpha: a[3] }
    }
}

impl<T: Copy> vstd::std_specs::convert::FromSpecImpl<[T; 4]> for PremultipliedAlpha<AcesCg<T>> {
    open spec fn obeys_from_spec() -> bool {
        true
    }

    open spec fn from_spec(a: [T; 4]) -> PremultipliedAlpha<AcesCg<T>> {
        <PremultipliedAlpha<AcesCg<T>> as ColorType>::from_components(a@)
    }
}

impl<T: Copy> Into<[T; 4]> for PremultipliedAlpha<AcesCg<T>> {
    fn into(self) -> [T; 4] {
        [self.color.r, self.color.g, self.color.b, self.alpha]
    }
}

impl<T: Copy> vstd::std_specs::convert::IntoSpecImpl<[T; 4]> for PremultipliedAlpha<AcesCg<T>> {
    open spec fn obeys_into_spec() -> bool {
        true
    }

    open spec fn into_spec(self) -> [T; 4] {
        [self.color.r, self.color.g, self.color.b, self.alpha]
    }
}

/// A color in the ACES 2065-1 color space.
///
/// This color space uses the ACES AP0 primaries and D60 white point.
#[derive(Clone, Copy, Debug, Hash, PartialEq, Eq, PartialOrd, Ord, Structural)]
pub struct Aces2065<ComponentTy> {
    /// The red component.
    pub r: ComponentTy,
    /// The green component.
    pub g: ComponentTy,
    /// The blue component.
    pub b: ComponentTy,
}

impl<T: Copy> ColorType for Aces2065<T> {
    type ComponentTy = T;

    const SPACE: Spaces = Spaces::Aces2065;

    const NUM_COMPONENTS: usize = 3;

    open spec fn components(&self) -> Seq<T> {
        seq![self.r, self.g, self.b]
    }

    open spec fn from_components(s: Seq<T>) -> Self {
        Aces2065 { r: s[0], g: s[1], b: s[2] }
    }

    proof fn lemma_components(c: Self) {
    }

    proof fn lemma_from_components(s: Seq<T>) {
        assert(Self::from_components(s).components() =~= s);
    }

    fn component(&self, i: usize) -> (r: &T) {
        if i == 0 {
            &self.r
        } else if i == 1 {
            &self.g
        } else {
            &self.b
        }
    }

    fn component_mut(&mut self, i: usize) -> (r: &mut T) {
        if i == 0 {
            &mut self.r
        } else if i == 1 {
            &mut self.g
        } else {
            &mut self.b
        }
    }
}

impl<T: Copy> BaseColor for Aces2065<T> {
    proof fn lemma_space_components() {
    }
}

impl<T: Copy> From<[T; 3]> for Aces2065<T> {
    fn from(a: [T; 3]) -> Aces2065<T> {
        Aces2065 { r: a[0], g: a[1], b: a[2] }
    }
}

impl<T: Copy> vstd::std_specs::convert::FromSpecImpl<[T; 3]> for Aces2065<T> {
    open spec fn obeys_from_spec() -> bool {
        true
    }

    open spec fn from_spec(a: [T; 3]) -> Aces2065<T> {
        <Aces2065<T> as ColorType>::from_components(a@)
    }
}

impl<T: Copy> Into<[T; 3]> for Aces2065<T> {
    fn into(self) -> [T; 3] {
        [self.r, self.g, self.b]
    }
}

impl<T: Copy> vstd::std_specs::convert::IntoSpecImpl<[T; 3]> for Aces2065<T> {
    open spec fn obeys_into_spec() -> bool {
        true
    }

    open spec fn into_spec(self) -> [T; 3] {
        [self.r, self.g, self.b]
    }
}

impl<T: Copy> From<Alpha<Aces2065<T>>> for Aces2065<T> {
    fn from(col_alpha: Alpha<Aces2065<T>>) -> Aces2065<T> {
        col_alpha.color
    }
}

impl<T: Copy> vstd::std_specs::convert::FromSpecImpl<Alpha<Aces2065<T>>> for Aces2065<T> {
    open spec fn obeys_from_spec() -> bool {
        true
    }

    open spec fn from_spec(col_alpha: Alpha<Aces2065<T>>) -> Aces2065<T> {
        col_alpha.color
    }
}

impl<T: Copy> From<[T; 4]> for Alpha<Aces2065<T>> {
    fn from(a: [T; 4]) -> Alpha<Aces2065<T>> {
        Alpha { color: Aces2065 { r: a[0], g: a[1], b: a[2] }, alpha: a[3] }
    }
}

impl<T: Copy> vstd::std_specs::convert::FromSpecImpl<[T; 4]> for Alpha<Aces2065<T>> {
    open spec fn obeys_from_spec() -> bool {
        true
    }

    open spec fn from_spec(a: [T; 4]) -> Alpha<Aces2065<T>> {
        <Alpha<Aces2065<T>> as ColorType>::from_components(a@)
    }
}

impl<T: Copy> Into<[T; 4]> for Alpha<Aces2065<T>> {
    fn into(self) -> [T; 4] {
        [self.color.r, self.color.g, self.color.b, self.alpha]
    }
}

impl<T: Copy> vstd::std_specs::convert::IntoSpecImpl<[T; 4]> for Alpha<Aces2065<T>> {
    open spec fn obeys_into_spec() -> bool {
        true
    }

    open spec fn into_spec(self) -> [T; 4] {
        [self.color.r, self.color.g, self.color.b, self.alpha]
    }
}

impl<T: Copy> From<PremultipliedAlpha<Aces2065<T>>> for Aces2065<T> {
    fn from(col_alpha: PremultipliedAlpha<Aces2065<T>>) -> Aces2065<T> {
        col_alpha.color
    }
}

impl<T: Copy> vstd::std_specs::convert::FromSpecImpl<PremultipliedAlpha<Aces2065<T>>> for Aces2065<T> {
    open spec fn obeys_from_spec() -> bool {
        true
    }

    open spec fn from_spec(col_alpha: PremultipliedAlpha<Aces2065<T>>) -> Aces2065<T> {
        col_alpha.color
    }
}

impl<T: Copy> From<[T; 4]> for PremultipliedAlpha<Aces2065<T>> {
    fn from(a: [T; 4]) -> PremultipliedAlpha<Aces2065<T>> {
        PremultipliedAlpha { color: Aces2065 { r: a[0], g: a[1], b: a[2] }, alpha: a[3] }
    }
}

impl<T: Copy> vstd::std_specs::convert::FromSpecImpl<[T; 4]> for PremultipliedAlpha<Aces2065<T>> {
    open spec fn obeys_from_spec() -> bool {
        true
    }

    open spec fn from_spec(a: [T; 4]) -> PremultipliedAlpha<Aces2065<T>> {
        <PremultipliedAlpha<Aces2065<T>> as ColorType>::from_components(a@)
    }
}

impl<T: Copy> Into<[T; 4]> for PremultipliedAlpha<Aces2065<T>> {
    fn into(self) -> [T; 4] {
        [self.color.r, self.color.g, self.color.b, self.alpha]
    }
}

impl<T: Copy> vstd::std_specs::convert::IntoSpecImpl<[T; 4]> for PremultipliedAlpha<Aces2065<T>> {
    open spec fn obeys_into_spec() -> bool {
        true
    }

    open spec fn into_spec(self) -> [T; 4] {
        [self.color.r, self.color.g, self.color.b, self.alpha]
    }
}

/// A color in the ACEScc color space.
///
/// This color space uses the ACES AP1 primaries and D60 white point
/// and a pure logarithmic transfer function.
#[derive(Clone, Copy, Debug, Hash, PartialEq, Eq, PartialOrd, Ord, Structural)]
pub struct AcesCc<ComponentTy> {
    /// The red component.
    pub r: ComponentTy,
    /// The green component.
    pub g: ComponentTy,
    /// The blue component.
    pub b: ComponentTy,
}

impl<T: Copy> ColorType for AcesCc<T> {
    type ComponentTy = T;

    const SPACE: Spaces = Spaces::AcesCc;

    const NUM_COMPONENTS: usize = 3;

    open spec fn components(&self) -> Seq<T> {
        seq![self.r, self.g, self.b]
    }

    open spec fn from_components(s: Seq<T>) -> Self {
        AcesCc { r: s[0], g: s[1], b: s[2] }
    }

    proof fn lemma_components(c: Self) {
    }

    proof fn lemma_from_components(s: Seq<T>) {
        assert(Self::from_components(s).components() =~= s);
    }

    fn component(&self, i: usize) -> (r: &T) {
        if i == 0 {
            &self.r
        } else if i == 1 {
            &self.g
        } else {
            &self.b
        }
    }

    fn component_mut(&mut self, i: usize) -> (r: &mut T) {
        if i == 0 {
            &mut self.r
        } else if i == 1 {
            &mut self.g
        } else {
            &mut self.b
        }
    }
}

impl<T: Copy> BaseColor for AcesCc<T> {
    proof fn lemma_space_components() {
    }
}

impl<T: Copy> From<[T; 3]> for AcesCc<T> {
    fn from(a: [T; 3]) -> AcesCc<T> {
        AcesCc { r: a[0], g: a[1], b: a[2] }
    }
}

impl<T: Copy> vstd::std_specs::convert::FromSpecImpl<[T; 3]> for AcesCc<T> {
    open spec fn obeys_from_spec() -> bool {
        true
    }

    open spec fn from_spec(a: [T; 3]) -> AcesCc<T> {
        <AcesCc<T> as ColorType>::from_components(a@)
    }
}

impl<T: Copy> Into<[T; 3]> for AcesCc<T> {
    fn into(self) -> [T; 3] {
        [self.r, self.g, self.b]
    }
}

impl<T: Copy> vstd::std_specs::convert::IntoSpecImpl<[T; 3]> for AcesCc<T> {
    open spec fn obeys_into_spec() -> bool {
        true
    }

    open spec fn into_spec(self) -> [T; 3] {
        [self.r, self.g, self.b]
    }
}

impl<T: Copy> From<Alpha<AcesCc<T>>> for AcesCc<T> {
    fn from(col_alpha: Alpha<AcesCc<T>>) -> AcesCc<T> {
        col_alpha.color
    }
}

impl<T: Copy> vstd::std_specs::convert::FromSpecImpl<Alpha<AcesCc<T>>> for AcesCc<T> {
    open spec fn obeys_from_spec() -> bool {
        true
    }

    open spec fn from_spec(col_alpha: Alpha<AcesCc<T>>) -> AcesCc<T> {
        col_alpha.color
    }
}

impl<T: Copy> From<[T; 4]> for Alpha<AcesCc<T>> {
    fn from(a: [T; 4]) -> Alpha<AcesCc<T>> {
        Alpha { color: AcesCc { r: a[0], g: a[1], b: a[2] }, alpha: a[3] }
    }
}

impl<T: Copy> vstd::std_specs::convert::FromSpecImpl<[T; 4]> for Alpha<AcesCc<T>> {
    open spec fn obeys_from_spec() -> bool {
        true
    }

    open spec fn from_spec(a: [T; 4]) -> Alpha<AcesCc<T>> {
        <Alpha<AcesCc<T>> as ColorType>::from_components(a@)
    }
}

impl<T: Copy> Into<[T; 4]> for Alpha<AcesCc<T>> {
    fn into(self) -> [T; 4] {
        [self.color.r, self.color.g, self.color.b, self.alpha]
    }
}

impl<T: Copy> vstd::std_specs::convert::IntoSpecImpl<[T; 4]> for Alpha<AcesCc<T>> {
    open spec fn obeys_into_spec() -> bool {
        true
    }

    open spec fn into_spec(self) -> [T; 4] {
        [self.color.r, self.color.g, self.color.b, self.alpha]
    }
}

impl<T: Copy> From<PremultipliedAlpha<AcesCc<T>>> for AcesCc<T> {
    fn from(col_alpha: PremultipliedAlpha<AcesCc<T>>) -> AcesCc<T> {
        col_alpha.color
    }
}

impl<T: Copy> vstd::std_specs::convert::FromSpecImpl<PremultipliedAlpha<AcesCc<T>>> for AcesCc<T> {
    open spec fn obeys_from_spec() -> bool {
        true
    }

    open spec fn from_spec(col_alpha: PremultipliedAlpha<AcesCc<T>>) -> AcesCc<T> {
        col_alpha.color
    }
}

impl<T: Copy> From<[T; 4]> for PremultipliedAlpha<AcesCc<T>> {
    fn from(a: [T; 4]) -> PremultipliedAlpha<AcesCc<T>> {
        PremultipliedAlpha { color: AcesCc { r: a[0], g: a[1], b: a[2] }, alpha: a[3] }
    }
}

impl<T: Copy> vstd::std_specs::convert::FromSpecImpl<[T; 4]> for PremultipliedAlpha<AcesCc<T>> {
    open spec fn obeys_from_spec() -> bool {
        true
    }

    open spec fn from_spec(a: [T; 4]) -> PremultipliedAlpha<AcesCc<T>> {
        <PremultipliedAlpha<AcesCc<T>> as ColorType>::from_components(a@)
    }
}

impl<T: Copy> Into<[T; 4]> for PremultipliedAlpha<AcesCc<T>> {
    fn into(self) -> [T; 4] {
        [self.color.r, self.color.g, self.color.b, self.alpha]
    }
}

impl<T: Copy> vstd::std_specs::convert::IntoSpecImpl<[T; 4]> for PremultipliedAlpha<AcesCc<T>> {
    open spec fn obeys_into_spec() -> bool {
        true
    }

    open spec fn into_spec(self) -> [T; 4] {
        [self.color.r, self.color.g, self.color.b, self.alpha]
    }
}

/// A color in the ACEScct color space.
///
/// This color space uses the ACES AP1 primaries and D60 white point
/// and a logarithmic transfer function with a toe such that values
/// are able to go negative.
#[derive(Clone, Copy, Debug, Hash, PartialEq, Eq, PartialOrd, Ord, Structural)]
pub struct AcesCct<ComponentTy> {
    /// The red component.
    pub r: ComponentTy,
    /// The green component.
    pub g: ComponentTy,
    /// The blue component.
    pub b: ComponentTy,
}

impl<T: Copy> ColorType for AcesCct<T> {
    type ComponentTy = T;

    const SPACE: Spaces = Spaces::AcesCct;

    const NUM_COMPONENTS: usize = 3;

    open spec fn components(&self) -> Seq<T> {
        seq![self.r, self.g, self.b]
    }

    open spec fn from_components(s: Seq<T>) -> Self {
        AcesCct { r: s[0], g: s[1], b: s[2] }
    }

    proof fn lemma_components(c: Self) {
    }

    proof fn lemma_from_components(s: Seq<T>) {
        assert(Self::from_components(s).components() =~= s);
    }

    fn component(&self, i: usize) -> (r: &T) {
        if i == 0 {
            &self.r
        } else if i == 1 {
            &self.g
        } else {
            &self.b
        }
    }

    fn component_mut(&mut self, i: usize) -> (r: &mut T) {
        if i == 0 {
            &mut self.r
        } else if i == 1 {
            &mut self.g
        } else {
            &mut self.b
        }
    }
}

impl<T: Copy> BaseColor for AcesCct<T> {
    proof fn lemma_space_components() {
    }
}

impl<T: Copy> From<[T; 3]> for AcesCct<T> {
    fn from(a: [T; 3]) -> AcesCct<T> {
        AcesCct { r: a[0], g: a[1], b: a[2] }
    }
}

impl<T: Copy> vstd::std_specs::convert::FromSpecImpl<[T; 3]> for AcesCct<T> {
    open spec fn obeys_from_spec() -> bool {
        true
    }

    open spec fn from_spec(a: [T; 3]) -> AcesCct<T> {
        <AcesCct<T> as ColorType>::from_components(a@)
    }
}

impl<T: Copy> Into<[T; 3]> for AcesCct<T> {
    fn into(self) -> [T; 3] {
        [self.r, self.g, self.b]
    }
}

impl<T: Copy> vstd::std_specs::convert::IntoSpecImpl<[T; 3]> for AcesCct<T> {
    open spec fn obeys_into_spec() -> bool {
        true
    }

    open spec fn into_spec(self) -> [T; 3] {
        [self.r, self.g, self.b]
    }
}

impl<T: Copy> From<Alpha<AcesCct<T>>> for AcesCct<T> {
    fn from(col_alpha: Alpha<AcesCct<T>>) -> AcesCct<T> {
        col_alpha.color
    }
}

impl<T: Copy> vstd::std_specs::convert::FromSpecImpl<Alpha<AcesCct<T>>> for AcesCct<T> {
    open spec fn obeys_from_spec() -> bool {
        true
    }

    open spec fn from_spec(col_alpha: Alpha<AcesCct<T>>) -> AcesCct<T> {
        col_alpha.color
    }
}

impl<T: Copy> From<[T; 4]> for Alpha<AcesCct<T>> {
    fn from(a: [T; 4]) -> Alpha<AcesCct<T>> {
        Alpha { color: AcesCct { r: a[0], g: a[1], b: a[2] }, alpha: a[3] }
    }
}

impl<T: Copy> vstd::std_specs::convert::FromSpecImpl<[T; 4]> for Alpha<AcesCct<T>> {
    open spec fn obeys_from_spec() -> bool {
        true
    }

    open spec fn from_spec(a: [T; 4]) -> Alpha<AcesCct<T>> {
        <Alpha<AcesCct<T>> as ColorType>::from_components(a@)
    }
}

impl<T: Copy> Into<[T; 4]> for Alpha<AcesCct<T>> {
    fn into(self) -> [T; 4] {
        [self.color.r, self.color.g, self.color.b, self.alpha]
    }
}

impl<T: Copy> vstd::std_specs::convert::IntoSpecImpl<[T; 4]> for Alpha<AcesCct<T>> {
    open spec fn obeys_into_spec() -> bool {
        true
    }

    open spec fn into_spec(self) -> [T; 4] {
        [self.color.r, self.color.g, self.color.b, self.alpha]
    }
}

impl<T: Copy> From<PremultipliedAlpha<AcesCct<T>>> for AcesCct<T> {
    fn from(col_alpha: PremultipliedAlpha<AcesCct<T>>) -> AcesCct<T> {
        col_alpha.color
    }
}

impl<T: Copy> vstd::std_specs::convert::FromSpecImpl<PremultipliedAlpha<AcesCct<T>>> for AcesCct<T> {
    open spec fn obeys_from_spec() -> bool {
        true
    }

    open spec fn from_spec(col_alpha: PremultipliedAlpha<AcesCct<T>>) -> AcesCct<T> {
        col_alpha.color
    }
}

impl<T: Copy> From<[T; 4]> for PremultipliedAlpha<AcesCct<T>> {
    fn from(a: [T; 4]) -> PremultipliedAlpha<AcesCct<T>> {
        PremultipliedAlpha { color: AcesCct { r: a[0], g: a[1], b: a[2] }, alpha: a[3] }
    }
}

impl<T: Copy> vstd::std_specs::convert::FromSpecImpl<[T; 4]> for PremultipliedAlpha<AcesCct<T>> {
    open spec fn obeys_from_spec() -> bool {
        true
    }

    open spec fn from_spec(a: [T; 4]) -> PremultipliedAlpha<AcesCct<T>> {
        <PremultipliedAlpha<AcesCct<T>> as ColorType>::from_components(a@)
    }
}

impl<T: Copy> Into<[T; 4]> for PremultipliedAlpha<AcesCct<T>> {
    fn into(self) -> [T; 4] {
        [self.color.r, self.color.g, self.color.b, self.alpha]
    }
}

impl<T: Copy> vstd::std_specs::convert::IntoSpecImpl<[T; 4]> for PremultipliedAlpha<AcesCct<T>> {
    open spec fn obeys_into_spec() -> bool {
        true
    }

    open spec fn into_spec(self) -> [T; 4] {
        [self.color.r, self.color.g, self.color.b, self.alpha]
    }
}

} // verus!
