//! Colors in spaces built on the BT.2020 primaries.

use vstd::prelude::*;

use crate::alpha::{Alpha, PremultipliedAlpha};
use crate::color_type::{BaseColor, ColorType};
use crate::space::Spaces;

verus! {

/// A color in the BT.2020 color space.
///
/// This color space uses the BT.2020 primaries and D65 white point.
#[derive(Clone, Copy, Debug, Hash, PartialEq, Eq, PartialOrd, Ord, Structural)]
pub struct Bt2020<ComponentTy> {
    /// The red component.
    pub r: ComponentTy,
    /// The green component.
    pub g: ComponentTy,
    /// The blue component.
    pub b: ComponentTy,
}

impl<T: Copy> ColorType for Bt2020<T> {
    type ComponentTy = T;

    const SPACE: Spaces = Spaces::Bt2020;

    const NUM_COMPONENTS: usize = 3;

    open spec fn components(&self) -> Seq<T> {
        seq![self.r, self.g, self.b]
    }

    open spec fn from_components(s: Seq<T>) -> Self {
        Bt2020 { r: s[0], g: s[1], b: s[2] }
    }

    proof fn lemma_components(c: Self) {
    }

    proof fn lemma_from_components(s: Seq<T>) {
        assert(Self::from_components(s).components() =~= s);
    }

    fn component(&self, i: usize) -> (r: &T) {
        if i == 0 {
            &self.r
        } else if i == 1 {
            &self.g
        } else {
            &self.b
        }
    }

    fn component_mut(&mut self, i: usize) -> (r: &mut T) {
        if i == 0 {
            &mut self.r
        } else if i == 1 {
            &mut self.g
        } else {
            &mut self.b
        }
    }
}

impl<T: Copy> BaseColor for Bt2020<T> {
    proof fn lemma_space_components() {
    }
}

impl<T: Copy> From<[T; 3]> for Bt2020<T> {
    fn from(a: [T; 3]) -> Bt2020<T> {
        Bt2020 { r: a[0], g: a[1], b: a[2] }
    }
}

impl<T: Copy> vstd::std_specs::convert::FromSpecImpl<[T; 3]> for Bt2020<T> {
    open spec fn obeys_from_spec() -> bool {
        true
    }

    open spec fn from_spec(a: [T; 3]) -> Bt2020<T> {
        <Bt2020<T> as ColorType>::from_components(a@)
    }
}

impl<T: Copy> Into<[T; 3]> for Bt2020<T> {
    fn into(self) -> [T; 3] {
        [self.r, self.g, self.b]
    }
}

impl<T: Copy> vstd::std_specs::convert::IntoSpecImpl<[T; 3]> for Bt2020<T> {
    open spec fn obeys_into_spec() -> bool {
        true
    }

    open spec fn into_spec(self) -> [T; 3] {
        [self.r, self.g, self.b]
    }
}

impl<T: Copy> From<Alpha<Bt2020<T>>> for Bt2020<T> {
    fn from(col_alpha: Alpha<Bt2020<T>>) -> Bt2020<T> {
        col_alpha.color
    }
}

impl<T: Copy> vstd::std_specs::convert::FromSpecImpl<Alpha<Bt2020<T>>> for Bt2020<T> {
    open spec fn obeys_from_spec() -> bool {
        true
    }

    open spec fn from_spec(col_alpha: Alpha<Bt2020<T>>) -> Bt2020<T> {
        col_alpha.color
    }
}

impl<T: Copy> From<[T; 4]> for Alpha<Bt2020<T>> {
    fn from(a: [T; 4]) -> Alpha<Bt2020<T>> {
        Alpha { color: Bt2020 { r: a[0], g: a[1], b: a[2] }, alpha: a[3] }
    }
}

impl<T: Copy> vstd::std_specs::convert::FromSpecImpl<[T; 4]> for Alpha<Bt2020<T>> {
    open spec fn obeys_from_spec() -> bool {
        true
    }

    open spec fn from_spec(a: [T; 4]) -> Alpha<Bt2020<T>> {
        <Alpha<Bt2020<T>> as ColorType>::from_components(a@)
    }
}

impl<T: Copy> Into<[T; 4]> for Alpha<Bt2020<T>> {
    fn into(self) -> [T; 4] {
        [self.color.r, self.color.g, self.color.b, self.alpha]
    }
}

impl<T: Copy> vstd::std_specs::convert::IntoSpecImpl<[T; 4]> for Alpha<Bt2020<T>> {
    open spec fn obeys_into_spec() -> bool {
        true
    }

    open spec fn into_spec(self) -> [T; 4] {
        [self.color.r, self.color.g, self.color.b, self.alpha]
    }
}

impl<T: Copy> From<PremultipliedAlpha<Bt2020<T>>> for Bt2020<T> {
    fn from(col_alpha: PremultipliedAlpha<Bt2020<T>>) -> Bt2020<T> {
        col_alpha.color
    }
}

impl<T: Copy> vstd::std_specs::convert::FromSpecImpl<PremultipliedAlpha<Bt2020<T>>> for Bt2020<T> {
    open spec fn obeys_from_spec() -> bool {
        true
    }

    open spec fn from_spec(col_alpha: PremultipliedAlpha<Bt2020<T>>) -> Bt2020<T> {
        col_alpha.color
    }
}

impl<T: Copy> From<[T; 4]> for PremultipliedAlpha<Bt2020<T>> {
    fn from(a: [T; 4]) -> PremultipliedAlpha<Bt2020<T>> {
        PremultipliedAlpha { color: Bt2020 { r: a[0], g: a[1], b: a[2] }, alpha: a[3] }
    }
}

impl<T: Copy> vstd::std_specs::convert::FromSpecImpl<[T; 4]> for PremultipliedAlpha<Bt2020<T>> {
    open spec fn obeys_from_spec() -> bool {
        true
    }

    open spec fn from_spec(a: [T; 4]) -> PremultipliedAlpha<Bt2020<T>> {
        <PremultipliedAlpha<Bt2020<T>> as ColorType>::from_components(a@)
    }
}

impl<T: Copy> Into<[T; 4]> for PremultipliedAlpha<Bt2020<T>> {
    fn into(self) -> [T; 4] {
        [self.color.r, self.color.g, self.color.b, self.alpha]
    }
}

impl<T: Copy> vstd::std_specs::convert::IntoSpecImpl<[T; 4]> for PremultipliedAlpha<Bt2020<T>> {
    open spec fn obeys_into_spec() -> bool {
        true
    }

    open spec fn into_spec(self) -> [T; 4] {
        [self.color.r, self.color.g, self.color.b, self.alpha]
    }
}

/// A color in the encoded BT.2020 color space.
///
/// This color space uses the BT.2020 primaries and D65 white point and
/// the BT.2020 transfer functions (equivalent to BT.601 transfer functions
/// but with higher precision). This encoded version is nonlinear, with the
/// BT.2020/BT.601 OETF applied.
#[derive(Clone, Copy, Debug, Hash, PartialEq, Eq, PartialOrd, Ord, Structural)]
pub struct EncodedBt2020<ComponentTy> {
    /// The red component.
    pub r: ComponentTy,
    /// The green component.
    pub g: ComponentTy,
    /// The blue component.
    pub b: ComponentTy,
}

impl<T: Copy> ColorType for EncodedBt2020<T> {
    type ComponentTy = T;

    const SPACE: Spaces = Spaces::EncodedBt2020;

    const NUM_COMPONENTS: usize = 3;

    open spec fn components(&self) -> Seq<T> {
        seq![self.r, self.g, self.b]
    }

    open spec fn from_components(s: Seq<T>) -> Self {
        EncodedBt2020 { r: s[0], g: s[1], b: s[2] }
    }

    proof fn lemma_components(c: Self) {
    }

    proof fn lemma_from_components(s: Seq<T>) {
        assert(Self::from_components(s).components() =~= s);
    }

    fn component(&self, i: usize) -> (r: &T) {
        if i == 0 {
            &self.r
        } else if i == 1 {
            &self.g
        } else {
            &self.b
        }
    }

    fn component_mut(&mut self, i: usize) -> (r: &mut T) {
        if i == 0 {
            &mut self.r
        } else if i == 1 {
            &mut self.g
        } else {
            &mut self.b
        }
    }
}

impl<T: Copy> BaseColor for EncodedBt2020<T> {
    proof fn lemma_space_components() {
    }
}

impl<T: Copy> From<[T; 3]> for EncodedBt2020<T> {
    fn from(a: [T; 3]) -> EncodedBt2020<T> {
        EncodedBt2020 { r: a[0], g: a[1], b: a[2] }
    }
}

impl<T: Copy> vstd::std_specs::convert::FromSpecImpl<[T; 3]> for EncodedBt2020<T> {
    open spec fn obeys_from_spec() -> bool {
        true
    }

    open spec fn from_spec(a: [T; 3]) -> EncodedBt2020<T> {
        <EncodedBt2020<T> as ColorType>::from_components(a@)
    }
}

impl<T: Copy> Into<[T; 3]> for EncodedBt2020<T> {
    fn into(self) -> [T; 3] {
        [self.r, self.g, self.b]
    }
}

impl<T: Copy> vstd::std_specs::convert::IntoSpecImpl<[T; 3]> for EncodedBt2020<T> {
    open spec fn obeys_into_spec() -> bool {
        true
    }

    open spec fn into_spec(self) -> [T; 3] {
        [self.r, self.g, self.b]
    }
}

impl<T: Copy> From<Alpha<EncodedBt2020<T>>> for EncodedBt2020<T> {
    fn from(col_alpha: Alpha<EncodedBt2020<T>>) -> EncodedBt2020<T> {
        col_alpha.color
    }
}

impl<T: Copy> vstd::std_specs::convert::FromSpecImpl<Alpha<EncodedBt2020<T>>> for EncodedBt2020<T> {
    open spec fn obeys_from_spec() -> bool {
        true
    }

    open spec fn from_spec(col_alpha: Alpha<EncodedBt2020<T>>) -> EncodedBt2020<T> {
        col_alpha.color
    }
}

impl<T: Copy> From<[T; 4]> for Alpha<EncodedBt2020<T>> {
    fn from(a: [T; 4]) -> Alpha<EncodedBt2020<T>> {
        Alpha { color: EncodedBt2020 { r: a[0], g: a[1], b: a[2] }, alpha: a[3] }
    }
}

impl<T: Copy> vstd::std_specs::convert::FromSpecImpl<[T; 4]> for Alpha<EncodedBt2020<T>> {
    open spec fn obeys_from_spec() -> bool {
        true
    }

    open spec fn from_spec(a: [T; 4]) -> Alpha<EncodedBt2020<T>> {
        <Alpha<EncodedBt2020<T>> as ColorType>::from_components(a@)
    }
}

impl<T: Copy> Into<[T; 4]> for Alpha<EncodedBt2020<T>> {
    fn into(self) -> [T; 4] {
        [self.color.r, self.color.g, self.color.b, self.alpha]
    }
}

impl<T: Copy> vstd::std_specs::convert::IntoSpecImpl<[T; 4]> for Alpha<EncodedBt2020<T>> {
    open spec fn obeys_into_spec() -> bool {
        true
    }

    open spec fn into_spec(self) -> [T; 4] {
        [self.color.r, self.color.g, self.color.b, self.alpha]
    }
}

impl<T: Copy> From<PremultipliedAlpha<EncodedBt2020<T>>> for EncodedBt2020<T> {
    fn from(col_alpha: PremultipliedAlpha<EncodedBt2020<T>>) -> EncodedBt2020<T> {
        col_alpha.color
    }
}

impl<T: Copy> vstd::std_specs::convert::FromSpecImpl<PremultipliedAlpha<EncodedBt2020<T>>> for EncodedBt2020<T> {
    open spec fn obeys_from_spec() -> bool {
        true
    }

    open spec fn from_spec(col_alpha: PremultipliedAlpha<EncodedBt2020<T>>) -> EncodedBt2020<T> {
        col_alpha.color
    }
}

impl<T: Copy> From<[T; 4]> for PremultipliedAlpha<EncodedBt2020<T>> {
    fn from(a: [T; 4]) -> PremultipliedAlpha<EncodedBt2020<T>> {
        PremultipliedAlpha { color: EncodedBt2020 { r: a[0], g: a[1], b: a[2] }, alpha: a[3] }
    }
}

impl<T: Copy> vstd::std_specs::convert::FromSpecImpl<[T; 4]> for PremultipliedAlpha<EncodedBt2020<T>> {
    open spec fn obeys_from_spec() -> bool {
        true
    }

    open spec fn from_spec(a: [T; 4]) -> PremultipliedAlpha<EncodedBt2020<T>> {
        <PremultipliedAlpha<EncodedBt2020<T>> as ColorType>::from_components(a@)
    }
}

impl<T: Copy> Into<[T; 4]> for PremultipliedAlpha<EncodedBt2020<T>> {
    fn into(self) -> [T; 4] {
        [self.color.r, self.color.g, self.color.b, self.alpha]
    }
}

impl<T: Copy> vstd::std_specs::convert::IntoSpecImpl<[T; 4]> for PremultipliedAlpha<EncodedBt2020<T>> {
    open spec fn obeys_into_spec() -> bool {
        true
    }

    open spec fn into_spec(self) -> [T; 4] {
        [self.color.r, self.color.g, self.color.b, self.alpha]
    }
}

/// A color in the BT.2100 color space.
///
/// This color space uses the BT.2020 primaries and D65 white point.
#[derive(Clone, Copy, Debug, Hash, PartialEq, Eq, PartialOrd, Ord, Structural)]
pub struct Bt2100<ComponentTy> {
    /// The red component.
    pub r: ComponentTy,
    /// The green component.
    pub g: ComponentTy,
    /// The blue component.
    pub b: ComponentTy,
}

impl<T: Copy> ColorType for Bt2100<T> {
    type ComponentTy = T;

    const SPACE: Spaces = Spaces::Bt2100;

    const NUM_COMPONENTS: usize = 3;

    open spec fn components(&self) -> Seq<T> {
        seq![self.r, self.g, self.b]
    }

    open spec fn from_components(s: Seq<T>) -> Self {
        Bt2100 { r: s[0], g: s[1], b: s[2] }
    }

    proof fn lemma_components(c: Self) {
    }

    proof fn lemma_from_components(s: Seq<T>) {
        assert(Self::from_components(s).components() =~= s);
    }

    fn component(&self, i: usize) -> (r: &T) {
        if i == 0 {
            &self.r
        } else if i == 1 {
            &self.g
        } else {
            &self.b
        }
    }

    fn component_mut(&mut self, i: usize) -> (r: &mut T) {
        if i == 0 {
            &mut self.r
        } else if i == 1 {
            &mut self.g
        } else {
            &mut self.b
        }
    }
}

impl<T: Copy> BaseColor for Bt2100<T> {
    proof fn lemma_space_components() {
    }
}

impl<T: Copy> From<[T; 3]> for Bt2100<T> {
    fn from(a: [T; 3]) -> Bt2100<T> {
        Bt2100 { r: a[0], g: a[1], b: a[2] }
    }
}

impl<T: Copy> vstd::std_specs::convert::FromSpecImpl<[T; 3]> for Bt2100<T> {
    open spec fn obeys_from_spec() -> bool {
        true
    }

    open spec fn from_spec(a: [T; 3]) -> Bt2100<T> {
        <Bt2100<T> as ColorType>::from_components(a@)
    }
}

impl<T: Copy> Into<[T; 3]> for Bt2100<T> {
    fn into(self) -> [T; 3] {
        [self.r, self.g, self.b]
    }
}

impl<T: Copy> vstd::std_specs::convert::IntoSpecImpl<[T; 3]> for Bt2100<T> {
    open spec fn obeys_into_spec() -> bool {
        true
    }

    open spec fn into_spec(self) -> [T; 3] {
        [self.r, self.g, self.b]
    }
}

impl<T: Copy> From<Alpha<Bt2100<T>>> for Bt2100<T> {
    fn from(col_alpha: Alpha<Bt2100<T>>) -> Bt2100<T> {
        col_alpha.color
    }
}

impl<T: Copy> vstd::std_specs::convert::FromSpecImpl<Alpha<Bt2100<T>>> for Bt2100<T> {
    open spec fn obeys_from_spec() -> bool {
        true
    }

    open spec fn from_spec(col_alpha: Alpha<Bt2100<T>>) -> Bt2100<T> {
        col_alpha.color
    }
}

impl<T: Copy> From<[T; 4]> for Alpha<Bt2100<T>> {
    fn from(a: [T; 4]) -> Alpha<Bt2100<T>> {
        Alpha { color: Bt2100 { r: a[0], g: a[1], b: a[2] }, alpha: a[3] }
    }
}

impl<T: Copy> vstd::std_specs::convert::FromSpecImpl<[T; 4]> for Alpha<Bt2100<T>> {
    open spec fn obeys_from_spec() -> bool {
        true
    }

    open spec fn from_spec(a: [T; 4]) -> Alpha<Bt2100<T>> {
        <Alpha<Bt2100<T>> as ColorType>::from_components(a@)
    }
}

impl<T: Copy> Into<[T; 4]> for Alpha<Bt2100<T>> {
    fn into(self) -> [T; 4] {
        [self.color.r, self.color.g, self.color.b, self.alpha]
    }
}

impl<T: Copy> vstd::std_specs::convert::IntoSpecImpl<[T; 4]> for Alpha<Bt2100<T>> {
    open spec fn obeys_into_spec() -> bool {
        true
    }

    open spec fn into_spec(self) -> [T; 4] {
        [self.color.r, self.color.g, self.color.b, self.alpha]
    }
}

impl<T: Copy> From<PremultipliedAlpha<Bt2100<T>>> for Bt2100<T> {
    fn from(col_alpha: PremultipliedAlpha<Bt2100<T>>) -> Bt2100<T> {
        col_alpha.color
    }
}

impl<T: Copy> vstd::std_specs::convert::FromSpecImpl<PremultipliedAlpha<Bt2100<T>>> for Bt2100<T> {
    open spec fn obeys_from_spec() -> bool {
        true
    }

    open spec fn from_spec(col_alpha: PremultipliedAlpha<Bt2100<T>>) -> Bt2100<T> {
        col_alpha.color
    }
}

impl<T: Copy> From<[T; 4]> for PremultipliedAlpha<Bt2100<T>> {
    fn from(a: [T; 4]) -> PremultipliedAlpha<Bt2100<T>> {
        PremultipliedAlpha { color: Bt2100 { r: a[0], g: a[1], b: a[2] }, alpha: a[3] }
    }
}

impl<T: Copy> vstd::std_specs::convert::FromSpecImpl<[T; 4]> for PremultipliedAlpha<Bt2100<T>> {
    open spec fn obeys_from_spec() -> bool {
        true
    }

    open spec fn from_spec(a: [T; 4]) -> PremultipliedAlpha<Bt2100<T>> {
        <PremultipliedAlpha<Bt2100<T>> as ColorType>::from_components(a@)
    }
}

impl<T: Copy> Into<[T; 4]> for PremultipliedAlpha<Bt2100<T>> {
    fn into(self) -> [T; 4] {
        [self.color.r, self.color.g, self.color.b, self.alpha]
    }
}

impl<T: Copy> vstd::std_specs::convert::IntoSpecImpl<[T; 4]> for PremultipliedAlpha<Bt2100<T>> {
    open spec fn obeys_into_spec() -> bool {
        true
    }

    open spec fn into_spec(self) -> [T; 4] {
        [self.color.r, self.color.g, self.color.b, self.alpha]
    }
}

/// A color in the encoded BT.2100 color space with PQ (Perceptual Quantizer)
/// transfer function.
///
/// This color space uses the BT.2020 primaries and D65 white point and
/// the ST 2084/"PQ" transfer function. It is nonlinear.
#[derive(Clone, Copy, Debug, Hash, PartialEq, Eq, PartialOrd, Ord, Structural)]
pub struct EncodedBt2100PQ<ComponentTy> {
    /// The red component.
    pub r: ComponentTy,
    /// The green component.
    pub g: ComponentTy,
    /// The blue component.
    pub b: ComponentTy,
}

impl<T: Copy> ColorType for EncodedBt2100PQ<T> {
    type ComponentTy = T;

    const SPACE: Spaces = Spaces::EncodedBt2100PQ;

    const NUM_COMPONENTS: usize = 3;

    open spec fn components(&self) -> Seq<T> {
        seq![self.r, self.g, self.b]
    }

    open spec fn from_components(s: Seq<T>) -> Self {
        EncodedBt2100PQ { r: s[0], g: s[1], b: s[2] }
    }

    proof fn lemma_components(c: Self) {
    }

    proof fn lemma_from_components(s: Seq<T>) {
        assert(Self::from_components(s).components() =~= s);
    }

    fn component(&self, i: usize) -> (r: &T) {
        if i == 0 {
            &self.r
        } else if i == 1 {
            &self.g
        } else {
            &self.b
        }
    }

    fn component_mut(&mut self, i: usize) -> (r: &mut T) {
        if i == 0 {
            &mut self.r
        } else if i == 1 {
            &mut self.g
        } else {
            &mut self.b
        }
    }
}

impl<T: Copy> BaseColor for EncodedBt2100PQ<T> {
    proof fn lemma_space_components() {
    }
}

impl<T: Copy> From<[T; 3]> for EncodedBt2100PQ<T> {
    fn from(a: [T; 3]) -> EncodedBt2100PQ<T> {
        EncodedBt2100PQ { r: a[0], g: a[1], b: a[2] }
    }
}

impl<T: Copy> vstd::std_specs::convert::FromSpecImpl<[T; 3]> for EncodedBt2100PQ<T> {
    open spec fn obeys_from_spec() -> bool {
        true
    }

    open spec fn from_spec(a: [T; 3]) -> EncodedBt2100PQ<T> {
        <EncodedBt2100PQ<T> as ColorType>::from_components(a@)
    }
}

impl<T: Copy> Into<[T; 3]> for EncodedBt2100PQ<T> {
    fn into(self) -> [T; 3] {
        [self.r, self.g, self.b]
    }
}

impl<T: Copy> vstd::std_specs::convert::IntoSpecImpl<[T; 3]> for EncodedBt2100PQ<T> {
    open spec fn obeys_into_spec() -> bool {
        true
    }

    open spec fn into_spec(self) -> [T; 3] {
        [self.r, self.g, self.b]
    }
}

impl<T: Copy> From<Alpha<EncodedBt2100PQ<T>>> for EncodedBt2100PQ<T> {
    fn from(col_alpha: Alpha<EncodedBt2100PQ<T>>) -> EncodedBt2100PQ<T> {
        col_alpha.color
    }
}

impl<T: Copy> vstd::std_specs::convert::FromSpecImpl<Alpha<EncodedBt2100PQ<T>>> for EncodedBt2100PQ<T> {
    open spec fn obeys_from_spec() -> bool {
        true
    }

    open spec fn from_spec(col_alpha: Alpha<EncodedBt2100PQ<T>>) -> EncodedBt2100PQ<T> {
        col_alpha.color
    }
}

impl<T: Copy> From<[T; 4]> for Alpha<EncodedBt2100PQ<T>> {
    fn from(a: [T; 4]) -> Alpha<EncodedBt2100PQ<T>> {
        Alpha { color: EncodedBt2100PQ { r: a[0], g: a[1], b: a[2] }, alpha: a[3] }
    }
}

impl<T: Copy> vstd::std_specs::convert::FromSpecImpl<[T; 4]> for Alpha<EncodedBt2100PQ<T>> {
    open spec fn obeys_from_spec() -> bool {
        true
    }

    open spec fn from_spec(a: [T; 4]) -> Alpha<EncodedBt2100PQ<T>> {
        <Alpha<EncodedBt2100PQ<T>> as ColorType>::from_components(a@)
    }
}

impl<T: Copy> Into<[T; 4]> for Alpha<EncodedBt2100PQ<T>> {
    fn into(self) -> [T; 4] {
        [self.color.r, self.color.g, self.color.b, self.alpha]
    }
}

impl<T: Copy> vstd::std_specs::convert::IntoSpecImpl<[T; 4]> for Alpha<EncodedBt2100PQ<T>> {
    open spec fn obeys_into_spec() -> bool {
        true
    }

    open spec fn into_spec(self) -> [T; 4] {
        [self.color.r, self.color.g, self.color.b, self.alpha]
    }
}

impl<T: Copy> From<PremultipliedAlpha<EncodedBt2100PQ<T>>> for EncodedBt2100PQ<T> {
    fn from(col_alpha: PremultipliedAlpha<EncodedBt2100PQ<T>>) -> EncodedBt2100PQ<T> {
        col_alpha.color
    }
}

impl<T: Copy> vstd::std_specs::convert::FromSpecImpl<PremultipliedAlpha<EncodedBt2100PQ<T>>> for EncodedBt2100PQ<T> {
    open spec fn obeys_from_spec() -> bool {
        true
    }

    open spec fn from_spec(col_alpha: PremultipliedAlpha<EncodedBt2100PQ<T>>) -> EncodedBt2100PQ<T> {
        col_alpha.color
    }
}

impl<T: Copy> From<[T; 4]> for PremultipliedAlpha<EncodedBt2100PQ<T>> {
    fn from(a: [T; 4]) -> PremultipliedAlpha<EncodedBt2100PQ<T>> {
        PremultipliedAlpha { color: EncodedBt2100PQ { r: a[0], g: a[1], b: a[2] }, alpha: a[3] }
    }
}

impl<T: Copy> vstd::std_specs::convert::FromSpecImpl<[T; 4]> for PremultipliedAlpha<EncodedBt2100PQ<T>> {
    open spec fn obeys_from_spec() -> bool {
        true
    }

    open spec fn from_spec(a: [T; 4]) -> PremultipliedAlpha<EncodedBt2100PQ<T>> {
        <PremultipliedAlpha<EncodedBt2100PQ<T>> as ColorType>::from_components(a@)
    }
}

impl<T: Copy> Into<[T; 4]> for PremultipliedAlpha<EncodedBt2100PQ<T>> {
    fn into(self) -> [T; 4] {
        [self.color.r, self.color.g, self.color.b, self.alpha]
    }
}

impl<T: Copy> vstd::std_specs::convert::IntoSpecImpl<[T; 4]> for PremultipliedAlpha<EncodedBt2100PQ<T>> {
    open spec fn obeys_into_spec() -> bool {
        true
    }

    open spec fn into_spec(self) -> [T; 4] {
        [self.color.r, self.color.g, self.color.b, self.alpha]
    }
}

/// A color in the encoded BT.2100 color space with HLG (Hybrid Log-Gamma)
/// transfer function.
///
/// This color space uses the BT.2020 primaries and D65 white point and
/// the HLG transfer function. It is nonlinear.
#[derive(Clone, Copy, Debug, Hash, PartialEq, Eq, PartialOrd, Ord, Structural)]
pub struct EncodedBt2100HLG<ComponentTy> {
    /// The red component.
    pub r: ComponentTy,
    /// The green component.
    pub g: ComponentTy,
    /// The blue component.
    pub b: ComponentTy,
}

impl<T: Copy> ColorType for EncodedBt2100HLG<T> {
    type ComponentTy = T;

    const SPACE: Spaces = Spaces::EncodedBt2100HLG;

    const NUM_COMPONENTS: usize = 3;

    open spec fn components(&self) -> Seq<T> {
        seq![self.r, self.g, self.b]
    }

    open spec fn from_components(s: Seq<T>) -> Self {
        EncodedBt2100HLG { r: s[0], g: s[1], b: s[2] }
    }

    proof fn lemma_components(c: Self) {
    }

    proof fn lemma_from_components(s: Seq<T>) {
        assert(Self::from_components(s).components() =~= s);
    }

    fn component(&self, i: usize) -> (r: &T) {
        if i == 0 {
            &self.r
        } else if i == 1 {
            &self.g
        } else {
            &self.b
        }
    }

    fn component_mut(&mut self, i: usize) -> (r: &mut T) {
        if i == 0 {
            &mut self.r
        } else if i == 1 {
            &mut self.g
        } else {
            &mut self.b
        }
    }
}

impl<T: Copy> BaseColor for EncodedBt2100HLG<T> {
    proof fn lemma_space_components() {
    }
}

impl<T: Copy> From<[T; 3]> for EncodedBt2100HLG<T> {
    fn from(a: [T; 3]) -> EncodedBt2100HLG<T> {
        EncodedBt2100HLG { r: a[0], g: a[1], b: a[2] }
    }
}

impl<T: Copy> vstd::std_specs::convert::FromSpecImpl<[T; 3]> for EncodedBt2100HLG<T> {
    open spec fn obeys_from_spec() -> bool {
        true
    }

    open spec fn from_spec(a: [T; 3]) -> EncodedBt2100HLG<T> {
        <EncodedBt2100HLG<T> as ColorType>::from_components(a@)
    }
}

impl<T: Copy> Into<[T; 3]> for EncodedBt2100HLG<T> {
    fn into(self) -> [T; 3] {
        [self.r, self.g, self.b]
    }
}

impl<T: Copy> vstd::std_specs::convert::IntoSpecImpl<[T; 3]> for EncodedBt2100HLG<T> {
    open spec fn obeys_into_spec() -> bool {
        true
    }

    open spec fn into_spec(self) -> [T; 3] {
        [self.r, self.g, self.b]
    }
}

impl<T: Copy> From<Alpha<EncodedBt2100HLG<T>>> for EncodedBt2100HLG<T> {
    fn from(col_alpha: Alpha<EncodedBt2100HLG<T>>) -> EncodedBt2100HLG<T> {
        col_alpha.color
    }
}

impl<T: Copy> vstd::std_specs::convert::FromSpecImpl<Alpha<EncodedBt2100HLG<T>>> for EncodedBt2100HLG<T> {
    open spec fn obeys_from_spec() -> bool {
        true
    }

    open spec fn from_spec(col_alpha: Alpha<EncodedBt2100HLG<T>>) -> EncodedBt2100HLG<T> {
        col_alpha.color
    }
}

impl<T: Copy> From<[T; 4]> for Alpha<EncodedBt2100HLG<T>> {
    fn from(a: [T; 4]) -> Alpha<EncodedBt2100HLG<T>> {
        Alpha { color: EncodedBt2100HLG { r: a[0], g: a[1], b: a[2] }, alpha: a[3] }
    }
}

impl<T: Copy> vstd::std_specs::convert::FromSpecImpl<[T; 4]> for Alpha<EncodedBt2100HLG<T>> {
    open spec fn obeys_from_spec() -> bool {
        true
    }

    open spec fn from_spec(a: [T; 4]) -> Alpha<EncodedBt2100HLG<T>> {
        <Alpha<EncodedBt2100HLG<T>> as ColorType>::from_components(a@)
    }
}

impl<T: Copy> Into<[T; 4]> for Alpha<EncodedBt2100HLG<T>> {
    fn into(self) -> [T; 4] {
        [self.color.r, self.color.g, self.color.b, self.alpha]
    }
}

impl<T: Copy> vstd::std_specs::convert::IntoSpecImpl<[T; 4]> for Alpha<EncodedBt2100HLG<T>> {
    open spec fn obeys_into_spec() -> bool {
        true
    }

    open spec fn into_spec(self) -> [T; 4] {
        [self.color.r, self.color.g, self.color.b, self.alpha]
    }
}

impl<T: Copy> From<PremultipliedAlpha<EncodedBt2100HLG<T>>> for EncodedBt2100HLG<T> {
    fn from(col_alpha: PremultipliedAlpha<EncodedBt2100HLG<T>>) -> EncodedBt2100HLG<T> {
        col_alpha.color
    }
}

impl<T: Copy> vstd::std_specs::convert::FromSpecImpl<PremultipliedAlpha<EncodedBt2100HLG<T>>> for EncodedBt2100HLG<T> {
    open spec fn obeys_from_spec() -> bool {
        true
    }

    open spec fn from_spec(col_alpha: PremultipliedAlpha<EncodedBt2100HLG<T>>) -> EncodedBt2100HLG<T> {
        col_alpha.color
    }
}

impl<T: Copy> From<[T; 4]> for PremultipliedAlpha<EncodedBt2100HLG<T>> {
    fn from(a: [T; 4]) -> PremultipliedAlpha<EncodedBt2100HLG<T>> {
        PremultipliedAlpha { color: EncodedBt2100HLG { r: a[0], g: a[1], b: a[2] }, alpha: a[3] }
    }
}

impl<T: Copy> vstd::std_specs::convert::FromSpecImpl<[T; 4]> for PremultipliedAlpha<EncodedBt2100HLG<T>> {
    open spec fn obeys_from_spec() -> bool {
        true
    }

    open spec fn from_spec(a: [T; 4]) -> PremultipliedAlpha<EncodedBt2100HLG<T>> {
        <PremultipliedAlpha<EncodedBt2100HLG<T>> as ColorType>::from_components(a@)
    }
}

impl<T: Copy> Into<[T; 4]> for PremultipliedAlpha<EncodedBt2100HLG<T>> {
    fn into(self) -> [T; 4] {
        [self.color.r, self.color.g, self.color.b, self.alpha]
    }
}

impl<T: Copy> vstd::std_specs::convert::IntoSpecImpl<[T; 4]> for PremultipliedAlpha<EncodedBt2100HLG<T>> {
    open spec fn obeys_into_spec() -> bool {
        true
    }

    open spec fn into_spec(self) -> [T; 4] {
        [self.color.r, self.color.g, self.color.b, self.alpha]
    }
}

/// A color in the ICtCp color space with PQ (Perceptual Quantizer)
/// nonlinearity.
///
/// This color space is based on the BT.2020 primaries and D65 white point,
/// but is not an RGB color space. Instead it is a roughly perceptual color
/// space meant to more efficiently encode HDR content.
#[derive(Clone, Copy, Debug, Hash, PartialEq, Eq, PartialOrd, Ord, Structural)]
pub struct ICtCpPQ<ComponentTy> {
    /// The I (intensity) component.
    pub i: ComponentTy,
    /// The Ct (chroma-tritan) component.
    pub ct: ComponentTy,
    /// The Cp (chroma-protan) component.
    pub cp: ComponentTy,
}

impl<T: Copy> ColorType for ICtCpPQ<T> {
    type ComponentTy = T;

    const SPACE: Spaces = Spaces::ICtCpPQ;

    const NUM_COMPONENTS: usize = 3;

    open spec fn components(&self) -> Seq<T> {
        seq![self.i, self.ct, self.cp]
    }

    open spec fn from_components(s: Seq<T>) -> Self {
        ICtCpPQ { i: s[0], ct: s[1], cp: s[2] }
    }

    proof fn lemma_components(c: Self) {
    }

    proof fn lemma_from_components(s: Seq<T>) {
        assert(Self::from_components(s).components() =~= s);
    }

    fn component(&self, i: usize) -> (r: &T) {
        if i == 0 {
            &self.i
        } else if i == 1 {
            &self.ct
        } else {
            &self.cp
        }
    }

    fn component_mut(&mut self, i: usize) -> (r: &mut T) {
        if i == 0 {
            &mut self.i
        } else if i == 1 {
            &mut self.ct
        } else {
            &mut self.cp
        }
    }
}

impl<T: Copy> BaseColor for ICtCpPQ<T> {
    proof fn lemma_space_components() {
    }
}

impl<T: Copy> From<[T; 3]> for ICtCpPQ<T> {
    fn from(a: [T; 3]) -> ICtCpPQ<T> {
        ICtCpPQ { i: a[0], ct: a[1], cp: a[2] }
    }
}

impl<T: Copy> vstd::std_specs::convert::FromSpecImpl<[T; 3]> for ICtCpPQ<T> {
    open spec fn obeys_from_spec() -> bool {
        true
    }

    open spec fn from_spec(a: [T; 3]) -> ICtCpPQ<T> {
        <ICtCpPQ<T> as ColorType>::from_components(a@)
    }
}

impl<T: Copy> Into<[T; 3]> for ICtCpPQ<T> {
    fn into(self) -> [T; 3] {
        [self.i, self.ct, self.cp]
    }
}

impl<T: Copy> vstd::std_specs::convert::IntoSpecImpl<[T; 3]> for ICtCpPQ<T> {
    open spec fn obeys_into_spec() -> bool {
        true
    }

    open spec fn into_spec(self) -> [T; 3] {
        [self.i, self.ct, self.cp]
    }
}

impl<T: Copy> From<Alpha<ICtCpPQ<T>>> for ICtCpPQ<T> {
    fn from(col_alpha: Alpha<ICtCpPQ<T>>) -> ICtCpPQ<T> {
        col_alpha.color
    }
}

impl<T: Copy> vstd::std_specs::convert::FromSpecImpl<Alpha<ICtCpPQ<T>>> for ICtCpPQ<T> {
    open spec fn obeys_from_spec() -> bool {
        true
    }

    open spec fn from_spec(col_alpha: Alpha<ICtCpPQ<T>>) -> ICtCpPQ<T> {
        col_alpha.color
    }
}

impl<T: Copy> From<[T; 4]> for Alpha<ICtCpPQ<T>> {
    fn from(a: [T; 4]) -> Alpha<ICtCpPQ<T>> {
        Alpha { color: ICtCpPQ { i: a[0], ct: a[1], cp: a[2] }, alpha: a[3] }
    }
}

impl<T: Copy> vstd::std_specs::convert::FromSpecImpl<[T; 4]> for Alpha<ICtCpPQ<T>> {
    open spec fn obeys_from_spec() -> bool {
        true
    }

    open spec fn from_spec(a: [T; 4]) -> Alpha<ICtCpPQ<T>> {
        <Alpha<ICtCpPQ<T>> as ColorType>::from_components(a@)
    }
}

impl<T: Copy> Into<[T; 4]> for Alpha<ICtCpPQ<T>> {
    fn into(self) -> [T; 4] {
        [self.color.i, self.color.ct, self.color.cp, self.alpha]
    }
}

impl<T: Copy> vstd::std_specs::convert::IntoSpecImpl<[T; 4]> for Alpha<ICtCpPQ<T>> {
    open spec fn obeys_into_spec() -> bool {
        true
    }

    open spec fn into_spec(self) -> [T; 4] {
        [self.color.i, self.color.ct, self.color.cp, self.alpha]
    }
}

impl<T: Copy> From<PremultipliedAlpha<ICtCpPQ<T>>> for ICtCpPQ<T> {
    fn from(col_alpha: PremultipliedAlpha<ICtCpPQ<T>>) -> ICtCpPQ<T> {
        col_alpha.color
    }
}

impl<T: Copy> vstd::std_specs::convert::FromSpecImpl<PremultipliedAlpha<ICtCpPQ<T>>> for ICtCpPQ<T> {
    open spec fn obeys_from_spec() -> bool {
        true
    }

    open spec fn from_spec(col_alpha: PremultipliedAlpha<ICtCpPQ<T>>) -> ICtCpPQ<T> {
        col_alpha.color
    }
}

impl<T: Copy> From<[T; 4]> for PremultipliedAlpha<ICtCpPQ<T>> {
    fn from(a: [T; 4]) -> PremultipliedAlpha<ICtCpPQ<T>> {
        PremultipliedAlpha { color: ICtCpPQ { i: a[0], ct: a[1], cp: a[2] }, alpha: a[3] }
    }
}

impl<T: Copy> vstd::std_specs::convert::FromSpecImpl<[T; 4]> for PremultipliedAlpha<ICtCpPQ<T>> {
    open spec fn obeys_from_spec() -> bool {
        true
    }

    open spec fn from_spec(a: [T; 4]) -> PremultipliedAlpha<ICtCpPQ<T>> {
        <PremultipliedAlpha<ICtCpPQ<T>> as ColorType>::from_components(a@)
    }
}

impl<T: Copy> Into<[T; 4]> for PremultipliedAlpha<ICtCpPQ<T>> {
    fn into(self) -> [T; 4] {
        [self.color.i, self.color.ct, self.color.cp, self.alpha]
    }
}

impl<T: Copy> vstd::std_specs::convert::IntoSpecImpl<[T; 4]> for PremultipliedAlpha<ICtCpPQ<T>> {
    open spec fn obeys_into_spec() -> bool {
        true
    }

    open spec fn into_spec(self) -> [T; 4] {
        [self.color.i, self.color.ct, self.color.cp, self.alpha]
    }
}

/// A color in the ICtCp color space with HLG (Hybrid Log-Gamma)
/// nonlinearity.
///
/// This color space is based on the BT.2020 primaries and D65 white point,
/// but is not an RGB color space. Instead it is a roughly perceptual color
/// space meant to more efficiently encode HDR content.
#[derive(Clone, Copy, Debug, Hash, PartialEq, Eq, PartialOrd, Ord, Structural)]
pub struct ICtCpHLG<ComponentTy> {
    /// The I (intensity) component.
    pub i: ComponentTy,
    /// The Ct (chroma-tritan) component.
    pub ct: ComponentTy,
    /// The Cp (chroma-protan) component.
    pub cp: ComponentTy,
}

impl<T: Copy> ColorType for ICtCpHLG<T> {
    type ComponentTy = T;

    const SPACE: Spaces = Spaces::ICtCpHLG;

    const NUM_COMPONENTS: usize = 3;

    open spec fn components(&self) -> Seq<T> {
        seq![self.i, self.ct, self.cp]
    }

    open spec fn from_components(s: Seq<T>) -> Self {
        ICtCpHLG { i: s[0], ct: s[1], cp: s[2] }
    }

    proof fn lemma_components(c: Self) {
    }

    proof fn lemma_from_components(s: Seq<T>) {
        assert(Self::from_components(s).components() =~= s);
    }

    fn component(&self, i: usize) -> (r: &T) {
        if i == 0 {
            &self.i
        } else if i == 1 {
            &self.ct
        } else {
            &self.cp
        }
    }

    fn component_mut(&mut self, i: usize) -> (r: &mut T) {
        if i == 0 {
            &mut self.i
        } else if i == 1 {
            &mut self.ct
        } else {
            &mut self.cp
        }
    }
}

impl<T: Copy> BaseColor for ICtCpHLG<T> {
    proof fn lemma_space_components() {
    }
}

impl<T: Copy> From<[T; 3]> for ICtCpHLG<T> {
    fn from(a: [T; 3]) -> ICtCpHLG<T> {
        ICtCpHLG { i: a[0], ct: a[1], cp: a[2] }
    }
}

impl<T: Copy> vstd::std_specs::convert::FromSpecImpl<[T; 3]> for ICtCpHLG<T> {
    open spec fn obeys_from_spec() -> bool {
        true
    }

    open spec fn from_spec(a: [T; 3]) -> ICtCpHLG<T> {
        <ICtCpHLG<T> as ColorType>::from_components(a@)
    }
}

impl<T: Copy> Into<[T; 3]> for ICtCpHLG<T> {
    fn into(self) -> [T; 3] {
        [self.i, self.ct, self.cp]
    }
}

impl<T: Copy> vstd::std_specs::convert::IntoSpecImpl<[T; 3]> for ICtCpHLG<T> {
    open spec fn obeys_into_spec() -> bool {
        true
    }

    open spec fn into_spec(self) -> [T; 3] {
        [self.i, self.ct, self.cp]
    }
}

impl<T: Copy> From<Alpha<ICtCpHLG<T>>> for ICtCpHLG<T> {
    fn from(col_alpha: Alpha<ICtCpHLG<T>>) -> ICtCpHLG<T> {
        col_alpha.color
    }
}

impl<T: Copy> vstd::std_specs::convert::FromSpecImpl<Alpha<ICtCpHLG<T>>> for ICtCpHLG<T> {
    open spec fn obeys_from_spec() -> bool {
        true
    }

    open spec fn from_spec(col_alpha: Alpha<ICtCpHLG<T>>) -> ICtCpHLG<T> {
        col_alpha.color
    }
}

impl<T: Copy> From<[T; 4]> for Alpha<ICtCpHLG<T>> {
    fn from(a: [T; 4]) -> Alpha<ICtCpHLG<T>> {
        Alpha { color: ICtCpHLG { i: a[0], ct: a[1], cp: a[2] }, alpha: a[3] }
    }
}

impl<T: Copy> vstd::std_specs::convert::FromSpecImpl<[T; 4]> for Alpha<ICtCpHLG<T>> {
    open spec fn obeys_from_spec() -> bool {
        true
    }

    open spec fn from_spec(a: [T; 4]) -> Alpha<ICtCpHLG<T>> {
        <Alpha<ICtCpHLG<T>> as ColorType>::from_components(a@)
    }
}

impl<T: Copy> Into<[T; 4]> for Alpha<ICtCpHLG<T>> {
    fn into(self) -> [T; 4] {
        [self.color.i, self.color.ct, self.color.cp, self.alpha]
    }
}

impl<T: Copy> vstd::std_specs::convert::IntoSpecImpl<[T; 4]> for Alpha<ICtCpHLG<T>> {
    open spec fn obeys_into_spec() -> bool {
        true
    }

    open spec fn into_spec(self) -> [T; 4] {
        [self.color.i, self.color.ct, self.color.cp, self.alpha]
    }
}

impl<T: Copy> From<PremultipliedAlpha<ICtCpHLG<T>>> for ICtCpHLG<T> {
    fn from(col_alpha: PremultipliedAlpha<ICtCpHLG<T>>) -> ICtCpHLG<T> {
        col_alpha.color
    }
}

impl<T: Copy> vstd::std_specs::convert::FromSpecImpl<PremultipliedAlpha<ICtCpHLG<T>>> for ICtCpHLG<T> {
    open spec fn obeys_from_spec() -> bool {
        true
    }

    open spec fn from_spec(col_alpha: PremultipliedAlpha<ICtCpHLG<T>>) -> ICtCpHLG<T> {
        col_alpha.color
    }
}

impl<T: Copy> From<[T; 4]> for PremultipliedAlpha<ICtCpHLG<T>> {
    fn from(a: [T; 4]) -> PremultipliedAlpha<ICtCpHLG<T>> {
        PremultipliedAlpha { color: ICtCpHLG { i: a[0], ct: a[1], cp: a[2] }, alpha: a[3] }
    }
}

impl<T: Copy> vstd::std_specs::convert::FromSpecImpl<[T; 4]> for PremultipliedAlpha<ICtCpHLG<T>> {
    open spec fn obeys_from_spec() -> bool {
        true
    }

    open spec fn from_spec(a: [T; 4]) -> PremultipliedAlpha<ICtCpHLG<T>> {
        <PremultipliedAlpha<ICtCpHLG<T>> as ColorType>::from_components(a@)
    }
}

impl<T: Copy> Into<[T; 4]> for PremultipliedAlpha<ICtCpHLG<T>> {
    fn into(self) -> [T; 4] {
        [self.color.i, self.color.ct, self.color.cp, self.alpha]
    }
}

impl<T: Copy> vstd::std_specs::convert::IntoSpecImpl<[T; 4]> for PremultipliedAlpha<ICtCpHLG<T>> {
    open spec fn obeys_into_spec() -> bool {
        true
    }

    open spec fn into_spec(self) -> [T; 4] {
        [self.color.i, self.color.ct, self.color.cp, self.alpha]
    }
}

} // verus!
