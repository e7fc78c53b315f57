//! Colors in RGB spaces of the sRGB, Rec.709 and P3 families.

use vstd::prelude::*;

use crate::alpha::{Alpha, PremultipliedAlpha};
use crate::color_type::{BaseColor, ColorType};
use crate::space::Spaces;

verus! {

/// A color in the encoded sRGB color space.
///
/// This color space uses the sRGB/Rec.709 primaries, D65 white point,
/// and sRGB transfer functions. The encoded version is nonlinear, with the
/// sRGB OETF, aka "gamma compensation", applied.
#[derive(Clone, Copy, Debug, Hash, PartialEq, Eq, PartialOrd, Ord, Structural)]
pub struct EncodedSrgb<ComponentTy = u8> {
    /// The red component.
    pub r: ComponentTy,
    /// The green component.
    pub g: ComponentTy,
    /// The blue component.
    pub b: ComponentTy,
}

impl<T: Copy> ColorType for EncodedSrgb<T> {
    type ComponentTy = T;

    const SPACE: Spaces = Spaces::EncodedSrgb;

    const NUM_COMPONENTS: usize = 3;

    open spec fn components(&self) -> Seq<T> {
        seq![self.r, self.g, self.b]
    }

    open spec fn from_components(s: Seq<T>) -> Self {
        EncodedSrgb { r: s[0], g: s[1], b: s[2] }
    }

    proof fn lemma_components(c: Self) {
    }

    proof fn lemma_from_components(s: Seq<T>) {
        assert(Self::from_components(s).components() =~= s);
    }

    fn component(&self, i: usize) -> (r: &T) {
        if i == 0 {
            &self.r
        } else if i == 1 {
            &self.g
        } else {
            &self.b
        }
    }

    fn component_mut(&mut self, i: usize) -> (r: &mut T) {
        if i == 0 {
            &mut self.r
        } else if i == 1 {
            &mut self.g
        } else {
            &mut self.b
        }
    }
}

impl<T: Copy> BaseColor for EncodedSrgb<T> {
    proof fn lemma_space_components() {
    }
}

impl<T: Copy> From<[T; 3]> for EncodedSrgb<T> {
    fn from(a: [T; 3]) -> EncodedSrgb<T> {
        EncodedSrgb { r: a[0], g: a[1], b: a[2] }
    }
}

impl<T: Copy> vstd::std_specs::convert::FromSpecImpl<[T; 3]> for EncodedSrgb<T> {
    open spec fn obeys_from_spec() -> bool {
        true
    }

    open spec fn from_spec(a: [T; 3]) -> EncodedSrgb<T> {
        <EncodedSrgb<T> as ColorType>::from_components(a@)
    }
}

impl<T: Copy> Into<[T; 3]> for EncodedSrgb<T> {
    fn into(self) -> [T; 3] {
        [self.r, self.g, self.b]
    }
}

impl<T: Copy> vstd::std_specs::convert::IntoSpecImpl<[T; 3]> for EncodedSrgb<T> {
    open spec fn obeys_into_spec() -> bool {
        true
    }

    open spec fn into_spec(self) -> [T; 3] {
        [self.r, self.g, self.b]
    }
}

impl<T: Copy> From<Alpha<EncodedSrgb<T>>> for EncodedSrgb<T> {
    fn from(col_alpha: Alpha<EncodedSrgb<T>>) -> EncodedSrgb<T> {
        col_alpha.color
    }
}

impl<T: Copy> vstd::std_specs::convert::FromSpecImpl<Alpha<EncodedSrgb<T>>> for EncodedSrgb<T> {
    open spec fn obeys_from_spec() -> bool {
        true
    }

    open spec fn from_spec(col_alpha: Alpha<EncodedSrgb<T>>) -> EncodedSrgb<T> {
        col_alpha.color
    }
}

impl<T: Copy> From<[T; 4]> for Alpha<EncodedSrgb<T>> {
    fn from(a: [T; 4]) -> Alpha<EncodedSrgb<T>> {
        Alpha { color: EncodedSrgb { r: a[0], g: a[1], b: a[2] }, alpha: a[3] }
    }
}

impl<T: Copy> vstd::std_specs::convert::FromSpecImpl<[T; 4]> for Alpha<EncodedSrgb<T>> {
    open spec fn obeys_from_spec() -> bool {
        true
    }

    open spec fn from_spec(a: [T; 4]) -> Alpha<EncodedSrgb<T>> {
        <Alpha<EncodedSrgb<T>> as ColorType>::from_components(a@)
    }
}

impl<T: Copy> Into<[T; 4]> for Alpha<EncodedSrgb<T>> {
    fn into(self) -> [T; 4] {
        [self.color.r, self.color.g, self.color.b, self.alpha]
    }
}

impl<T: Copy> vstd::std_specs::convert::IntoSpecImpl<[T; 4]> for Alpha<EncodedSrgb<T>> {
    open spec fn obeys_into_spec() -> bool {
        true
    }

    open spec fn into_spec(self) -> [T; 4] {
        [self.color.r, self.color.g, self.color.b, self.alpha]
    }
}

impl<T: Copy> From<PremultipliedAlpha<EncodedSrgb<T>>> for EncodedSrgb<T> {
    fn from(col_alpha: PremultipliedAlpha<EncodedSrgb<T>>) -> EncodedSrgb<T> {
        col_alpha.color
    }
}

impl<T: Copy> vstd::std_specs::convert::FromSpecImpl<PremultipliedAlpha<EncodedSrgb<T>>> for EncodedSrgb<T> {
    open spec fn obeys_from_spec() -> bool {
        true
    }

    open spec fn from_spec(col_alpha: PremultipliedAlpha<EncodedSrgb<T>>) -> EncodedSrgb<T> {
        col_alpha.color
    }
}

impl<T: Copy> From<[T; 4]> for PremultipliedAlpha<EncodedSrgb<T>> {
    fn from(a: [T; 4]) -> PremultipliedAlpha<EncodedSrgb<T>> {
        PremultipliedAlpha { color: EncodedSrgb { r: a[0], g: a[1], b: a[2] }, alpha: a[3] }
    }
}

impl<T: Copy> vstd::std_specs::convert::FromSpecImpl<[T; 4]> for PremultipliedAlpha<EncodedSrgb<T>> {
    open spec fn obeys_from_spec() -> bool {
        true
    }

    open spec fn from_spec(a: [T; 4]) -> PremultipliedAlpha<EncodedSrgb<T>> {
        <PremultipliedAlpha<EncodedSrgb<T>> as ColorType>::from_components(a@)
    }
}

impl<T: Copy> Into<[T; 4]> for PremultipliedAlpha<EncodedSrgb<T>> {
    fn into(self) -> [T; 4] {
        [self.color.r, self.color.g, self.color.b, self.alpha]
    }
}

impl<T: Copy> vstd::std_specs::convert::IntoSpecImpl<[T; 4]> for PremultipliedAlpha<EncodedSrgb<T>> {
    open spec fn obeys_into_spec() -> bool {
        true
    }

    open spec fn into_spec(self) -> [T; 4] {
        [self.color.r, self.color.g, self.color.b, self.alpha]
    }
}

/// A color in the linear (decoded) sRGB color space.
///
/// This color space uses the sRGB/Rec.709 primaries, D65 white point,
/// and sRGB transfer functions. This version is linear, with the
/// sRGB EOTF, aka "inverse gamma compensation", applied in order to
/// decode it from [`EncodedSrgb`]
#[derive(Clone, Copy, Debug, Hash, PartialEq, Eq, PartialOrd, Ord, Structural)]
pub struct LinearSrgb<ComponentTy> {
    /// The red component.
    pub r: ComponentTy,
    /// The green component.
    pub g: ComponentTy,
    /// The blue component.
    pub b: ComponentTy,
}

impl<T: Copy> ColorType for LinearSrgb<T> {
    type ComponentTy = T;

    const SPACE: Spaces = Spaces::LinearSrgb;

    const NUM_COMPONENTS: usize = 3;

    open spec fn components(&self) -> Seq<T> {
        seq![self.r, self.g, self.b]
    }

    open spec fn from_components(s: Seq<T>) -> Self {
        LinearSrgb { r: s[0], g: s[1], b: s[2] }
    }

    proof fn lemma_components(c: Self) {
    }

    proof fn lemma_from_components(s: Seq<T>) {
        assert(Self::from_components(s).components() =~= s);
    }

    fn component(&self, i: usize) -> (r: &T) {
        if i == 0 {
            &self.r
        } else if i == 1 {
            &self.g
        } else {
            &self.b
        }
    }

    fn component_mut(&mut self, i: usize) -> (r: &mut T) {
        if i == 0 {
            &mut self.r
        } else if i == 1 {
            &mut self.g
        } else {
            &mut self.b
        }
    }
}

impl<T: Copy> BaseColor for LinearSrgb<T> {
    proof fn lemma_space_components() {
    }
}

impl<T: Copy> From<[T; 3]> for LinearSrgb<T> {
    fn from(a: [T; 3]) -> LinearSrgb<T> {
        LinearSrgb { r: a[0], g: a[1], b: a[2] }
    }
}

impl<T: Copy> vstd::std_specs::convert::FromSpecImpl<[T; 3]> for LinearSrgb<T> {
    open spec fn obeys_from_spec() -> bool {
        true
    }

    open spec fn from_spec(a: [T; 3]) -> LinearSrgb<T> {
        <LinearSrgb<T> as ColorType>::from_components(a@)
    }
}

impl<T: Copy> Into<[T; 3]> for LinearSrgb<T> {
    fn into(self) -> [T; 3] {
        [self.r, self.g, self.b]
    }
}

impl<T: Copy> vstd::std_specs::convert::IntoSpecImpl<[T; 3]> for LinearSrgb<T> {
    open spec fn obeys_into_spec() -> bool {
        true
    }

    open spec fn into_spec(self) -> [T; 3] {
        [self.r, self.g, self.b]
    }
}

impl<T: Copy> From<Alpha<LinearSrgb<T>>> for LinearSrgb<T> {
    fn from(col_alpha: Alpha<LinearSrgb<T>>) -> LinearSrgb<T> {
        col_alpha.color
    }
}

impl<T: Copy> vstd::std_specs::convert::FromSpecImpl<Alpha<LinearSrgb<T>>> for LinearSrgb<T> {
    open spec fn obeys_from_spec() -> bool {
        true
    }

    open spec fn from_spec(col_alpha: Alpha<LinearSrgb<T>>) -> LinearSrgb<T> {
        col_alpha.color
    }
}

impl<T: Copy> From<[T; 4]> for Alpha<LinearSrgb<T>> {
    fn from(a: [T; 4]) -> Alpha<LinearSrgb<T>> {
        Alpha { color: LinearSrgb { r: a[0], g: a[1], b: a[2] }, alpha: a[3] }
    }
}

impl<T: Copy> vstd::std_specs::convert::FromSpecImpl<[T; 4]> for Alpha<LinearSrgb<T>> {
    open spec fn obeys_from_spec() -> bool {
        true
    }

    open spec fn from_spec(a: [T; 4]) -> Alpha<LinearSrgb<T>> {
        <Alpha<LinearSrgb<T>> as ColorType>::from_components(a@)
    }
}

impl<T: Copy> Into<[T; 4]> for Alpha<LinearSrgb<T>> {
    fn into(self) -> [T; 4] {
        [self.color.r, self.color.g, self.color.b, self.alpha]
    }
}

impl<T: Copy> vstd::std_specs::convert::IntoSpecImpl<[T; 4]> for Alpha<LinearSrgb<T>> {
    open spec fn obeys_into_spec() -> bool {
        true
    }

    open spec fn into_spec(self) -> [T; 4] {
        [self.color.r, self.color.g, self.color.b, self.alpha]
    }
}

impl<T: Copy> From<PremultipliedAlpha<LinearSrgb<T>>> for LinearSrgb<T> {
    fn from(col_alpha: PremultipliedAlpha<LinearSrgb<T>>) -> LinearSrgb<T> {
        col_alpha.color
    }
}

impl<T: Copy> vstd::std_specs::convert::FromSpecImpl<PremultipliedAlpha<LinearSrgb<T>>> for LinearSrgb<T> {
    open spec fn obeys_from_spec() -> bool {
        true
    }

    open spec fn from_spec(col_alpha: PremultipliedAlpha<LinearSrgb<T>>) -> LinearSrgb<T> {
        col_alpha.color
    }
}

impl<T: Copy> From<[T; 4]> for PremultipliedAlpha<LinearSrgb<T>> {
    fn from(a: [T; 4]) -> PremultipliedAlpha<LinearSrgb<T>> {
        PremultipliedAlpha { color: LinearSrgb { r: a[0], g: a[1], b: a[2] }, alpha: a[3] }
    }
}

impl<T: Copy> vstd::std_specs::convert::FromSpecImpl<[T; 4]> for PremultipliedAlpha<LinearSrgb<T>> {
    open spec fn obeys_from_spec() -> bool {
        true
    }

    open spec fn from_spec(a: [T; 4]) -> PremultipliedAlpha<LinearSrgb<T>> {
        <PremultipliedAlpha<LinearSrgb<T>> as ColorType>::from_components(a@)
    }
}

impl<T: Copy> Into<[T; 4]> for PremultipliedAlpha<LinearSrgb<T>> {
    fn into(self) -> [T; 4] {
        [self.color.r, self.color.g, self.color.b, self.alpha]
    }
}

impl<T: Copy> vstd::std_specs::convert::IntoSpecImpl<[T; 4]> for PremultipliedAlpha<LinearSrgb<T>> {
    open spec fn obeys_into_spec() -> bool {
        true
    }

    open spec fn into_spec(self) -> [T; 4] {
        [self.color.r, self.color.g, self.color.b, self.alpha]
    }
}

/// A color in the encoded Rec.709/BT.709 color space.
///
/// This color space uses the BT.709 primaries, D65 white point,
/// and BT.601 (reused in BT.709) transfer function. The encoded version is nonlinear, with the
/// BT.601 OETF applied.
#[derive(Clone, Copy, Debug, Hash, PartialEq, Eq, PartialOrd, Ord, Structural)]
pub struct EncodedRec709<ComponentTy = u8> {
    /// The red component.
    pub r: ComponentTy,
    /// The green component.
    pub g: ComponentTy,
    /// The blue component.
    pub b: ComponentTy,
}

impl<T: Copy> ColorType for EncodedRec709<T> {
    type ComponentTy = T;

    const SPACE: Spaces = Spaces::EncodedRec709;

    const NUM_COMPONENTS: usize = 3;

    open spec fn components(&self) -> Seq<T> {
        seq![self.r, self.g, self.b]
    }

    open spec fn from_components(s: Seq<T>) -> Self {
        EncodedRec709 { r: s[0], g: s[1], b: s[2] }
    }

    proof fn lemma_components(c: Self) {
    }

    proof fn lemma_from_components(s: Seq<T>) {
        assert(Self::from_components(s).components() =~= s);
    }

    fn component(&self, i: usize) -> (r: &T) {
        if i == 0 {
            &self.r
        } else if i == 1 {
            &self.g
        } else {
            &self.b
        }
    }

    fn component_mut(&mut self, i: usize) -> (r: &mut T) {
        if i == 0 {
            &mut self.r
        } else if i == 1 {
            &mut self.g
        } else {
            &mut self.b
        }
    }
}

impl<T: Copy> BaseColor for EncodedRec709<T> {
    proof fn lemma_space_components() {
    }
}

impl<T: Copy> From<[T; 3]> for EncodedRec709<T> {
    fn from(a: [T; 3]) -> EncodedRec709<T> {
        EncodedRec709 { r: a[0], g: a[1], b: a[2] }
    }
}

impl<T: Copy> vstd::std_specs::convert::FromSpecImpl<[T; 3]> for EncodedRec709<T> {
    open spec fn obeys_from_spec() -> bool {
        true
    }

    open spec fn from_spec(a: [T; 3]) -> EncodedRec709<T> {
        <EncodedRec709<T> as ColorType>::from_components(a@)
    }
}

impl<T: Copy> Into<[T; 3]> for EncodedRec709<T> {
    fn into(self) -> [T; 3] {
        [self.r, self.g, self.b]
    }
}

impl<T: Copy> vstd::std_specs::convert::IntoSpecImpl<[T; 3]> for EncodedRec709<T> {
    open spec fn obeys_into_spec() -> bool {
        true
    }

    open spec fn into_spec(self) -> [T; 3] {
        [self.r, self.g, self.b]
    }
}

impl<T: Copy> From<Alpha<EncodedRec709<T>>> for EncodedRec709<T> {
    fn from(col_alpha: Alpha<EncodedRec709<T>>) -> EncodedRec709<T> {
        col_alpha.color
    }
}

impl<T: Copy> vstd::std_specs::convert::FromSpecImpl<Alpha<EncodedRec709<T>>> for EncodedRec709<T> {
    open spec fn obeys_from_spec() -> bool {
        true
    }

    open spec fn from_spec(col_alpha: Alpha<EncodedRec709<T>>) -> EncodedRec709<T> {
        col_alpha.color
    }
}

impl<T: Copy> From<[T; 4]> for Alpha<EncodedRec709<T>> {
    fn from(a: [T; 4]) -> Alpha<EncodedRec709<T>> {
        Alpha { color: EncodedRec709 { r: a[0], g: a[1], b: a[2] }, alpha: a[3] }
    }
}

impl<T: Copy> vstd::std_specs::convert::FromSpecImpl<[T; 4]> for Alpha<EncodedRec709<T>> {
    open spec fn obeys_from_spec() -> bool {
        true
    }

    open spec fn from_spec(a: [T; 4]) -> Alpha<EncodedRec709<T>> {
        <Alpha<EncodedRec709<T>> as ColorType>::from_components(a@)
    }
}

impl<T: Copy> Into<[T; 4]> for Alpha<EncodedRec709<T>> {
    fn into(self) -> [T; 4] {
        [self.color.r, self.color.g, self.color.b, self.alpha]
    }
}

impl<T: Copy> vstd::std_specs::convert::IntoSpecImpl<[T; 4]> for Alpha<EncodedRec709<T>> {
    open spec fn obeys_into_spec() -> bool {
        true
    }

    open spec fn into_spec(self) -> [T; 4] {
        [self.color.r, self.color.g, self.color.b, self.alpha]
    }
}

impl<T: Copy> From<PremultipliedAlpha<EncodedRec709<T>>> for EncodedRec709<T> {
    fn from(col_alpha: PremultipliedAlpha<EncodedRec709<T>>) -> EncodedRec709<T> {
        col_alpha.color
    }
}

impl<T: Copy> vstd::std_specs::convert::FromSpecImpl<PremultipliedAlpha<EncodedRec709<T>>> for EncodedRec709<T> {
    open spec fn obeys_from_spec() -> bool {
        true
    }

    open spec fn from_spec(col_alpha: PremultipliedAlpha<EncodedRec709<T>>) -> EncodedRec709<T> {
        col_alpha.color
    }
}

impl<T: Copy> From<[T; 4]> for PremultipliedAlpha<EncodedRec709<T>> {
    fn from(a: [T; 4]) -> PremultipliedAlpha<EncodedRec709<T>> {
        PremultipliedAlpha { color: EncodedRec709 { r: a[0], g: a[1], b: a[2] }, alpha: a[3] }
    }
}

impl<T: Copy> vstd::std_specs::convert::FromSpecImpl<[T; 4]> for PremultipliedAlpha<EncodedRec709<T>> {
    open spec fn obeys_from_spec() -> bool {
        true
    }

    open spec fn from_spec(a: [T; 4]) -> PremultipliedAlpha<EncodedRec709<T>> {
        <PremultipliedAlpha<EncodedRec709<T>> as ColorType>::from_components(a@)
    }
}

impl<T: Copy> Into<[T; 4]> for PremultipliedAlpha<EncodedRec709<T>> {
    fn into(self) -> [T; 4] {
        [self.color.r, self.color.g, self.color.b, self.alpha]
    }
}

impl<T: Copy> vstd::std_specs::convert::IntoSpecImpl<[T; 4]> for PremultipliedAlpha<EncodedRec709<T>> {
    open spec fn obeys_into_spec() -> bool {
        true
    }

    open spec fn into_spec(self) -> [T; 4] {
        [self.color.r, self.color.g, self.color.b, self.alpha]
    }
}

/// A color in the Rec.709/BT.709 color space.
///
/// This color space uses the BT.709 primaries, D65 white point,
/// and BT.601 (reused in BT.709) transfer function. This version is linear, without the
/// BT.601 OETF applied.
#[derive(Clone, Copy, Debug, Hash, PartialEq, Eq, PartialOrd, Ord, Structural)]
pub struct Rec709<ComponentTy> {
    /// The red component.
    pub r: ComponentTy,
    /// The green component.
    pub g: ComponentTy,
    /// The blue component.
    pub b: ComponentTy,
}

impl<T: Copy> ColorType for Rec709<T> {
    type ComponentTy = T;

    const SPACE: Spaces = Spaces::Rec709;

    const NUM_COMPONENTS: usize = 3;

    open spec fn components(&self) -> Seq<T> {
        seq![self.r, self.g, self.b]
    }

    open spec fn from_components(s: Seq<T>) -> Self {
        Rec709 { r: s[0], g: s[1], b: s[2] }
    }

    proof fn lemma_components(c: Self) {
    }

    proof fn lemma_from_components(s: Seq<T>) {
        assert(Self::from_components(s).components() =~= s);
    }

    fn component(&self, i: usize) -> (r: &T) {
        if i == 0 {
            &self.r
        } else if i == 1 {
            &self.g
        } else {
            &self.b
        }
    }

    fn component_mut(&mut self, i: usize) -> (r: &mut T) {
        if i == 0 {
            &mut self.r
        } else if i == 1 {
            &mut self.g
        } else {
            &mut self.b
        }
    }
}

impl<T: Copy> BaseColor for Rec709<T> {
    proof fn lemma_space_components() {
    }
}

impl<T: Copy> From<[T; 3]> for Rec709<T> {
    fn from(a: [T; 3]) -> Rec709<T> {
        Rec709 { r: a[0], g: a[1], b: a[2] }
    }
}

impl<T: Copy> vstd::std_specs::convert::FromSpecImpl<[T; 3]> for Rec709<T> {
    open spec fn obeys_from_spec() -> bool {
        true
    }

    open spec fn from_spec(a: [T; 3]) -> Rec709<T> {
        <Rec709<T> as ColorType>::from_components(a@)
    }
}

impl<T: Copy> Into<[T; 3]> for Rec709<T> {
    fn into(self) -> [T; 3] {
        [self.r, self.g, self.b]
    }
}

impl<T: Copy> vstd::std_specs::convert::IntoSpecImpl<[T; 3]> for Rec709<T> {
    open spec fn obeys_into_spec() -> bool {
        true
    }

    open spec fn into_spec(self) -> [T; 3] {
        [self.r, self.g, self.b]
    }
}

impl<T: Copy> From<Alpha<Rec709<T>>> for Rec709<T> {
    fn from(col_alpha: Alpha<Rec709<T>>) -> Rec709<T> {
        col_alpha.color
    }
}

impl<T: Copy> vstd::std_specs::convert::FromSpecImpl<Alpha<Rec709<T>>> for Rec709<T> {
    open spec fn obeys_from_spec() -> bool {
        true
    }

    open spec fn from_spec(col_alpha: Alpha<Rec709<T>>) -> Rec709<T> {
        col_alpha.color
    }
}

impl<T: Copy> From<[T; 4]> for Alpha<Rec709<T>> {
    fn from(a: [T; 4]) -> Alpha<Rec709<T>> {
        Alpha { color: Rec709 { r: a[0], g: a[1], b: a[2] }, alpha: a[3] }
    }
}

impl<T: Copy> vstd::std_specs::convert::FromSpecImpl<[T; 4]> for Alpha<Rec709<T>> {
    open spec fn obeys_from_spec() -> bool {
        true
    }

    open spec fn from_spec(a: [T; 4]) -> Alpha<Rec709<T>> {
        <Alpha<Rec709<T>> as ColorType>::from_components(a@)
    }
}

impl<T: Copy> Into<[T; 4]> for Alpha<Rec709<T>> {
    fn into(self) -> [T; 4] {
        [self.color.r, self.color.g, self.color.b, self.alpha]
    }
}

impl<T: Copy> vstd::std_specs::convert::IntoSpecImpl<[T; 4]> for Alpha<Rec709<T>> {
    open spec fn obeys_into_spec() -> bool {
        true
    }

    open spec fn into_spec(self) -> [T; 4] {
        [self.color.r, self.color.g, self.color.b, self.alpha]
    }
}

impl<T: Copy> From<PremultipliedAlpha<Rec709<T>>> for Rec709<T> {
    fn from(col_alpha: PremultipliedAlpha<Rec709<T>>) -> Rec709<T> {
        col_alpha.color
    }
}

impl<T: Copy> vstd::std_specs::convert::FromSpecImpl<PremultipliedAlpha<Rec709<T>>> for Rec709<T> {
    open spec fn obeys_from_spec() -> bool {
        true
    }

    open spec fn from_spec(col_alpha: PremultipliedAlpha<Rec709<T>>) -> Rec709<T> {
        col_alpha.color
    }
}

impl<T: Copy> From<[T; 4]> for PremultipliedAlpha<Rec709<T>> {
    fn from(a: [T; 4]) -> PremultipliedAlpha<Rec709<T>> {
        PremultipliedAlpha { color: Rec709 { r: a[0], g: a[1], b: a[2] }, alpha: a[3] }
    }
}

impl<T: Copy> vstd::std_specs::convert::FromSpecImpl<[T; 4]> for PremultipliedAlpha<Rec709<T>> {
    open spec fn obeys_from_spec() -> bool {
        true
    }

    open spec fn from_spec(a: [T; 4]) -> PremultipliedAlpha<Rec709<T>> {
        <PremultipliedAlpha<Rec709<T>> as ColorType>::from_components(a@)
    }
}

impl<T: Copy> Into<[T; 4]> for PremultipliedAlpha<Rec709<T>> {
    fn into(self) -> [T; 4] {
        [self.color.r, self.color.g, self.color.b, self.alpha]
    }
}

impl<T: Copy> vstd::std_specs::convert::IntoSpecImpl<[T; 4]> for PremultipliedAlpha<Rec709<T>> {
    open spec fn obeys_into_spec() -> bool {
        true
    }

    open spec fn into_spec(self) -> [T; 4] {
        [self.color.r, self.color.g, self.color.b, self.alpha]
    }
}

/// A color in the Display P3 (aka P3 D65) color space.
///
/// This color space uses the P3 primaries and D65 white point
/// and sRGB transfer functions. This version is linear,
/// without the sRGB OETF applied.
#[derive(Clone, Copy, Debug, Hash, PartialEq, Eq, PartialOrd, Ord, Structural)]
pub struct DisplayP3<ComponentTy> {
    /// The red component.
    pub r: ComponentTy,
    /// The green component.
    pub g: ComponentTy,
    /// The blue component.
    pub b: ComponentTy,
}

impl<T: Copy> ColorType for DisplayP3<T> {
    type ComponentTy = T;

    const SPACE: Spaces = Spaces::DisplayP3;

    const NUM_COMPONENTS: usize = 3;

    open spec fn components(&self) -> Seq<T> {
        seq![self.r, self.g, self.b]
    }

    open spec fn from_components(s: Seq<T>) -> Self {
        DisplayP3 { r: s[0], g: s[1], b: s[2] }
    }

    proof fn lemma_components(c: Self) {
    }

    proof fn lemma_from_components(s: Seq<T>) {
        assert(Self::from_components(s).components() =~= s);
    }

    fn component(&self, i: usize) -> (r: &T) {
        if i == 0 {
            &self.r
        } else if i == 1 {
            &self.g
        } else {
            &self.b
        }
    }

    fn component_mut(&mut self, i: usize) -> (r: &mut T) {
        if i == 0 {
            &mut self.r
        } else if i == 1 {
            &mut self.g
        } else {
            &mut self.b
        }
    }
}

impl<T: Copy> BaseColor for DisplayP3<T> {
    proof fn lemma_space_components() {
    }
}

impl<T: Copy> From<[T; 3]> for DisplayP3<T> {
    fn from(a: [T; 3]) -> DisplayP3<T> {
        DisplayP3 { r: a[0], g: a[1], b: a[2] }
    }
}

impl<T: Copy> vstd::std_specs::convert::FromSpecImpl<[T; 3]> for DisplayP3<T> {
    open spec fn obeys_from_spec() -> bool {
        true
    }

    open spec fn from_spec(a: [T; 3]) -> DisplayP3<T> {
        <DisplayP3<T> as ColorType>::from_components(a@)
    }
}

impl<T: Copy> Into<[T; 3]> for DisplayP3<T> {
    fn into(self) -> [T; 3] {
        [self.r, self.g, self.b]
    }
}

impl<T: Copy> vstd::std_specs::convert::IntoSpecImpl<[T; 3]> for DisplayP3<T> {
    open spec fn obeys_into_spec() -> bool {
        true
    }

    open spec fn into_spec(self) -> [T; 3] {
        [self.r, self.g, self.b]
    }
}

impl<T: Copy> From<Alpha<DisplayP3<T>>> for DisplayP3<T> {
    fn from(col_alpha: Alpha<DisplayP3<T>>) -> DisplayP3<T> {
        col_alpha.color
    }
}

impl<T: Copy> vstd::std_specs::convert::FromSpecImpl<Alpha<DisplayP3<T>>> for DisplayP3<T> {
    open spec fn obeys_from_spec() -> bool {
        true
    }

    open spec fn from_spec(col_alpha: Alpha<DisplayP3<T>>) -> DisplayP3<T> {
        col_alpha.color
    }
}

impl<T: Copy> From<[T; 4]> for Alpha<DisplayP3<T>> {
    fn from(a: [T; 4]) -> Alpha<DisplayP3<T>> {
        Alpha { color: DisplayP3 { r: a[0], g: a[1], b: a[2] }, alpha: a[3] }
    }
}

impl<T: Copy> vstd::std_specs::convert::FromSpecImpl<[T; 4]> for Alpha<DisplayP3<T>> {
    open spec fn obeys_from_spec() -> bool {
        true
    }

    open spec fn from_spec(a: [T; 4]) -> Alpha<DisplayP3<T>> {
        <Alpha<DisplayP3<T>> as ColorType>::from_components(a@)
    }
}

impl<T: Copy> Into<[T; 4]> for Alpha<DisplayP3<T>> {
    fn into(self) -> [T; 4] {
        [self.color.r, self.color.g, self.color.b, self.alpha]
    }
}

impl<T: Copy> vstd::std_specs::convert::IntoSpecImpl<[T; 4]> for Alpha<DisplayP3<T>> {
    open spec fn obeys_into_spec() -> bool {
        true
    }

    open spec fn into_spec(self) -> [T; 4] {
        [self.color.r, self.color.g, self.color.b, self.alpha]
    }
}

impl<T: Copy> From<PremultipliedAlpha<DisplayP3<T>>> for DisplayP3<T> {
    fn from(col_alpha: PremultipliedAlpha<DisplayP3<T>>) -> DisplayP3<T> {
        col_alpha.color
    }
}

impl<T: Copy> vstd::std_specs::convert::FromSpecImpl<PremultipliedAlpha<DisplayP3<T>>> for DisplayP3<T> {
    open spec fn obeys_from_spec() -> bool {
        true
    }

    open spec fn from_spec(col_alpha: PremultipliedAlpha<DisplayP3<T>>) -> DisplayP3<T> {
        col_alpha.color
    }
}

impl<T: Copy> From<[T; 4]> for PremultipliedAlpha<DisplayP3<T>> {
    fn from(a: [T; 4]) -> PremultipliedAlpha<DisplayP3<T>> {
        PremultipliedAlpha { color: DisplayP3 { r: a[0], g: a[1], b: a[2] }, alpha: a[3] }
    }
}

impl<T: Copy> vstd::std_specs::convert::FromSpecImpl<[T; 4]> for PremultipliedAlpha<DisplayP3<T>> {
    open spec fn obeys_from_spec() -> bool {
        true
    }

    open spec fn from_spec(a: [T; 4]) -> PremultipliedAlpha<DisplayP3<T>> {
        <PremultipliedAlpha<DisplayP3<T>> as ColorType>::from_components(a@)
    }
}

impl<T: Copy> Into<[T; 4]> for PremultipliedAlpha<DisplayP3<T>> {
    fn into(self) -> [T; 4] {
        [self.color.r, self.color.g, self.color.b, self.alpha]
    }
}

impl<T: Copy> vstd::std_specs::convert::IntoSpecImpl<[T; 4]> for PremultipliedAlpha<DisplayP3<T>> {
    open spec fn obeys_into_spec() -> bool {
        true
    }

    open spec fn into_spec(self) -> [T; 4] {
        [self.color.r, self.color.g, self.color.b, self.alpha]
    }
}

/// A color in the Display P3 (aka P3 D65) color space.
///
/// This color space uses the P3 primaries and D65 white point
/// and sRGB transfer functions. This encoded version is nonlinear,
/// with the sRGB OETF applied.
#[derive(Clone, Copy, Debug, Hash, PartialEq, Eq, PartialOrd, Ord, Structural)]
pub struct EncodedDisplayP3<ComponentTy = u8> {
    /// The red component.
    pub r: ComponentTy,
    /// The green component.
    pub g: ComponentTy,
    /// The blue component.
    pub b: ComponentTy,
}

impl<T: Copy> ColorType for EncodedDisplayP3<T> {
    type ComponentTy = T;

    const SPACE: Spaces = Spaces::EncodedDisplayP3;

    const NUM_COMPONENTS: usize = 3;

    open spec fn components(&self) -> Seq<T> {
        seq![self.r, self.g, self.b]
    }

    open spec fn from_components(s: Seq<T>) -> Self {
        EncodedDisplayP3 { r: s[0], g: s[1], b: s[2] }
    }

    proof fn lemma_components(c: Self) {
    }

    proof fn lemma_from_components(s: Seq<T>) {
        assert(Self::from_components(s).components() =~= s);
    }

    fn component(&self, i: usize) -> (r: &T) {
        if i == 0 {
            &self.r
        } else if i == 1 {
            &self.g
        } else {
            &self.b
        }
    }

    fn component_mut(&mut self, i: usize) -> (r: &mut T) {
        if i == 0 {
            &mut self.r
        } else if i == 1 {
            &mut self.g
        } else {
            &mut self.b
        }
    }
}

impl<T: Copy> BaseColor for EncodedDisplayP3<T> {
    proof fn lemma_space_components() {
    }
}

impl<T: Copy> From<[T; 3]> for EncodedDisplayP3<T> {
    fn from(a: [T; 3]) -> EncodedDisplayP3<T> {
        EncodedDisplayP3 { r: a[0], g: a[1], b: a[2] }
    }
}

impl<T: Copy> vstd::std_specs::convert::FromSpecImpl<[T; 3]> for EncodedDisplayP3<T> {
    open spec fn obeys_from_spec() -> bool {
        true
    }

    open spec fn from_spec(a: [T; 3]) -> EncodedDisplayP3<T> {
        <EncodedDisplayP3<T> as ColorType>::from_components(a@)
    }
}

impl<T: Copy> Into<[T; 3]> for EncodedDisplayP3<T> {
    fn into(self) -> [T; 3] {
        [self.r, self.g, self.b]
    }
}

impl<T: Copy> vstd::std_specs::convert::IntoSpecImpl<[T; 3]> for EncodedDisplayP3<T> {
    open spec fn obeys_into_spec() -> bool {
        true
    }

    open spec fn into_spec(self) -> [T; 3] {
        [self.r, self.g, self.b]
    }
}

impl<T: Copy> From<Alpha<EncodedDisplayP3<T>>> for EncodedDisplayP3<T> {
    fn from(col_alpha: Alpha<EncodedDisplayP3<T>>) -> EncodedDisplayP3<T> {
        col_alpha.color
    }
}

impl<T: Copy> vstd::std_specs::convert::FromSpecImpl<Alpha<EncodedDisplayP3<T>>> for EncodedDisplayP3<T> {
    open spec fn obeys_from_spec() -> bool {
        true
    }

    open spec fn from_spec(col_alpha: Alpha<EncodedDisplayP3<T>>) -> EncodedDisplayP3<T> {
        col_alpha.color
    }
}

impl<T: Copy> From<[T; 4]> for Alpha<EncodedDisplayP3<T>> {
    fn from(a: [T; 4]) -> Alpha<EncodedDisplayP3<T>> {
        Alpha { color: EncodedDisplayP3 { r: a[0], g: a[1], b: a[2] }, alpha: a[3] }
    }
}

impl<T: Copy> vstd::std_specs::convert::FromSpecImpl<[T; 4]> for Alpha<EncodedDisplayP3<T>> {
    open spec fn obeys_from_spec() -> bool {
        true
    }

    open spec fn from_spec(a: [T; 4]) -> Alpha<EncodedDisplayP3<T>> {
        <Alpha<EncodedDisplayP3<T>> as ColorType>::from_components(a@)
    }
}

impl<T: Copy> Into<[T; 4]> for Alpha<EncodedDisplayP3<T>> {
    fn into(self) -> [T; 4] {
        [self.color.r, self.color.g, self.color.b, self.alpha]
    }
}

impl<T: Copy> vstd::std_specs::convert::IntoSpecImpl<[T; 4]> for Alpha<EncodedDisplayP3<T>> {
    open spec fn obeys_into_spec() -> bool {
        true
    }

    open spec fn into_spec(self) -> [T; 4] {
        [self.color.r, self.color.g, self.color.b, self.alpha]
    }
}

impl<T: Copy> From<PremultipliedAlpha<EncodedDisplayP3<T>>> for EncodedDisplayP3<T> {
    fn from(col_alpha: PremultipliedAlpha<EncodedDisplayP3<T>>) -> EncodedDisplayP3<T> {
        col_alpha.color
    }
}

impl<T: Copy> vstd::std_specs::convert::FromSpecImpl<PremultipliedAlpha<EncodedDisplayP3<T>>> for EncodedDisplayP3<T> {
    open spec fn obeys_from_spec() -> bool {
        true
    }

    open spec fn from_spec(col_alpha: PremultipliedAlpha<EncodedDisplayP3<T>>) -> EncodedDisplayP3<T> {
        col_alpha.color
    }
}

impl<T: Copy> From<[T; 4]> for PremultipliedAlpha<EncodedDisplayP3<T>> {
    fn from(a: [T; 4]) -> PremultipliedAlpha<EncodedDisplayP3<T>> {
        PremultipliedAlpha { color: EncodedDisplayP3 { r: a[0], g: a[1], b: a[2] }, alpha: a[3] }
    }
}

impl<T: Copy> vstd::std_specs::convert::FromSpecImpl<[T; 4]> for PremultipliedAlpha<EncodedDisplayP3<T>> {
    open spec fn obeys_from_spec() -> bool {
        true
    }

    open spec fn from_spec(a: [T; 4]) -> PremultipliedAlpha<EncodedDisplayP3<T>> {
        <PremultipliedAlpha<EncodedDisplayP3<T>> as ColorType>::from_components(a@)
    }
}

impl<T: Copy> Into<[T; 4]> for PremultipliedAlpha<EncodedDisplayP3<T>> {
    fn into(self) -> [T; 4] {
        [self.color.r, self.color.g, self.color.b, self.alpha]
    }
}

impl<T: Copy> vstd::std_specs::convert::IntoSpecImpl<[T; 4]> for PremultipliedAlpha<EncodedDisplayP3<T>> {
    open spec fn obeys_into_spec() -> bool {
        true
    }

    open spec fn into_spec(self) -> [T; 4] {
        [self.color.r, self.color.g, self.color.b, self.alpha]
    }
}

/// A color in the DCI-P3 (aka P3 DCI and P3 D60) color space.
///
/// If you are looking for the P3 which is used on new Apple displays, see
/// [`DisplayP3`] instead.
///
/// This color space uses the P3 primaries and D60 white point.
#[derive(Clone, Copy, Debug, Hash, PartialEq, Eq, PartialOrd, Ord, Structural)]
pub struct DciP3<ComponentTy> {
    /// The red component.
    pub r: ComponentTy,
    /// The green component.
    pub g: ComponentTy,
    /// The blue component.
    pub b: ComponentTy,
}

impl<T: Copy> ColorType for DciP3<T> {
    type ComponentTy = T;

    const SPACE: Spaces = Spaces::DciP3;

    const NUM_COMPONENTS: usize = 3;

    open spec fn components(&self) -> Seq<T> {
        seq![self.r, self.g, self.b]
    }

    open spec fn from_components(s: Seq<T>) -> Self {
        DciP3 { r: s[0], g: s[1], b: s[2] }
    }

    proof fn lemma_components(c: Self) {
    }

    proof fn lemma_from_components(s: Seq<T>) {
        assert(Self::from_components(s).components() =~= s);
    }

    fn component(&self, i: usize) -> (r: &T) {
        if i == 0 {
            &self.r
        } else if i == 1 {
            &self.g
        } else {
            &self.b
        }
    }

    fn component_mut(&mut self, i: usize) -> (r: &mut T) {
        if i == 0 {
            &mut self.r
        } else if i == 1 {
            &mut self.g
        } else {
            &mut self.b
        }
    }
}

impl<T: Copy> BaseColor for DciP3<T> {
    proof fn lemma_space_components() {
    }
}

impl<T: Copy> From<[T; 3]> for DciP3<T> {
    fn from(a: [T; 3]) -> DciP3<T> {
        DciP3 { r: a[0], g: a[1], b: a[2] }
    }
}

impl<T: Copy> vstd::std_specs::convert::FromSpecImpl<[T; 3]> for DciP3<T> {
    open spec fn obeys_from_spec() -> bool {
        true
    }

    open spec fn from_spec(a: [T; 3]) -> DciP3<T> {
        <DciP3<T> as ColorType>::from_components(a@)
    }
}

impl<T: Copy> Into<[T; 3]> for DciP3<T> {
    fn into(self) -> [T; 3] {
        [self.r, self.g, self.b]
    }
}

impl<T: Copy> vstd::std_specs::convert::IntoSpecImpl<[T; 3]> for DciP3<T> {
    open spec fn obeys_into_spec() -> bool {
        true
    }

    open spec fn into_spec(self) -> [T; 3] {
        [self.r, self.g, self.b]
    }
}

impl<T: Copy> From<Alpha<DciP3<T>>> for DciP3<T> {
    fn from(col_alpha: Alpha<DciP3<T>>) -> DciP3<T> {
        col_alpha.color
    }
}

impl<T: Copy> vstd::std_specs::convert::FromSpecImpl<Alpha<DciP3<T>>> for DciP3<T> {
    open spec fn obeys_from_spec() -> bool {
        true
    }

    open spec fn from_spec(col_alpha: Alpha<DciP3<T>>) -> DciP3<T> {
        col_alpha.color
    }
}

impl<T: Copy> From<[T; 4]> for Alpha<DciP3<T>> {
    fn from(a: [T; 4]) -> Alpha<DciP3<T>> {
        Alpha { color: DciP3 { r: a[0], g: a[1], b: a[2] }, alpha: a[3] }
    }
}

impl<T: Copy> vstd::std_specs::convert::FromSpecImpl<[T; 4]> for Alpha<DciP3<T>> {
    open spec fn obeys_from_spec() -> bool {
        true
    }

    open spec fn from_spec(a: [T; 4]) -> Alpha<DciP3<T>> {
        <Alpha<DciP3<T>> as ColorType>::from_components(a@)
    }
}

impl<T: Copy> Into<[T; 4]> for Alpha<DciP3<T>> {
    fn into(self) -> [T; 4] {
        [self.color.r, self.color.g, self.color.b, self.alpha]
    }
}

impl<T: Copy> vstd::std_specs::convert::IntoSpecImpl<[T; 4]> for Alpha<DciP3<T>> {
    open spec fn obeys_into_spec() -> bool {
        true
    }

    open spec fn into_spec(self) -> [T; 4] {
        [self.color.r, self.color.g, self.color.b, self.alpha]
    }
}

impl<T: Copy> From<PremultipliedAlpha<DciP3<T>>> for DciP3<T> {
    fn from(col_alpha: PremultipliedAlpha<DciP3<T>>) -> DciP3<T> {
        col_alpha.color
    }
}

impl<T: Copy> vstd::std_specs::convert::FromSpecImpl<PremultipliedAlpha<DciP3<T>>> for DciP3<T> {
    open spec fn obeys_from_spec() -> bool {
        true
    }

    open spec fn from_spec(col_alpha: PremultipliedAlpha<DciP3<T>>) -> DciP3<T> {
        col_alpha.color
    }
}

impl<T: Copy> From<[T; 4]> for PremultipliedAlpha<DciP3<T>> {
    fn from(a: [T; 4]) -> PremultipliedAlpha<DciP3<T>> {
        PremultipliedAlpha { color: DciP3 { r: a[0], g: a[1], b: a[2] }, alpha: a[3] }
    }
}

impl<T: Copy> vstd::std_specs::convert::FromSpecImpl<[T; 4]> for PremultipliedAlpha<DciP3<T>> {
    open spec fn obeys_from_spec() -> bool {
        true
    }

    open spec fn from_spec(a: [T; 4]) -> PremultipliedAlpha<DciP3<T>> {
        <PremultipliedAlpha<DciP3<T>> as ColorType>::from_components(a@)
    }
}

impl<T: Copy> Into<[T; 4]> for PremultipliedAlpha<DciP3<T>> {
    fn into(self) -> [T; 4] {
        [self.color.r, self.color.g, self.color.b, self.alpha]
    }
}

impl<T: Copy> vstd::std_specs::convert::IntoSpecImpl<[T; 4]> for PremultipliedAlpha<DciP3<T>> {
    open spec fn obeys_into_spec() -> bool {
        true
    }

    open spec fn into_spec(self) -> [T; 4] {
        [self.color.r, self.color.g, self.color.b, self.alpha]
    }
}

} // verus!
