//! Colors in the luma/chroma spaces of the YCbCr and YUV families.

use vstd::prelude::*;

use crate::alpha::{Alpha, PremultipliedAlpha};
use crate::color_type::{BaseColor, ColorType};
use crate::space::Spaces;

verus! {

/// A color in the YCbCr color space. See discussion of the difference between YCbCr, YUV, and
/// YPbPr in [YCbCr Wikipedia article](https://en.wikipedia.org/wiki/YCbCr)
///
/// Since YCbCr is a relative color space, it is required to know the RGB space which
/// it was transformed from. We define this as being converted from the LinearSrgb color space.
#[derive(Clone, Copy, Debug, Hash, PartialEq, Eq, PartialOrd, Ord, Structural)]
pub struct YCbCr<ComponentTy = u8> {
    /// The Y (luminance) component.
    pub y: ComponentTy,
    /// The Cb (chroma-blue/yellow) component.
    pub cb: ComponentTy,
    /// The Cr (chroma-red/green) component.
    pub cr: ComponentTy,
}

impl<T: Copy> ColorType for YCbCr<T> {
    type ComponentTy = T;

    const SPACE: Spaces = Spaces::YCbCr;

    const NUM_COMPONENTS: usize = 3;

    open spec fn components(&self) -> Seq<T> {
        seq![self.y, self.cb, self.cr]
    }

    open spec fn from_components(s: Seq<T>) -> Self {
        YCbCr { y: s[0], cb: s[1], cr: s[2] }
    }

    proof fn lemma_components(c: Self) {
    }

    proof fn lemma_from_components(s: Seq<T>) {
        assert(Self::from_components(s).components() =~= s);
    }

    fn component(&self, i: usize) -> (r: &T) {
        if i == 0 {
            &self.y
        } else if i == 1 {
            &self.cb
        } else {
            &self.cr
        }
    }

    fn component_mut(&mut self, i: usize) -> (r: &mut T) {
        if i == 0 {
            &mut self.y
        } else if i == 1 {
            &mut self.cb
        } else {
            &mut self.cr
        }
    }
}

impl<T: Copy> BaseColor for YCbCr<T> {
    proof fn lemma_space_components() {
    }
}

impl<T: Copy> From<[T; 3]> for YCbCr<T> {
    fn from(a: [T; 3]) -> YCbCr<T> {
        YCbCr { y: a[0], cb: a[1], cr: a[2] }
    }
}

impl<T: Copy> vstd::std_specs::convert::FromSpecImpl<[T; 3]> for YCbCr<T> {
    open spec fn obeys_from_spec() -> bool {
        true
    }

    open spec fn from_spec(a: [T; 3]) -> YCbCr<T> {
        <YCbCr<T> as ColorType>::from_components(a@)
    }
}

impl<T: Copy> Into<[T; 3]> for YCbCr<T> {
    fn into(self) -> [T; 3] {
        [self.y, self.cb, self.cr]
    }
}

impl<T: Copy> vstd::std_specs::convert::IntoSpecImpl<[T; 3]> for YCbCr<T> {
    open spec fn obeys_into_spec() -> bool {
        true
    }

    open spec fn into_spec(self) -> [T; 3] {
        [self.y, self.cb, self.cr]
    }
}

impl<T: Copy> From<Alpha<YCbCr<T>>> for YCbCr<T> {
    fn from(col_alpha: Alpha<YCbCr<T>>) -> YCbCr<T> {
        col_alpha.color
    }
}

impl<T: Copy> vstd::std_specs::convert::FromSpecImpl<Alpha<YCbCr<T>>> for YCbCr<T> {
    open spec fn obeys_from_spec() -> bool {
        true
    }

    open spec fn from_spec(col_alpha: Alpha<YCbCr<T>>) -> YCbCr<T> {
        col_alpha.color
    }
}

impl<T: Copy> From<[T; 4]> for Alpha<YCbCr<T>> {
    fn from(a: [T; 4]) -> Alpha<YCbCr<T>> {
        Alpha { color: YCbCr { y: a[0], cb: a[1], cr: a[2] }, alpha: a[3] }
    }
}

impl<T: Copy> vstd::std_specs::convert::FromSpecImpl<[T; 4]> for Alpha<YCbCr<T>> {
    open spec fn obeys_from_spec() -> bool {
        true
    }

    open spec fn from_spec(a: [T; 4]) -> Alpha<YCbCr<T>> {
        <Alpha<YCbCr<T>> as ColorType>::from_components(a@)
    }
}

impl<T: Copy> Into<[T; 4]> for Alpha<YCbCr<T>> {
    fn into(self) -> [T; 4] {
        [self.color.y, self.color.cb, self.color.cr, self.alpha]
    }
}

impl<T: Copy> vstd::std_specs::convert::IntoSpecImpl<[T; 4]> for Alpha<YCbCr<T>> {
    open spec fn obeys_into_spec() -> bool {
        true
    }

    open spec fn into_spec(self) -> [T; 4] {
        [self.color.y, self.color.cb, self.color.cr, self.alpha]
    }
}

impl<T: Copy> From<PremultipliedAlpha<YCbCr<T>>> for YCbCr<T> {
    fn from(col_alpha: PremultipliedAlpha<YCbCr<T>>) -> YCbCr<T> {
        col_alpha.color
    }
}

impl<T: Copy> vstd::std_specs::convert::FromSpecImpl<PremultipliedAlpha<YCbCr<T>>> for YCbCr<T> {
    open spec fn obeys_from_spec() -> bool {
        true
    }

    open spec fn from_spec(col_alpha: PremultipliedAlpha<YCbCr<T>>) -> YCbCr<T> {
        col_alpha.color
    }
}

impl<T: Copy> From<[T; 4]> for PremultipliedAlpha<YCbCr<T>> {
    fn from(a: [T; 4]) -> PremultipliedAlpha<YCbCr<T>> {
        PremultipliedAlpha { color: YCbCr { y: a[0], cb: a[1], cr: a[2] }, alpha: a[3] }
    }
}

impl<T: Copy> vstd::std_specs::convert::FromSpecImpl<[T; 4]> for PremultipliedAlpha<YCbCr<T>> {
    open spec fn obeys_from_spec() -> bool {
        true
    }

    open spec fn from_spec(a: [T; 4]) -> PremultipliedAlpha<YCbCr<T>> {
        <PremultipliedAlpha<YCbCr<T>> as ColorType>::from_components(a@)
    }
}

impl<T: Copy> Into<[T; 4]> for PremultipliedAlpha<YCbCr<T>> {
    fn into(self) -> [T; 4] {
        [self.color.y, self.color.cb, self.color.cr, self.alpha]
    }
}

impl<T: Copy> vstd::std_specs::convert::IntoSpecImpl<[T; 4]> for PremultipliedAlpha<YCbCr<T>> {
    open spec fn obeys_into_spec() -> bool {
        true
    }

    open spec fn into_spec(self) -> [T; 4] {
        [self.color.y, self.color.cb, self.color.cr, self.alpha]
    }
}

/// A color in the Y'CbCr color space. See discussion of the difference between YCbCr, Y'CbCr,
/// YUV, YPbPr, and Y'PbPr in the [YCbCr Wikipedia article](https://en.wikipedia.org/wiki/YCbCr)
///
/// Since Y'CbCr is a relative color space, it is required to know the RGB space which
/// it was transformed from. We define this as being converted from the EncodedSrgb color space.
#[derive(Clone, Copy, Debug, Hash, PartialEq, Eq, PartialOrd, Ord, Structural)]
pub struct YPrimeCbCr<ComponentTy = u8> {
    /// The Y' (luma) component.
    pub y: ComponentTy,
    /// The Cb (chroma-blue/yellow) component.
    pub cb: ComponentTy,
    /// The Cr (chroma-red/green) component.
    pub cr: ComponentTy,
}

impl<T: Copy> ColorType for YPrimeCbCr<T> {
    type ComponentTy = T;

    const SPACE: Spaces = Spaces::YPrimeCbCr;

    const NUM_COMPONENTS: usize = 3;

    open spec fn components(&self) -> Seq<T> {
        seq![self.y, self.cb, self.cr]
    }

    open spec fn from_components(s: Seq<T>) -> Self {
        YPrimeCbCr { y: s[0], cb: s[1], cr: s[2] }
    }

    proof fn lemma_components(c: Self) {
    }

    proof fn lemma_from_components(s: Seq<T>) {
        assert(Self::from_components(s).components() =~= s);
    }

    fn component(&self, i: usize) -> (r: &T) {
        if i == 0 {
            &self.y
        } else if i == 1 {
            &self.cb
        } else {
            &self.cr
        }
    }

    fn component_mut(&mut self, i: usize) -> (r: &mut T) {
        if i == 0 {
            &mut self.y
        } else if i == 1 {
            &mut self.cb
        } else {
            &mut self.cr
        }
    }
}

impl<T: Copy> BaseColor for YPrimeCbCr<T> {
    proof fn lemma_space_components() {
    }
}

impl<T: Copy> From<[T; 3]> for YPrimeCbCr<T> {
    fn from(a: [T; 3]) -> YPrimeCbCr<T> {
        YPrimeCbCr { y: a[0], cb: a[1], cr: a[2] }
    }
}

impl<T: Copy> vstd::std_specs::convert::FromSpecImpl<[T; 3]> for YPrimeCbCr<T> {
    open spec fn obeys_from_spec() -> bool {
        true
    }

    open spec fn from_spec(a: [T; 3]) -> YPrimeCbCr<T> {
        <YPrimeCbCr<T> as ColorType>::from_components(a@)
    }
}

impl<T: Copy> Into<[T; 3]> for YPrimeCbCr<T> {
    fn into(self) -> [T; 3] {
        [self.y, self.cb, self.cr]
    }
}

impl<T: Copy> vstd::std_specs::convert::IntoSpecImpl<[T; 3]> for YPrimeCbCr<T> {
    open spec fn obeys_into_spec() -> bool {
        true
    }

    open spec fn into_spec(self) -> [T; 3] {
        [self.y, self.cb, self.cr]
    }
}

impl<T: Copy> From<Alpha<YPrimeCbCr<T>>> for YPrimeCbCr<T> {
    fn from(col_alpha: Alpha<YPrimeCbCr<T>>) -> YPrimeCbCr<T> {
        col_alpha.color
    }
}

impl<T: Copy> vstd::std_specs::convert::FromSpecImpl<Alpha<YPrimeCbCr<T>>> for YPrimeCbCr<T> {
    open spec fn obeys_from_spec() -> bool {
        true
    }

    open spec fn from_spec(col_alpha: Alpha<YPrimeCbCr<T>>) -> YPrimeCbCr<T> {
        col_alpha.color
    }
}

impl<T: Copy> From<[T; 4]> for Alpha<YPrimeCbCr<T>> {
    fn from(a: [T; 4]) -> Alpha<YPrimeCbCr<T>> {
        Alpha { color: YPrimeCbCr { y: a[0], cb: a[1], cr: a[2] }, alpha: a[3] }
    }
}

impl<T: Copy> vstd::std_specs::convert::FromSpecImpl<[T; 4]> for Alpha<YPrimeCbCr<T>> {
    open spec fn obeys_from_spec() -> bool {
        true
    }

    open spec fn from_spec(a: [T; 4]) -> Alpha<YPrimeCbCr<T>> {
        <Alpha<YPrimeCbCr<T>> as ColorType>::from_components(a@)
    }
}

impl<T: Copy> Into<[T; 4]> for Alpha<YPrimeCbCr<T>> {
    fn into(self) -> [T; 4] {
        [self.color.y, self.color.cb, self.color.cr, self.alpha]
    }
}

impl<T: Copy> vstd::std_specs::convert::IntoSpecImpl<[T; 4]> for Alpha<YPrimeCbCr<T>> {
    open spec fn obeys_into_spec() -> bool {
        true
    }

    open spec fn into_spec(self) -> [T; 4] {
        [self.color.y, self.color.cb, self.color.cr, self.alpha]
    }
}

impl<T: Copy> From<PremultipliedAlpha<YPrimeCbCr<T>>> for YPrimeCbCr<T> {
    fn from(col_alpha: PremultipliedAlpha<YPrimeCbCr<T>>) -> YPrimeCbCr<T> {
        col_alpha.color
    }
}

impl<T: Copy> vstd::std_specs::convert::FromSpecImpl<PremultipliedAlpha<YPrimeCbCr<T>>> for YPrimeCbCr<T> {
    open spec fn obeys_from_spec() -> bool {
        true
    }

    open spec fn from_spec(col_alpha: PremultipliedAlpha<YPrimeCbCr<T>>) -> YPrimeCbCr<T> {
        col_alpha.color
    }
}

impl<T: Copy> From<[T; 4]> for PremultipliedAlpha<YPrimeCbCr<T>> {
    fn from(a: [T; 4]) -> PremultipliedAlpha<YPrimeCbCr<T>> {
        PremultipliedAlpha { color: YPrimeCbCr { y: a[0], cb: a[1], cr: a[2] }, alpha: a[3] }
    }
}

impl<T: Copy> vstd::std_specs::convert::FromSpecImpl<[T; 4]> for PremultipliedAlpha<YPrimeCbCr<T>> {
    open spec fn obeys_from_spec() -> bool {
        true
    }

    open spec fn from_spec(a: [T; 4]) -> PremultipliedAlpha<YPrimeCbCr<T>> {
        <PremultipliedAlpha<YPrimeCbCr<T>> as ColorType>::from_components(a@)
    }
}

impl<T: Copy> Into<[T; 4]> for PremultipliedAlpha<YPrimeCbCr<T>> {
    fn into(self) -> [T; 4] {
        [self.color.y, self.color.cb, self.color.cr, self.alpha]
    }
}

impl<T: Copy> vstd::std_specs::convert::IntoSpecImpl<[T; 4]> for PremultipliedAlpha<YPrimeCbCr<T>> {
    open spec fn obeys_into_spec() -> bool {
        true
    }

    open spec fn into_spec(self) -> [T; 4] {
        [self.color.y, self.color.cb, self.color.cr, self.alpha]
    }
}

/// A color in the YPbPr color space. See discussion of the difference between YCbCr,
/// YUV, YPbPr, and Y'PbPr in the [YCbCr Wikipedia article](https://en.wikipedia.org/wiki/YCbCr)
///
/// Since YPbPr is a relative color space, it is required to know the RGB space which
/// it was transformed from. We define this as being converted from the LinearSrgb color space.
#[derive(Clone, Copy, Debug, Hash, PartialEq, Eq, PartialOrd, Ord, Structural)]
pub struct YPbPr<ComponentTy> {
    /// The Y (luminance) component.
    pub y: ComponentTy,
    /// The Pb (chroma-blue/yellow) component.
    pub pb: ComponentTy,
    /// The Pr (chroma-red/green) component.
    pub pr: ComponentTy,
}

impl<T: Copy> ColorType for YPbPr<T> {
    type ComponentTy = T;

    const SPACE: Spaces = Spaces::YPbPr;

    const NUM_COMPONENTS: usize = 3;

    open spec fn components(&self) -> Seq<T> {
        seq![self.y, self.pb, self.pr]
    }

    open spec fn from_components(s: Seq<T>) -> Self {
        YPbPr { y: s[0], pb: s[1], pr: s[2] }
    }

    proof fn lemma_components(c: Self) {
    }

    proof fn lemma_from_components(s: Seq<T>) {
        assert(Self::from_components(s).components() =~= s);
    }

    fn component(&self, i: usize) -> (r: &T) {
        if i == 0 {
            &self.y
        } else if i == 1 {
            &self.pb
        } else {
            &self.pr
        }
    }

    fn component_mut(&mut self, i: usize) -> (r: &mut T) {
        if i == 0 {
            &mut self.y
        } else if i == 1 {
            &mut self.pb
        } else {
            &mut self.pr
        }
    }
}

impl<T: Copy> BaseColor for YPbPr<T> {
    proof fn lemma_space_components() {
    }
}

impl<T: Copy> From<[T; 3]> for YPbPr<T> {
    fn from(a: [T; 3]) -> YPbPr<T> {
        YPbPr { y: a[0], pb: a[1], pr: a[2] }
    }
}

impl<T: Copy> vstd::std_specs::convert::FromSpecImpl<[T; 3]> for YPbPr<T> {
    open spec fn obeys_from_spec() -> bool {
        true
    }

    open spec fn from_spec(a: [T; 3]) -> YPbPr<T> {
        <YPbPr<T> as ColorType>::from_components(a@)
    }
}

impl<T: Copy> Into<[T; 3]> for YPbPr<T> {
    fn into(self) -> [T; 3] {
        [self.y, self.pb, self.pr]
    }
}

impl<T: Copy> vstd::std_specs::convert::IntoSpecImpl<[T; 3]> for YPbPr<T> {
    open spec fn obeys_into_spec() -> bool {
        true
    }

    open spec fn into_spec(self) -> [T; 3] {
        [self.y, self.pb, self.pr]
    }
}

impl<T: Copy> From<Alpha<YPbPr<T>>> for YPbPr<T> {
    fn from(col_alpha: Alpha<YPbPr<T>>) -> YPbPr<T> {
        col_alpha.color
    }
}

impl<T: Copy> vstd::std_specs::convert::FromSpecImpl<Alpha<YPbPr<T>>> for YPbPr<T> {
    open spec fn obeys_from_spec() -> bool {
        true
    }

    open spec fn from_spec(col_alpha: Alpha<YPbPr<T>>) -> YPbPr<T> {
        col_alpha.color
    }
}

impl<T: Copy> From<[T; 4]> for Alpha<YPbPr<T>> {
    fn from(a: [T; 4]) -> Alpha<YPbPr<T>> {
        Alpha { color: YPbPr { y: a[0], pb: a[1], pr: a[2] }, alpha: a[3] }
    }
}

impl<T: Copy> vstd::std_specs::convert::FromSpecImpl<[T; 4]> for Alpha<YPbPr<T>> {
    open spec fn obeys_from_spec() -> bool {
        true
    }

    open spec fn from_spec(a: [T; 4]) -> Alpha<YPbPr<T>> {
        <Alpha<YPbPr<T>> as ColorType>::from_components(a@)
    }
}

impl<T: Copy> Into<[T; 4]> for Alpha<YPbPr<T>> {
    fn into(self) -> [T; 4] {
        [self.color.y, self.color.pb, self.color.pr, self.alpha]
    }
}

impl<T: Copy> vstd::std_specs::convert::IntoSpecImpl<[T; 4]> for Alpha<YPbPr<T>> {
    open spec fn obeys_into_spec() -> bool {
        true
    }

    open spec fn into_spec(self) -> [T; 4] {
        [self.color.y, self.color.pb, self.color.pr, self.alpha]
    }
}

impl<T: Copy> From<PremultipliedAlpha<YPbPr<T>>> for YPbPr<T> {
    fn from(col_alpha: PremultipliedAlpha<YPbPr<T>>) -> YPbPr<T> {
        col_alpha.color
    }
}

impl<T: Copy> vstd::std_specs::convert::FromSpecImpl<PremultipliedAlpha<YPbPr<T>>> for YPbPr<T> {
    open spec fn obeys_from_spec() -> bool {
        true
    }

    open spec fn from_spec(col_alpha: PremultipliedAlpha<YPbPr<T>>) -> YPbPr<T> {
        col_alpha.color
    }
}

impl<T: Copy> From<[T; 4]> for PremultipliedAlpha<YPbPr<T>> {
    fn from(a: [T; 4]) -> PremultipliedAlpha<YPbPr<T>> {
        PremultipliedAlpha { color: YPbPr { y: a[0], pb: a[1], pr: a[2] }, alpha: a[3] }
    }
}

impl<T: Copy> vstd::std_specs::convert::FromSpecImpl<[T; 4]> for PremultipliedAlpha<YPbPr<T>> {
    open spec fn obeys_from_spec() -> bool {
        true
    }

    open spec fn from_spec(a: [T; 4]) -> PremultipliedAlpha<YPbPr<T>> {
        <PremultipliedAlpha<YPbPr<T>> as ColorType>::from_components(a@)
    }
}

impl<T: Copy> Into<[T; 4]> for PremultipliedAlpha<YPbPr<T>> {
    fn into(self) -> [T; 4] {
        [self.color.y, self.color.pb, self.color.pr, self.alpha]
    }
}

impl<T: Copy> vstd::std_specs::convert::IntoSpecImpl<[T; 4]> for PremultipliedAlpha<YPbPr<T>> {
    open spec fn obeys_into_spec() -> bool {
        true
    }

    open spec fn into_spec(self) -> [T; 4] {
        [self.color.y, self.color.pb, self.color.pr, self.alpha]
    }
}

/// A color in the Y'PbPr color space. See discussion of the difference between YCbCr,
/// YUV, YPbPr, and Y'PbPr in the [YCbCr Wikipedia article](https://en.wikipedia.org/wiki/YCbCr)
///
/// Since Y'PbPr is a relative color space, it is required to know the RGB space which
/// it was transformed from. We define this as being converted from the EncodedSrgb color space.
#[derive(Clone, Copy, Debug, Hash, PartialEq, Eq, PartialOrd, Ord, Structural)]
pub struct YPrimePbPr<ComponentTy> {
    /// The Y' (luma) component.
    pub y: ComponentTy,
    /// The Pb (chroma-blue/yellow) component.
    pub pb: ComponentTy,
    /// The Pr (chroma-red/green) component.
    pub pr: ComponentTy,
}

impl<T: Copy> ColorType for YPrimePbPr<T> {
    type ComponentTy = T;

    const SPACE: Spaces = Spaces::YPrimePbPr;

    const NUM_COMPONENTS: usize = 3;

    open spec fn components(&self) -> Seq<T> {
        seq![self.y, self.pb, self.pr]
    }

    open spec fn from_components(s: Seq<T>) -> Self {
        YPrimePbPr { y: s[0], pb: s[1], pr: s[2] }
    }

    proof fn lemma_components(c: Self) {
    }

    proof fn lemma_from_components(s: Seq<T>) {
        assert(Self::from_components(s).components() =~= s);
    }

    fn component(&self, i: usize) -> (r: &T) {
        if i == 0 {
            &self.y
        } else if i == 1 {
            &self.pb
        } else {
            &self.pr
        }
    }

    fn component_mut(&mut self, i: usize) -> (r: &mut T) {
        if i == 0 {
            &mut self.y
        } else if i == 1 {
            &mut self.pb
        } else {
            &mut self.pr
        }
    }
}

impl<T: Copy> BaseColor for YPrimePbPr<T> {
    proof fn lemma_space_components() {
    }
}

impl<T: Copy> From<[T; 3]> for YPrimePbPr<T> {
    fn from(a: [T; 3]) -> YPrimePbPr<T> {
        YPrimePbPr { y: a[0], pb: a[1], pr: a[2] }
    }
}

impl<T: Copy> vstd::std_specs::convert::FromSpecImpl<[T; 3]> for YPrimePbPr<T> {
    open spec fn obeys_from_spec() -> bool {
        true
    }

    open spec fn from_spec(a: [T; 3]) -> YPrimePbPr<T> {
        <YPrimePbPr<T> as ColorType>::from_components(a@)
    }
}

impl<T: Copy> Into<[T; 3]> for YPrimePbPr<T> {
    fn into(self) -> [T; 3] {
        [self.y, self.pb, self.pr]
    }
}

impl<T: Copy> vstd::std_specs::convert::IntoSpecImpl<[T; 3]> for YPrimePbPr<T> {
    open spec fn obeys_into_spec() -> bool {
        true
    }

    open spec fn into_spec(self) -> [T; 3] {
        [self.y, self.pb, self.pr]
    }
}

impl<T: Copy> From<Alpha<YPrimePbPr<T>>> for YPrimePbPr<T> {
    fn from(col_alpha: Alpha<YPrimePbPr<T>>) -> YPrimePbPr<T> {
        col_alpha.color
    }
}

impl<T: Copy> vstd::std_specs::convert::FromSpecImpl<Alpha<YPrimePbPr<T>>> for YPrimePbPr<T> {
    open spec fn obeys_from_spec() -> bool {
        true
    }

    open spec fn from_spec(col_alpha: Alpha<YPrimePbPr<T>>) -> YPrimePbPr<T> {
        col_alpha.color
    }
}

impl<T: Copy> From<[T; 4]> for Alpha<YPrimePbPr<T>> {
    fn from(a: [T; 4]) -> Alpha<YPrimePbPr<T>> {
        Alpha { color: YPrimePbPr { y: a[0], pb: a[1], pr: a[2] }, alpha: a[3] }
    }
}

impl<T: Copy> vstd::std_specs::convert::FromSpecImpl<[T; 4]> for Alpha<YPrimePbPr<T>> {
    open spec fn obeys_from_spec() -> bool {
        true
    }

    open spec fn from_spec(a: [T; 4]) -> Alpha<YPrimePbPr<T>> {
        <Alpha<YPrimePbPr<T>> as ColorType>::from_components(a@)
    }
}

impl<T: Copy> Into<[T; 4]> for Alpha<YPrimePbPr<T>> {
    fn into(self) -> [T; 4] {
        [self.color.y, self.color.pb, self.color.pr, self.alpha]
    }
}

impl<T: Copy> vstd::std_specs::convert::IntoSpecImpl<[T; 4]> for Alpha<YPrimePbPr<T>> {
    open spec fn obeys_into_spec() -> bool {
        true
    }

    open spec fn into_spec(self) -> [T; 4] {
        [self.color.y, self.color.pb, self.color.pr, self.alpha]
    }
}

impl<T: Copy> From<PremultipliedAlpha<YPrimePbPr<T>>> for YPrimePbPr<T> {
    fn from(col_alpha: PremultipliedAlpha<YPrimePbPr<T>>) -> YPrimePbPr<T> {
        col_alpha.color
    }
}

impl<T: Copy> vstd::std_specs::convert::FromSpecImpl<PremultipliedAlpha<YPrimePbPr<T>>> for YPrimePbPr<T> {
    open spec fn obeys_from_spec() -> bool {
        true
    }

    open spec fn from_spec(col_alpha: PremultipliedAlpha<YPrimePbPr<T>>) -> YPrimePbPr<T> {
        col_alpha.color
    }
}

impl<T: Copy> From<[T; 4]> for PremultipliedAlpha<YPrimePbPr<T>> {
    fn from(a: [T; 4]) -> PremultipliedAlpha<YPrimePbPr<T>> {
        PremultipliedAlpha { color: YPrimePbPr { y: a[0], pb: a[1], pr: a[2] }, alpha: a[3] }
    }
}

impl<T: Copy> vstd::std_specs::convert::FromSpecImpl<[T; 4]> for PremultipliedAlpha<YPrimePbPr<T>> {
    open spec fn obeys_from_spec() -> bool {
        true
    }

    open spec fn from_spec(a: [T; 4]) -> PremultipliedAlpha<YPrimePbPr<T>> {
        <PremultipliedAlpha<YPrimePbPr<T>> as ColorType>::from_components(a@)
    }
}

impl<T: Copy> Into<[T; 4]> for PremultipliedAlpha<YPrimePbPr<T>> {
    fn into(self) -> [T; 4] {
        [self.color.y, self.color.pb, self.color.pr, self.alpha]
    }
}

impl<T: Copy> vstd::std_specs::convert::IntoSpecImpl<[T; 4]> for PremultipliedAlpha<YPrimePbPr<T>> {
    open spec fn obeys_into_spec() -> bool {
        true
    }

    open spec fn into_spec(self) -> [T; 4] {
        [self.color.y, self.color.pb, self.color.pr, self.alpha]
    }
}

/// A color in the YUV color space. See discussion of the difference between YCbCr, YUV, and
/// YPbPr in [YCbCr Wikipedia article](https://en.wikipedia.org/wiki/YCbCr)
#[derive(Clone, Copy, Debug, Hash, PartialEq, Eq, PartialOrd, Ord, Structural)]
pub struct Yuv<ComponentTy> {
    /// The Y (luminance) component.
    pub y: ComponentTy,
    /// The U (chroma-blue/yellow) component.
    pub u: ComponentTy,
    /// The V (chroma-red/green) component.
    pub v: ComponentTy,
}

impl<T: Copy> ColorType for Yuv<T> {
    type ComponentTy = T;

    const SPACE: Spaces = Spaces::Yuv;

    const NUM_COMPONENTS: usize = 3;

    open spec fn components(&self) -> Seq<T> {
        seq![self.y, self.u, self.v]
    }

    open spec fn from_components(s: Seq<T>) -> Self {
        Yuv { y: s[0], u: s[1], v: s[2] }
    }

    proof fn lemma_components(c: Self) {
    }

    proof fn lemma_from_components(s: Seq<T>) {
        assert(Self::from_components(s).components() =~= s);
    }

    fn component(&self, i: usize) -> (r: &T) {
        if i == 0 {
            &self.y
        } else if i == 1 {
            &self.u
        } else {
            &self.v
        }
    }

    fn component_mut(&mut self, i: usize) -> (r: &mut T) {
        if i == 0 {
            &mut self.y
        } else if i == 1 {
            &mut self.u
        } else {
            &mut self.v
        }
    }
}

impl<T: Copy> BaseColor for Yuv<T> {
    proof fn lemma_space_components() {
    }
}

impl<T: Copy> From<[T; 3]> for Yuv<T> {
    fn from(a: [T; 3]) -> Yuv<T> {
        Yuv { y: a[0], u: a[1], v: a[2] }
    }
}

impl<T: Copy> vstd::std_specs::convert::FromSpecImpl<[T; 3]> for Yuv<T> {
    open spec fn obeys_from_spec() -> bool {
        true
    }

    open spec fn from_spec(a: [T; 3]) -> Yuv<T> {
        <Yuv<T> as ColorType>::from_components(a@)
    }
}

impl<T: Copy> Into<[T; 3]> for Yuv<T> {
    fn into(self) -> [T; 3] {
        [self.y, self.u, self.v]
    }
}

impl<T: Copy> vstd::std_specs::convert::IntoSpecImpl<[T; 3]> for Yuv<T> {
    open spec fn obeys_into_spec() -> bool {
        true
    }

    open spec fn into_spec(self) -> [T; 3] {
        [self.y, self.u, self.v]
    }
}

impl<T: Copy> From<Alpha<Yuv<T>>> for Yuv<T> {
    fn from(col_alpha: Alpha<Yuv<T>>) -> Yuv<T> {
        col_alpha.color
    }
}

impl<T: Copy> vstd::std_specs::convert::FromSpecImpl<Alpha<Yuv<T>>> for Yuv<T> {
    open spec fn obeys_from_spec() -> bool {
        true
    }

    open spec fn from_spec(col_alpha: Alpha<Yuv<T>>) -> Yuv<T> {
        col_alpha.color
    }
}

impl<T: Copy> From<[T; 4]> for Alpha<Yuv<T>> {
    fn from(a: [T; 4]) -> Alpha<Yuv<T>> {
        Alpha { color: Yuv { y: a[0], u: a[1], v: a[2] }, alpha: a[3] }
    }
}

impl<T: Copy> vstd::std_specs::convert::FromSpecImpl<[T; 4]> for Alpha<Yuv<T>> {
    open spec fn obeys_from_spec() -> bool {
        true
    }

    open spec fn from_spec(a: [T; 4]) -> Alpha<Yuv<T>> {
        <Alpha<Yuv<T>> as ColorType>::from_components(a@)
    }
}

impl<T: Copy> Into<[T; 4]> for Alpha<Yuv<T>> {
    fn into(self) -> [T; 4] {
        [self.color.y, self.color.u, self.color.v, self.alpha]
    }
}

impl<T: Copy> vstd::std_specs::convert::IntoSpecImpl<[T; 4]> for Alpha<Yuv<T>> {
    open spec fn obeys_into_spec() -> bool {
        true
    }

    open spec fn into_spec(self) -> [T; 4] {
        [self.color.y, self.color.u, self.color.v, self.alpha]
    }
}

impl<T: Copy> From<PremultipliedAlpha<Yuv<T>>> for Yuv<T> {
    fn from(col_alpha: PremultipliedAlpha<Yuv<T>>) -> Yuv<T> {
        col_alpha.color
    }
}

impl<T: Copy> vstd::std_specs::convert::FromSpecImpl<PremultipliedAlpha<Yuv<T>>> for Yuv<T> {
    open spec fn obeys_from_spec() -> bool {
        true
    }

    open spec fn from_spec(col_alpha: PremultipliedAlpha<Yuv<T>>) -> Yuv<T> {
        col_alpha.color
    }
}

impl<T: Copy> From<[T; 4]> for PremultipliedAlpha<Yuv<T>> {
    fn from(a: [T; 4]) -> PremultipliedAlpha<Yuv<T>> {
        PremultipliedAlpha { color: Yuv { y: a[0], u: a[1], v: a[2] }, alpha: a[3] }
    }
}

impl<T: Copy> vstd::std_specs::convert::FromSpecImpl<[T; 4]> for PremultipliedAlpha<Yuv<T>> {
    open spec fn obeys_from_spec() -> bool {
        true
    }

    open spec fn from_spec(a: [T; 4]) -> PremultipliedAlpha<Yuv<T>> {
        <PremultipliedAlpha<Yuv<T>> as ColorType>::from_components(a@)
    }
}

impl<T: Copy> Into<[T; 4]> for PremultipliedAlpha<Yuv<T>> {
    fn into(self) -> [T; 4] {
        [self.color.y, self.color.u, self.color.v, self.alpha]
    }
}

impl<T: Copy> vstd::std_specs::convert::IntoSpecImpl<[T; 4]> for PremultipliedAlpha<Yuv<T>> {
    open spec fn obeys_into_spec() -> bool {
        true
    }

    open spec fn into_spec(self) -> [T; 4] {
        [self.color.y, self.color.u, self.color.v, self.alpha]
    }
}

} // verus!
