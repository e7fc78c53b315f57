//! Colors in CIE XYZ and in the Lab-like spaces derived from it.

use vstd::prelude::*;

use crate::alpha::{Alpha, PremultipliedAlpha};
use crate::color_type::{BaseColor, ColorType};
use crate::space::Spaces;

verus! {

/// A color in the X'Y'Z' color space, a DCI specification used for digital cinema mastering.
///
/// This color space uses the CIE XYZ primaries, with special DCI white point and pure 2.6 gamma encoding.
#[derive(Clone, Copy, Debug, Hash, PartialEq, Eq, PartialOrd, Ord, Structural)]
pub struct DciXYZPrime<ComponentTy> {
    /// The X' component.
    pub x: ComponentTy,
    /// The Y' component.
    pub y: ComponentTy,
    /// The Z' component.
    pub z: ComponentTy,
}

impl<T: Copy> ColorType for DciXYZPrime<T> {
    type ComponentTy = T;

    const SPACE: Spaces = Spaces::DciXYZPrime;

    const NUM_COMPONENTS: usize = 3;

    open spec fn components(&self) -> Seq<T> {
        seq![self.x, self.y, self.z]
    }

    open spec fn from_components(s: Seq<T>) -> Self {
        DciXYZPrime { x: s[0], y: s[1], z: s[2] }
    }

    proof fn lemma_components(c: Self) {
    }

    proof fn lemma_from_components(s: Seq<T>) {
        assert(Self::from_components(s).components() =~= s);
    }

    fn component(&self, i: usize) -> (r: &T) {
        if i == 0 {
            &self.x
        } else if i == 1 {
            &self.y
        } else {
            &self.z
        }
    }

    fn component_mut(&mut self, i: usize) -> (r: &mut T) {
        if i == 0 {
            &mut self.x
        } else if i == 1 {
            &mut self.y
        } else {
            &mut self.z
        }
    }
}

impl<T: Copy> BaseColor for DciXYZPrime<T> {
    proof fn lemma_space_components() {
    }
}

impl<T: Copy> From<[T; 3]> for DciXYZPrime<T> {
    fn from(a: [T; 3]) -> DciXYZPrime<T> {
        DciXYZPrime { x: a[0], y: a[1], z: a[2] }
    }
}

impl<T: Copy> vstd::std_specs::convert::FromSpecImpl<[T; 3]> for DciXYZPrime<T> {
    open spec fn obeys_from_spec() -> bool {
        true
    }

    open spec fn from_spec(a: [T; 3]) -> DciXYZPrime<T> {
        <DciXYZPrime<T> as ColorType>::from_components(a@)
    }
}

impl<T: Copy> Into<[T; 3]> for DciXYZPrime<T> {
    fn into(self) -> [T; 3] {
        [self.x, self.y, self.z]
    }
}

impl<T: Copy> vstd::std_specs::convert::IntoSpecImpl<[T; 3]> for DciXYZPrime<T> {
    open spec fn obeys_into_spec() -> bool {
        true
    }

    open spec fn into_spec(self) -> [T; 3] {
        [self.x, self.y, self.z]
    }
}

impl<T: Copy> From<Alpha<DciXYZPrime<T>>> for DciXYZPrime<T> {
    fn from(col_alpha: Alpha<DciXYZPrime<T>>) -> DciXYZPrime<T> {
        col_alpha.color
    }
}

impl<T: Copy> vstd::std_specs::convert::FromSpecImpl<Alpha<DciXYZPrime<T>>> for DciXYZPrime<T> {
    open spec fn obeys_from_spec() -> bool {
        true
    }

    open spec fn from_spec(col_alpha: Alpha<DciXYZPrime<T>>) -> DciXYZPrime<T> {
        col_alpha.color
    }
}

impl<T: Copy> From<[T; 4]> for Alpha<DciXYZPrime<T>> {
    fn from(a: [T; 4]) -> Alpha<DciXYZPrime<T>> {
        Alpha { color: DciXYZPrime { x: a[0], y: a[1], z: a[2] }, alpha: a[3] }
    }
}

impl<T: Copy> vstd::std_specs::convert::FromSpecImpl<[T; 4]> for Alpha<DciXYZPrime<T>> {
    open spec fn obeys_from_spec() -> bool {
        true
    }

    open spec fn from_spec(a: [T; 4]) -> Alpha<DciXYZPrime<T>> {
        <Alpha<DciXYZPrime<T>> as ColorType>::from_components(a@)
    }
}

impl<T: Copy> Into<[T; 4]> for Alpha<DciXYZPrime<T>> {
    fn into(self) -> [T; 4] {
        [self.color.x, self.color.y, self.color.z, self.alpha]
    }
}

impl<T: Copy> vstd::std_specs::convert::IntoSpecImpl<[T; 4]> for Alpha<DciXYZPrime<T>> {
    open spec fn obeys_into_spec() -> bool {
        true
    }

    open spec fn into_spec(self) -> [T; 4] {
        [self.color.x, self.color.y, self.color.z, self.alpha]
    }
}

impl<T: Copy> From<PremultipliedAlpha<DciXYZPrime<T>>> for DciXYZPrime<T> {
    fn from(col_alpha: PremultipliedAlpha<DciXYZPrime<T>>) -> DciXYZPrime<T> {
        col_alpha.color
    }
}

impl<T: Copy> vstd::std_specs::convert::FromSpecImpl<PremultipliedAlpha<DciXYZPrime<T>>> for DciXYZPrime<T> {
    open spec fn obeys_from_spec() -> bool {
        true
    }

    open spec fn from_spec(col_alpha: PremultipliedAlpha<DciXYZPrime<T>>) -> DciXYZPrime<T> {
        col_alpha.color
    }
}

impl<T: Copy> From<[T; 4]> for PremultipliedAlpha<DciXYZPrime<T>> {
    fn from(a: [T; 4]) -> PremultipliedAlpha<DciXYZPrime<T>> {
        PremultipliedAlpha { color: DciXYZPrime { x: a[0], y: a[1], z: a[2] }, alpha: a[3] }
    }
}

impl<T: Copy> vstd::std_specs::convert::FromSpecImpl<[T; 4]> for PremultipliedAlpha<DciXYZPrime<T>> {
    open spec fn obeys_from_spec() -> bool {
        true
    }

    open spec fn from_spec(a: [T; 4]) -> PremultipliedAlpha<DciXYZPrime<T>> {
        <PremultipliedAlpha<DciXYZPrime<T>> as ColorType>::from_components(a@)
    }
}

impl<T: Copy> Into<[T; 4]> for PremultipliedAlpha<DciXYZPrime<T>> {
    fn into(self) -> [T; 4] {
        [self.color.x, self.color.y, self.color.z, self.alpha]
    }
}

impl<T: Copy> vstd::std_specs::convert::IntoSpecImpl<[T; 4]> for PremultipliedAlpha<DciXYZPrime<T>> {
    open spec fn obeys_into_spec() -> bool {
        true
    }

    open spec fn into_spec(self) -> [T; 4] {
        [self.color.x, self.color.y, self.color.z, self.alpha]
    }
}

/// A color in the CIE XYZ color space.
///
/// This color space uses the CIE XYZ primaries and D65 white point.
#[derive(Clone, Copy, Debug, Hash, PartialEq, Eq, PartialOrd, Ord, Structural)]
pub struct CieXYZ<ComponentTy> {
    /// The X component.
    pub x: ComponentTy,
    /// The Y component.
    pub y: ComponentTy,
    /// The Z component.
    pub z: ComponentTy,
}

impl<T: Copy> ColorType for CieXYZ<T> {
    type ComponentTy = T;

    const SPACE: Spaces = Spaces::CieXYZ;

    const NUM_COMPONENTS: usize = 3;

    open spec fn components(&self) -> Seq<T> {
        seq![self.x, self.y, self.z]
    }

    open spec fn from_components(s: Seq<T>) -> Self {
        CieXYZ { x: s[0], y: s[1], z: s[2] }
    }

    proof fn lemma_components(c: Self) {
    }

    proof fn lemma_from_components(s: Seq<T>) {
        assert(Self::from_components(s).components() =~= s);
    }

    fn component(&self, i: usize) -> (r: &T) {
        if i == 0 {
            &self.x
        } else if i == 1 {
            &self.y
        } else {
            &self.z
        }
    }

    fn component_mut(&mut self, i: usize) -> (r: &mut T) {
        if i == 0 {
            &mut self.x
        } else if i == 1 {
            &mut self.y
        } else {
            &mut self.z
        }
    }
}

impl<T: Copy> BaseColor for CieXYZ<T> {
    proof fn lemma_space_components() {
    }
}

impl<T: Copy> From<[T; 3]> for CieXYZ<T> {
    fn from(a: [T; 3]) -> CieXYZ<T> {
        CieXYZ { x: a[0], y: a[1], z: a[2] }
    }
}

impl<T: Copy> vstd::std_specs::convert::FromSpecImpl<[T; 3]> for CieXYZ<T> {
    open spec fn obeys_from_spec() -> bool {
        true
    }

    open spec fn from_spec(a: [T; 3]) -> CieXYZ<T> {
        <CieXYZ<T> as ColorType>::from_components(a@)
    }
}

impl<T: Copy> Into<[T; 3]> for CieXYZ<T> {
    fn into(self) -> [T; 3] {
        [self.x, self.y, self.z]
    }
}

impl<T: Copy> vstd::std_specs::convert::IntoSpecImpl<[T; 3]> for CieXYZ<T> {
    open spec fn obeys_into_spec() -> bool {
        true
    }

    open spec fn into_spec(self) -> [T; 3] {
        [self.x, self.y, self.z]
    }
}

impl<T: Copy> From<Alpha<CieXYZ<T>>> for CieXYZ<T> {
    fn from(col_alpha: Alpha<CieXYZ<T>>) -> CieXYZ<T> {
        col_alpha.color
    }
}

impl<T: Copy> vstd::std_specs::convert::FromSpecImpl<Alpha<CieXYZ<T>>> for CieXYZ<T> {
    open spec fn obeys_from_spec() -> bool {
        true
    }

    open spec fn from_spec(col_alpha: Alpha<CieXYZ<T>>) -> CieXYZ<T> {
        col_alpha.color
    }
}

impl<T: Copy> From<[T; 4]> for Alpha<CieXYZ<T>> {
    fn from(a: [T; 4]) -> Alpha<CieXYZ<T>> {
        Alpha { color: CieXYZ { x: a[0], y: a[1], z: a[2] }, alpha: a[3] }
    }
}

impl<T: Copy> vstd::std_specs::convert::FromSpecImpl<[T; 4]> for Alpha<CieXYZ<T>> {
    open spec fn obeys_from_spec() -> bool {
        true
    }

    open spec fn from_spec(a: [T; 4]) -> Alpha<CieXYZ<T>> {
        <Alpha<CieXYZ<T>> as ColorType>::from_components(a@)
    }
}

impl<T: Copy> Into<[T; 4]> for Alpha<CieXYZ<T>> {
    fn into(self) -> [T; 4] {
        [self.color.x, self.color.y, self.color.z, self.alpha]
    }
}

impl<T: Copy> vstd::std_specs::convert::IntoSpecImpl<[T; 4]> for Alpha<CieXYZ<T>> {
    open spec fn obeys_into_spec() -> bool {
        true
    }

    open spec fn into_spec(self) -> [T; 4] {
        [self.color.x, self.color.y, self.color.z, self.alpha]
    }
}

impl<T: Copy> From<PremultipliedAlpha<CieXYZ<T>>> for CieXYZ<T> {
    fn from(col_alpha: PremultipliedAlpha<CieXYZ<T>>) -> CieXYZ<T> {
        col_alpha.color
    }
}

impl<T: Copy> vstd::std_specs::convert::FromSpecImpl<PremultipliedAlpha<CieXYZ<T>>> for CieXYZ<T> {
    open spec fn obeys_from_spec() -> bool {
        true
    }

    open spec fn from_spec(col_alpha: PremultipliedAlpha<CieXYZ<T>>) -> CieXYZ<T> {
        col_alpha.color
    }
}

impl<T: Copy> From<[T; 4]> for PremultipliedAlpha<CieXYZ<T>> {
    fn from(a: [T; 4]) -> PremultipliedAlpha<CieXYZ<T>> {
        PremultipliedAlpha { color: CieXYZ { x: a[0], y: a[1], z: a[2] }, alpha: a[3] }
    }
}

impl<T: Copy> vstd::std_specs::convert::FromSpecImpl<[T; 4]> for PremultipliedAlpha<CieXYZ<T>> {
    open spec fn obeys_from_spec() -> bool {
        true
    }

    open spec fn from_spec(a: [T; 4]) -> PremultipliedAlpha<CieXYZ<T>> {
        <PremultipliedAlpha<CieXYZ<T>> as ColorType>::from_components(a@)
    }
}

impl<T: Copy> Into<[T; 4]> for PremultipliedAlpha<CieXYZ<T>> {
    fn into(self) -> [T; 4] {
        [self.color.x, self.color.y, self.color.z, self.alpha]
    }
}

impl<T: Copy> vstd::std_specs::convert::IntoSpecImpl<[T; 4]> for PremultipliedAlpha<CieXYZ<T>> {
    open spec fn obeys_into_spec() -> bool {
        true
    }

    open spec fn into_spec(self) -> [T; 4] {
        [self.color.x, self.color.y, self.color.z, self.alpha]
    }
}

/// A color in the CIE L\*a\*b\* color space.
#[derive(Clone, Copy, Debug, Hash, PartialEq, Eq, PartialOrd, Ord, Structural)]
pub struct CieLab<ComponentTy> {
    /// The L (lightness) component. Varies from 0 to 100.
    pub l: ComponentTy,
    /// The a component, representing green-red chroma difference.
    pub a: ComponentTy,
    /// The b component, representing blue-yellow chroma difference.
    pub b: ComponentTy,
}

impl<T: Copy> ColorType for CieLab<T> {
    type ComponentTy = T;

    const SPACE: Spaces = Spaces::CieLab;

    const NUM_COMPONENTS: usize = 3;

    open spec fn components(&self) -> Seq<T> {
        seq![self.l, self.a, self.b]
    }

    open spec fn from_components(s: Seq<T>) -> Self {
        CieLab { l: s[0], a: s[1], b: s[2] }
    }

    proof fn lemma_components(c: Self) {
    }

    proof fn lemma_from_components(s: Seq<T>) {
        assert(Self::from_components(s).components() =~= s);
    }

    fn component(&self, i: usize) -> (r: &T) {
        if i == 0 {
            &self.l
        } else if i == 1 {
            &self.a
        } else {
            &self.b
        }
    }

    fn component_mut(&mut self, i: usize) -> (r: &mut T) {
        if i == 0 {
            &mut self.l
        } else if i == 1 {
            &mut self.a
        } else {
            &mut self.b
        }
    }
}

impl<T: Copy> BaseColor for CieLab<T> {
    proof fn lemma_space_components() {
    }
}

impl<T: Copy> From<[T; 3]> for CieLab<T> {
    fn from(a: [T; 3]) -> CieLab<T> {
        CieLab { l: a[0], a: a[1], b: a[2] }
    }
}

impl<T: Copy> vstd::std_specs::convert::FromSpecImpl<[T; 3]> for CieLab<T> {
    open spec fn obeys_from_spec() -> bool {
        true
    }

    open spec fn from_spec(a: [T; 3]) -> CieLab<T> {
        <CieLab<T> as ColorType>::from_components(a@)
    }
}

impl<T: Copy> Into<[T; 3]> for CieLab<T> {
    fn into(self) -> [T; 3] {
        [self.l, self.a, self.b]
    }
}

impl<T: Copy> vstd::std_specs::convert::IntoSpecImpl<[T; 3]> for CieLab<T> {
    open spec fn obeys_into_spec() -> bool {
        true
    }

    open spec fn into_spec(self) -> [T; 3] {
        [self.l, self.a, self.b]
    }
}

impl<T: Copy> From<Alpha<CieLab<T>>> for CieLab<T> {
    fn from(col_alpha: Alpha<CieLab<T>>) -> CieLab<T> {
        col_alpha.color
    }
}

impl<T: Copy> vstd::std_specs::convert::FromSpecImpl<Alpha<CieLab<T>>> for CieLab<T> {
    open spec fn obeys_from_spec() -> bool {
        true
    }

    open spec fn from_spec(col_alpha: Alpha<CieLab<T>>) -> CieLab<T> {
        col_alpha.color
    }
}

impl<T: Copy> From<[T; 4]> for Alpha<CieLab<T>> {
    fn from(a: [T; 4]) -> Alpha<CieLab<T>> {
        Alpha { color: CieLab { l: a[0], a: a[1], b: a[2] }, alpha: a[3] }
    }
}

impl<T: Copy> vstd::std_specs::convert::FromSpecImpl<[T; 4]> for Alpha<CieLab<T>> {
    open spec fn obeys_from_spec() -> bool {
        true
    }

    open spec fn from_spec(a: [T; 4]) -> Alpha<CieLab<T>> {
        <Alpha<CieLab<T>> as ColorType>::from_components(a@)
    }
}

impl<T: Copy> Into<[T; 4]> for Alpha<CieLab<T>> {
    fn into(self) -> [T; 4] {
        [self.color.l, self.color.a, self.color.b, self.alpha]
    }
}

impl<T: Copy> vstd::std_specs::convert::IntoSpecImpl<[T; 4]> for Alpha<CieLab<T>> {
    open spec fn obeys_into_spec() -> bool {
        true
    }

    open spec fn into_spec(self) -> [T; 4] {
        [self.color.l, self.color.a, self.color.b, self.alpha]
    }
}

impl<T: Copy> From<PremultipliedAlpha<CieLab<T>>> for CieLab<T> {
    fn from(col_alpha: PremultipliedAlpha<CieLab<T>>) -> CieLab<T> {
        col_alpha.color
    }
}

impl<T: Copy> vstd::std_specs::convert::FromSpecImpl<PremultipliedAlpha<CieLab<T>>> for CieLab<T> {
    open spec fn obeys_from_spec() -> bool {
        true
    }

    open spec fn from_spec(col_alpha: PremultipliedAlpha<CieLab<T>>) -> CieLab<T> {
        col_alpha.color
    }
}

impl<T: Copy> From<[T; 4]> for PremultipliedAlpha<CieLab<T>> {
    fn from(a: [T; 4]) -> PremultipliedAlpha<CieLab<T>> {
        PremultipliedAlpha { color: CieLab { l: a[0], a: a[1], b: a[2] }, alpha: a[3] }
    }
}

impl<T: Copy> vstd::std_specs::convert::FromSpecImpl<[T; 4]> for PremultipliedAlpha<CieLab<T>> {
    open spec fn obeys_from_spec() -> bool {
        true
    }

    open spec fn from_spec(a: [T; 4]) -> PremultipliedAlpha<CieLab<T>> {
        <PremultipliedAlpha<CieLab<T>> as ColorType>::from_components(a@)
    }
}

impl<T: Copy> Into<[T; 4]> for PremultipliedAlpha<CieLab<T>> {
    fn into(self) -> [T; 4] {
        [self.color.l, self.color.a, self.color.b, self.alpha]
    }
}

impl<T: Copy> vstd::std_specs::convert::IntoSpecImpl<[T; 4]> for PremultipliedAlpha<CieLab<T>> {
    open spec fn obeys_into_spec() -> bool {
        true
    }

    open spec fn into_spec(self) -> [T; 4] {
        [self.color.l, self.color.a, self.color.b, self.alpha]
    }
}

/// A color in the CIE L\*C\*h° color space.
#[derive(Clone, Copy, Debug, Hash, PartialEq, Eq, PartialOrd, Ord, Structural)]
pub struct CieLCh<ComponentTy> {
    /// The L (lightness) component. Varies from 0 to 100.
    pub l: ComponentTy,
    /// The C (chroma) component. Varies from 0 to a hue dependent maximum.
    pub c: ComponentTy,
    /// The h (hue) component. Varies from -PI to PI.
    pub h: ComponentTy,
}

impl<T: Copy> ColorType for CieLCh<T> {
    type ComponentTy = T;

    const SPACE: Spaces = Spaces::CieLCh;

    const NUM_COMPONENTS: usize = 3;

    open spec fn components(&self) -> Seq<T> {
        seq![self.l, self.c, self.h]
    }

    open spec fn from_components(s: Seq<T>) -> Self {
        CieLCh { l: s[0], c: s[1], h: s[2] }
    }

    proof fn lemma_components(c: Self) {
    }

    proof fn lemma_from_components(s: Seq<T>) {
        assert(Self::from_components(s).components() =~= s);
    }

    fn component(&self, i: usize) -> (r: &T) {
        if i == 0 {
            &self.l
        } else if i == 1 {
            &self.c
        } else {
            &self.h
        }
    }

    fn component_mut(&mut self, i: usize) -> (r: &mut T) {
        if i == 0 {
            &mut self.l
        } else if i == 1 {
            &mut self.c
        } else {
            &mut self.h
        }
    }
}

impl<T: Copy> BaseColor for CieLCh<T> {
    proof fn lemma_space_components() {
    }
}

impl<T: Copy> From<[T; 3]> for CieLCh<T> {
    fn from(a: [T; 3]) -> CieLCh<T> {
        CieLCh { l: a[0], c: a[1], h: a[2] }
    }
}

impl<T: Copy> vstd::std_specs::convert::FromSpecImpl<[T; 3]> for CieLCh<T> {
    open spec fn obeys_from_spec() -> bool {
        true
    }

    open spec fn from_spec(a: [T; 3]) -> CieLCh<T> {
        <CieLCh<T> as ColorType>::from_components(a@)
    }
}

impl<T: Copy> Into<[T; 3]> for CieLCh<T> {
    fn into(self) -> [T; 3] {
        [self.l, self.c, self.h]
    }
}

impl<T: Copy> vstd::std_specs::convert::IntoSpecImpl<[T; 3]> for CieLCh<T> {
    open spec fn obeys_into_spec() -> bool {
        true
    }

    open spec fn into_spec(self) -> [T; 3] {
        [self.l, self.c, self.h]
    }
}

impl<T: Copy> From<Alpha<CieLCh<T>>> for CieLCh<T> {
    fn from(col_alpha: Alpha<CieLCh<T>>) -> CieLCh<T> {
        col_alpha.color
    }
}

impl<T: Copy> vstd::std_specs::convert::FromSpecImpl<Alpha<CieLCh<T>>> for CieLCh<T> {
    open spec fn obeys_from_spec() -> bool {
        true
    }

    open spec fn from_spec(col_alpha: Alpha<CieLCh<T>>) -> CieLCh<T> {
        col_alpha.color
    }
}

impl<T: Copy> From<[T; 4]> for Alpha<CieLCh<T>> {
    fn from(a: [T; 4]) -> Alpha<CieLCh<T>> {
        Alpha { color: CieLCh { l: a[0], c: a[1], h: a[2] }, alpha: a[3] }
    }
}

impl<T: Copy> vstd::std_specs::convert::FromSpecImpl<[T; 4]> for Alpha<CieLCh<T>> {
    open spec fn obeys_from_spec() -> bool {
        true
    }

    open spec fn from_spec(a: [T; 4]) -> Alpha<CieLCh<T>> {
        <Alpha<CieLCh<T>> as ColorType>::from_components(a@)
    }
}

impl<T: Copy> Into<[T; 4]> for Alpha<CieLCh<T>> {
    fn into(self) -> [T; 4] {
        [self.color.l, self.color.c, self.color.h, self.alpha]
    }
}

impl<T: Copy> vstd::std_specs::convert::IntoSpecImpl<[T; 4]> for Alpha<CieLCh<T>> {
    open spec fn obeys_into_spec() -> bool {
        true
    }

    open spec fn into_spec(self) -> [T; 4] {
        [self.color.l, self.color.c, self.color.h, self.alpha]
    }
}

impl<T: Copy> From<PremultipliedAlpha<CieLCh<T>>> for CieLCh<T> {
    fn from(col_alpha: PremultipliedAlpha<CieLCh<T>>) -> CieLCh<T> {
        col_alpha.color
    }
}

impl<T: Copy> vstd::std_specs::convert::FromSpecImpl<PremultipliedAlpha<CieLCh<T>>> for CieLCh<T> {
    open spec fn obeys_from_spec() -> bool {
        true
    }

    open spec fn from_spec(col_alpha: PremultipliedAlpha<CieLCh<T>>) -> CieLCh<T> {
        col_alpha.color
    }
}

impl<T: Copy> From<[T; 4]> for PremultipliedAlpha<CieLCh<T>> {
    fn from(a: [T; 4]) -> PremultipliedAlpha<CieLCh<T>> {
        PremultipliedAlpha { color: CieLCh { l: a[0], c: a[1], h: a[2] }, alpha: a[3] }
    }
}

impl<T: Copy> vstd::std_specs::convert::FromSpecImpl<[T; 4]> for PremultipliedAlpha<CieLCh<T>> {
    open spec fn obeys_from_spec() -> bool {
        true
    }

    open spec fn from_spec(a: [T; 4]) -> PremultipliedAlpha<CieLCh<T>> {
        <PremultipliedAlpha<CieLCh<T>> as ColorType>::from_components(a@)
    }
}

impl<T: Copy> Into<[T; 4]> for PremultipliedAlpha<CieLCh<T>> {
    fn into(self) -> [T; 4] {
        [self.color.l, self.color.c, self.color.h, self.alpha]
    }
}

impl<T: Copy> vstd::std_specs::convert::IntoSpecImpl<[T; 4]> for PremultipliedAlpha<CieLCh<T>> {
    open spec fn obeys_into_spec() -> bool {
        true
    }

    open spec fn into_spec(self) -> [T; 4] {
        [self.color.l, self.color.c, self.color.h, self.alpha]
    }
}

/// A color in the Oklab color space.
#[derive(Clone, Copy, Debug, Hash, PartialEq, Eq, PartialOrd, Ord, Structural)]
pub struct Oklab<ComponentTy> {
    /// The L (lightness) component. Varies from 0 to 1
    pub l: ComponentTy,
    /// The a component, representing green-red chroma difference.
    pub a: ComponentTy,
    /// The b component, representing blue-yellow chroma difference.
    pub b: ComponentTy,
}

impl<T: Copy> ColorType for Oklab<T> {
    type ComponentTy = T;

    const SPACE: Spaces = Spaces::Oklab;

    const NUM_COMPONENTS: usize = 3;

    open spec fn components(&self) -> Seq<T> {
        seq![self.l, self.a, self.b]
    }

    open spec fn from_components(s: Seq<T>) -> Self {
        Oklab { l: s[0], a: s[1], b: s[2] }
    }

    proof fn lemma_components(c: Self) {
    }

    proof fn lemma_from_components(s: Seq<T>) {
        assert(Self::from_components(s).components() =~= s);
    }

    fn component(&self, i: usize) -> (r: &T) {
        if i == 0 {
            &self.l
        } else if i == 1 {
            &self.a
        } else {
            &self.b
        }
    }

    fn component_mut(&mut self, i: usize) -> (r: &mut T) {
        if i == 0 {
            &mut self.l
        } else if i == 1 {
            &mut self.a
        } else {
            &mut self.b
        }
    }
}

impl<T: Copy> BaseColor for Oklab<T> {
    proof fn lemma_space_components() {
    }
}

impl<T: Copy> From<[T; 3]> for Oklab<T> {
    fn from(a: [T; 3]) -> Oklab<T> {
        Oklab { l: a[0], a: a[1], b: a[2] }
    }
}

impl<T: Copy> vstd::std_specs::convert::FromSpecImpl<[T; 3]> for Oklab<T> {
    open spec fn obeys_from_spec() -> bool {
        true
    }

    open spec fn from_spec(a: [T; 3]) -> Oklab<T> {
        <Oklab<T> as ColorType>::from_components(a@)
    }
}

impl<T: Copy> Into<[T; 3]> for Oklab<T> {
    fn into(self) -> [T; 3] {
        [self.l, self.a, self.b]
    }
}

impl<T: Copy> vstd::std_specs::convert::IntoSpecImpl<[T; 3]> for Oklab<T> {
    open spec fn obeys_into_spec() -> bool {
        true
    }

    open spec fn into_spec(self) -> [T; 3] {
        [self.l, self.a, self.b]
    }
}

impl<T: Copy> From<Alpha<Oklab<T>>> for Oklab<T> {
    fn from(col_alpha: Alpha<Oklab<T>>) -> Oklab<T> {
        col_alpha.color
    }
}

impl<T: Copy> vstd::std_specs::convert::FromSpecImpl<Alpha<Oklab<T>>> for Oklab<T> {
    open spec fn obeys_from_spec() -> bool {
        true
    }

    open spec fn from_spec(col_alpha: Alpha<Oklab<T>>) -> Oklab<T> {
        col_alpha.color
    }
}

impl<T: Copy> From<[T; 4]> for Alpha<Oklab<T>> {
    fn from(a: [T; 4]) -> Alpha<Oklab<T>> {
        Alpha { color: Oklab { l: a[0], a: a[1], b: a[2] }, alpha: a[3] }
    }
}

impl<T: Copy> vstd::std_specs::convert::FromSpecImpl<[T; 4]> for Alpha<Oklab<T>> {
    open spec fn obeys_from_spec() -> bool {
        true
    }

    open spec fn from_spec(a: [T; 4]) -> Alpha<Oklab<T>> {
        <Alpha<Oklab<T>> as ColorType>::from_components(a@)
    }
}

impl<T: Copy> Into<[T; 4]> for Alpha<Oklab<T>> {
    fn into(self) -> [T; 4] {
        [self.color.l, self.color.a, self.color.b, self.alpha]
    }
}

impl<T: Copy> vstd::std_specs::convert::IntoSpecImpl<[T; 4]> for Alpha<Oklab<T>> {
    open spec fn obeys_into_spec() -> bool {
        true
    }

    open spec fn into_spec(self) -> [T; 4] {
        [self.color.l, self.color.a, self.color.b, self.alpha]
    }
}

impl<T: Copy> From<PremultipliedAlpha<Oklab<T>>> for Oklab<T> {
    fn from(col_alpha: PremultipliedAlpha<Oklab<T>>) -> Oklab<T> {
        col_alpha.color
    }
}

impl<T: Copy> vstd::std_specs::convert::FromSpecImpl<PremultipliedAlpha<Oklab<T>>> for Oklab<T> {
    open spec fn obeys_from_spec() -> bool {
        true
    }

    open spec fn from_spec(col_alpha: PremultipliedAlpha<Oklab<T>>) -> Oklab<T> {
        col_alpha.color
    }
}

impl<T: Copy> From<[T; 4]> for PremultipliedAlpha<Oklab<T>> {
    fn from(a: [T; 4]) -> PremultipliedAlpha<Oklab<T>> {
        PremultipliedAlpha { color: Oklab { l: a[0], a: a[1], b: a[2] }, alpha: a[3] }
    }
}

impl<T: Copy> vstd::std_specs::convert::FromSpecImpl<[T; 4]> for PremultipliedAlpha<Oklab<T>> {
    open spec fn obeys_from_spec() -> bool {
        true
    }

    open spec fn from_spec(a: [T; 4]) -> PremultipliedAlpha<Oklab<T>> {
        <PremultipliedAlpha<Oklab<T>> as ColorType>::from_components(a@)
    }
}

impl<T: Copy> Into<[T; 4]> for PremultipliedAlpha<Oklab<T>> {
    fn into(self) -> [T; 4] {
        [self.color.l, self.color.a, self.color.b, self.alpha]
    }
}

impl<T: Copy> vstd::std_specs::convert::IntoSpecImpl<[T; 4]> for PremultipliedAlpha<Oklab<T>> {
    open spec fn obeys_into_spec() -> bool {
        true
    }

    open spec fn into_spec(self) -> [T; 4] {
        [self.color.l, self.color.a, self.color.b, self.alpha]
    }
}

/// A color in the Oklch color space (a transformation from Oklab to LCh° coordinates).
#[derive(Clone, Copy, Debug, Hash, PartialEq, Eq, PartialOrd, Ord, Structural)]
pub struct Oklch<ComponentTy> {
    /// The L (lightness) component. Varies from 0 to 1.
    pub l: ComponentTy,
    /// The C (chroma) component. Varies from 0 to a hue dependent maximum.
    pub c: ComponentTy,
    /// The h (hue) component. Varies from -PI to PI.
    pub h: ComponentTy,
}

impl<T: Copy> ColorType for Oklch<T> {
    type ComponentTy = T;

    const SPACE: Spaces = Spaces::Oklch;

    const NUM_COMPONENTS: usize = 3;

    open spec fn components(&self) -> Seq<T> {
        seq![self.l, self.c, self.h]
    }

    open spec fn from_components(s: Seq<T>) -> Self {
        Oklch { l: s[0], c: s[1], h: s[2] }
    }

    proof fn lemma_components(c: Self) {
    }

    proof fn lemma_from_components(s: Seq<T>) {
        assert(Self::from_components(s).components() =~= s);
    }

    fn component(&self, i: usize) -> (r: &T) {
        if i == 0 {
            &self.l
        } else if i == 1 {
            &self.c
        } else {
            &self.h
        }
    }

    fn component_mut(&mut self, i: usize) -> (r: &mut T) {
        if i == 0 {
            &mut self.l
        } else if i == 1 {
            &mut self.c
        } else {
            &mut self.h
        }
    }
}

impl<T: Copy> BaseColor for Oklch<T> {
    proof fn lemma_space_components() {
    }
}

impl<T: Copy> From<[T; 3]> for Oklch<T> {
    fn from(a: [T; 3]) -> Oklch<T> {
        Oklch { l: a[0], c: a[1], h: a[2] }
    }
}

impl<T: Copy> vstd::std_specs::convert::FromSpecImpl<[T; 3]> for Oklch<T> {
    open spec fn obeys_from_spec() -> bool {
        true
    }

    open spec fn from_spec(a: [T; 3]) -> Oklch<T> {
        <Oklch<T> as ColorType>::from_components(a@)
    }
}

impl<T: Copy> Into<[T; 3]> for Oklch<T> {
    fn into(self) -> [T; 3] {
        [self.l, self.c, self.h]
    }
}

impl<T: Copy> vstd::std_specs::convert::IntoSpecImpl<[T; 3]> for Oklch<T> {
    open spec fn obeys_into_spec() -> bool {
        true
    }

    open spec fn into_spec(self) -> [T; 3] {
        [self.l, self.c, self.h]
    }
}

impl<T: Copy> From<Alpha<Oklch<T>>> for Oklch<T> {
    fn from(col_alpha: Alpha<Oklch<T>>) -> Oklch<T> {
        col_alpha.color
    }
}

impl<T: Copy> vstd::std_specs::convert::FromSpecImpl<Alpha<Oklch<T>>> for Oklch<T> {
    open spec fn obeys_from_spec() -> bool {
        true
    }

    open spec fn from_spec(col_alpha: Alpha<Oklch<T>>) -> Oklch<T> {
        col_alpha.color
    }
}

impl<T: Copy> From<[T; 4]> for Alpha<Oklch<T>> {
    fn from(a: [T; 4]) -> Alpha<Oklch<T>> {
        Alpha { color: Oklch { l: a[0], c: a[1], h: a[2] }, alpha: a[3] }
    }
}

impl<T: Copy> vstd::std_specs::convert::FromSpecImpl<[T; 4]> for Alpha<Oklch<T>> {
    open spec fn obeys_from_spec() -> bool {
        true
    }

    open spec fn from_spec(a: [T; 4]) -> Alpha<Oklch<T>> {
        <Alpha<Oklch<T>> as ColorType>::from_components(a@)
    }
}

impl<T: Copy> Into<[T; 4]> for Alpha<Oklch<T>> {
    fn into(self) -> [T; 4] {
        [self.color.l, self.color.c, self.color.h, self.alpha]
    }
}

impl<T: Copy> vstd::std_specs::convert::IntoSpecImpl<[T; 4]> for Alpha<Oklch<T>> {
    open spec fn obeys_into_spec() -> bool {
        true
    }

    open spec fn into_spec(self) -> [T; 4] {
        [self.color.l, self.color.c, self.color.h, self.alpha]
    }
}

impl<T: Copy> From<PremultipliedAlpha<Oklch<T>>> for Oklch<T> {
    fn from(col_alpha: PremultipliedAlpha<Oklch<T>>) -> Oklch<T> {
        col_alpha.color
    }
}

impl<T: Copy> vstd::std_specs::convert::FromSpecImpl<PremultipliedAlpha<Oklch<T>>> for Oklch<T> {
    open spec fn obeys_from_spec() -> bool {
        true
    }

    open spec fn from_spec(col_alpha: PremultipliedAlpha<Oklch<T>>) -> Oklch<T> {
        col_alpha.color
    }
}

impl<T: Copy> From<[T; 4]> for PremultipliedAlpha<Oklch<T>> {
    fn from(a: [T; 4]) -> PremultipliedAlpha<Oklch<T>> {
        PremultipliedAlpha { color: Oklch { l: a[0], c: a[1], h: a[2] }, alpha: a[3] }
    }
}

impl<T: Copy> vstd::std_specs::convert::FromSpecImpl<[T; 4]> for PremultipliedAlpha<Oklch<T>> {
    open spec fn obeys_from_spec() -> bool {
        true
    }

    open spec fn from_spec(a: [T; 4]) -> PremultipliedAlpha<Oklch<T>> {
        <PremultipliedAlpha<Oklch<T>> as ColorType>::from_components(a@)
    }
}

impl<T: Copy> Into<[T; 4]> for PremultipliedAlpha<Oklch<T>> {
    fn into(self) -> [T; 4] {
        [self.color.l, self.color.c, self.color.h, self.alpha]
    }
}

impl<T: Copy> vstd::std_specs::convert::IntoSpecImpl<[T; 4]> for PremultipliedAlpha<Oklch<T>> {
    open spec fn obeys_into_spec() -> bool {
        true
    }

    open spec fn into_spec(self) -> [T; 4] {
        [self.color.l, self.color.c, self.color.h, self.alpha]
    }
}

/// A color in the YCxCz (also called YyCxCz) color space, originally defined in "Optimized
/// universal color palette design for error diffusion" by B. W. Kolpatzik and C. A. Bouman.
/// Can be thought of as a "linear CIE Lab".
#[derive(Clone, Copy, Debug, Hash, PartialEq, Eq, PartialOrd, Ord, Structural)]
pub struct YCxCz<ComponentTy> {
    /// The Yy (luminance) component.
    pub y: ComponentTy,
    /// The Cx (chroma difference blue/yellow) component
    pub cx: ComponentTy,
    /// The Cz (chroma difference red/green) component
    pub cz: ComponentTy,
}

impl<T: Copy> ColorType for YCxCz<T> {
    type ComponentTy = T;

    const SPACE: Spaces = Spaces::YCxCz;

    const NUM_COMPONENTS: usize = 3;

    open spec fn components(&self) -> Seq<T> {
        seq![self.y, self.cx, self.cz]
    }

    open spec fn from_components(s: Seq<T>) -> Self {
        YCxCz { y: s[0], cx: s[1], cz: s[2] }
    }

    proof fn lemma_components(c: Self) {
    }

    proof fn lemma_from_components(s: Seq<T>) {
        assert(Self::from_components(s).components() =~= s);
    }

    fn component(&self, i: usize) -> (r: &T) {
        if i == 0 {
            &self.y
        } else if i == 1 {
            &self.cx
        } else {
            &self.cz
        }
    }

    fn component_mut(&mut self, i: usize) -> (r: &mut T) {
        if i == 0 {
            &mut self.y
        } else if i == 1 {
            &mut self.cx
        } else {
            &mut self.cz
        }
    }
}

impl<T: Copy> BaseColor for YCxCz<T> {
    proof fn lemma_space_components() {
    }
}

impl<T: Copy> From<[T; 3]> for YCxCz<T> {
    fn from(a: [T; 3]) -> YCxCz<T> {
        YCxCz { y: a[0], cx: a[1], cz: a[2] }
    }
}

impl<T: Copy> vstd::std_specs::convert::FromSpecImpl<[T; 3]> for YCxCz<T> {
    open spec fn obeys_from_spec() -> bool {
        true
    }

    open spec fn from_spec(a: [T; 3]) -> YCxCz<T> {
        <YCxCz<T> as ColorType>::from_components(a@)
    }
}

impl<T: Copy> Into<[T; 3]> for YCxCz<T> {
    fn into(self) -> [T; 3] {
        [self.y, self.cx, self.cz]
    }
}

impl<T: Copy> vstd::std_specs::convert::IntoSpecImpl<[T; 3]> for YCxCz<T> {
    open spec fn obeys_into_spec() -> bool {
        true
    }

    open spec fn into_spec(self) -> [T; 3] {
        [self.y, self.cx, self.cz]
    }
}

impl<T: Copy> From<Alpha<YCxCz<T>>> for YCxCz<T> {
    fn from(col_alpha: Alpha<YCxCz<T>>) -> YCxCz<T> {
        col_alpha.color
    }
}

impl<T: Copy> vstd::std_specs::convert::FromSpecImpl<Alpha<YCxCz<T>>> for YCxCz<T> {
    open spec fn obeys_from_spec() -> bool {
        true
    }

    open spec fn from_spec(col_alpha: Alpha<YCxCz<T>>) -> YCxCz<T> {
        col_alpha.color
    }
}

impl<T: Copy> From<[T; 4]> for Alpha<YCxCz<T>> {
    fn from(a: [T; 4]) -> Alpha<YCxCz<T>> {
        Alpha { color: YCxCz { y: a[0], cx: a[1], cz: a[2] }, alpha: a[3] }
    }
}

impl<T: Copy> vstd::std_specs::convert::FromSpecImpl<[T; 4]> for Alpha<YCxCz<T>> {
    open spec fn obeys_from_spec() -> bool {
        true
    }

    open spec fn from_spec(a: [T; 4]) -> Alpha<YCxCz<T>> {
        <Alpha<YCxCz<T>> as ColorType>::from_components(a@)
    }
}

impl<T: Copy> Into<[T; 4]> for Alpha<YCxCz<T>> {
    fn into(self) -> [T; 4] {
        [self.color.y, self.color.cx, self.color.cz, self.alpha]
    }
}

impl<T: Copy> vstd::std_specs::convert::IntoSpecImpl<[T; 4]> for Alpha<YCxCz<T>> {
    open spec fn obeys_into_spec() -> bool {
        true
    }

    open spec fn into_spec(self) -> [T; 4] {
        [self.color.y, self.color.cx, self.color.cz, self.alpha]
    }
}

impl<T: Copy> From<PremultipliedAlpha<YCxCz<T>>> for YCxCz<T> {
    fn from(col_alpha: PremultipliedAlpha<YCxCz<T>>) -> YCxCz<T> {
        col_alpha.color
    }
}

impl<T: Copy> vstd::std_specs::convert::FromSpecImpl<PremultipliedAlpha<YCxCz<T>>> for YCxCz<T> {
    open spec fn obeys_from_spec() -> bool {
        true
    }

    open spec fn from_spec(col_alpha: PremultipliedAlpha<YCxCz<T>>) -> YCxCz<T> {
        col_alpha.color
    }
}

impl<T: Copy> From<[T; 4]> for PremultipliedAlpha<YCxCz<T>> {
    fn from(a: [T; 4]) -> PremultipliedAlpha<YCxCz<T>> {
        PremultipliedAlpha { color: YCxCz { y: a[0], cx: a[1], cz: a[2] }, alpha: a[3] }
    }
}

impl<T: Copy> vstd::std_specs::convert::FromSpecImpl<[T; 4]> for PremultipliedAlpha<YCxCz<T>> {
    open spec fn obeys_from_spec() -> bool {
        true
    }

    open spec fn from_spec(a: [T; 4]) -> PremultipliedAlpha<YCxCz<T>> {
        <PremultipliedAlpha<YCxCz<T>> as ColorType>::from_components(a@)
    }
}

impl<T: Copy> Into<[T; 4]> for PremultipliedAlpha<YCxCz<T>> {
    fn into(self) -> [T; 4] {
        [self.color.y, self.color.cx, self.color.cz, self.alpha]
    }
}

impl<T: Copy> vstd::std_specs::convert::IntoSpecImpl<[T; 4]> for PremultipliedAlpha<YCxCz<T>> {
    open spec fn obeys_into_spec() -> bool {
        true
    }

    open spec fn into_spec(self) -> [T; 4] {
        [self.color.y, self.color.cx, self.color.cz, self.alpha]
    }
}

} // verus!
