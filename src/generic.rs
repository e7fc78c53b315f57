//! Colors whose color space the user keeps track of.

use vstd::prelude::*;

use crate::alpha::{Alpha, PremultipliedAlpha};
use crate::color_type::{BaseColor, ColorType};
use crate::space::Spaces;

verus! {

/// A color in a generic color space that can be represented by 3 components. The user
/// is responsible for ensuring that the correct color space is respected.
#[derive(Clone, Copy, Debug, Hash, PartialEq, Eq, PartialOrd, Ord, Structural)]
pub struct GenericColor3<ComponentTy> {
    /// The first component.
    pub x: ComponentTy,
    /// The second component.
    pub y: ComponentTy,
    /// The third component.
    pub z: ComponentTy,
}

impl<T: Copy> ColorType for GenericColor3<T> {
    type ComponentTy = T;

    const SPACE: Spaces = Spaces::GenericColor3;

    const NUM_COMPONENTS: usize = 3;

    open spec fn components(&self) -> Seq<T> {
        seq![self.x, self.y, self.z]
    }

    open spec fn from_components(s: Seq<T>) -> Self {
        GenericColor3 { x: s[0], y: s[1], z: s[2] }
    }

    proof fn lemma_components(c: Self) {
    }

    proof fn lemma_from_components(s: Seq<T>) {
        assert(Self::from_components(s).components() =~= s);
    }

    fn component(&self, i: usize) -> (r: &T) {
        if i == 0 {
            &self.x
        } else if i == 1 {
            &self.y
        } else {
            &self.z
        }
    }

    fn component_mut(&mut self, i: usize) -> (r: &mut T) {
        if i == 0 {
            &mut self.x
        } else if i == 1 {
            &mut self.y
        } else {
            &mut self.z
        }
    }
}

impl<T: Copy> BaseColor for GenericColor3<T> {
    proof fn lemma_space_components() {
    }
}

impl<T: Copy> From<[T; 3]> for GenericColor3<T> {
    fn from(a: [T; 3]) -> GenericColor3<T> {
        GenericColor3 { x: a[0], y: a[1], z: a[2] }
    }
}

impl<T: Copy> vstd::std_specs::convert::FromSpecImpl<[T; 3]> for GenericColor3<T> {
    open spec fn obeys_from_spec() -> bool {
        true
    }

    open spec fn from_spec(a: [T; 3]) -> GenericColor3<T> {
        <GenericColor3<T> as ColorType>::from_components(a@)
    }
}

impl<T: Copy> Into<[T; 3]> for GenericColor3<T> {
    fn into(self) -> [T; 3] {
        [self.x, self.y, self.z]
    }
}

impl<T: Copy> vstd::std_specs::convert::IntoSpecImpl<[T; 3]> for GenericColor3<T> {
    open spec fn obeys_into_spec() -> bool {
        true
    }

    open spec fn into_spec(self) -> [T; 3] {
        [self.x, self.y, self.z]
    }
}

impl<T: Copy> From<Alpha<GenericColor3<T>>> for GenericColor3<T> {
    fn from(col_alpha: Alpha<GenericColor3<T>>) -> GenericColor3<T> {
        col_alpha.color
    }
}

impl<T: Copy> vstd::std_specs::convert::FromSpecImpl<Alpha<GenericColor3<T>>> for GenericColor3<T> {
    open spec fn obeys_from_spec() -> bool {
        true
    }

    open spec fn from_spec(col_alpha: Alpha<GenericColor3<T>>) -> GenericColor3<T> {
        col_alpha.color
    }
}

impl<T: Copy> From<[T; 4]> for Alpha<GenericColor3<T>> {
    fn from(a: [T; 4]) -> Alpha<GenericColor3<T>> {
        Alpha { color: GenericColor3 { x: a[0], y: a[1], z: a[2] }, alpha: a[3] }
    }
}

impl<T: Copy> vstd::std_specs::convert::FromSpecImpl<[T; 4]> for Alpha<GenericColor3<T>> {
    open spec fn obeys_from_spec() -> bool {
        true
    }

    open spec fn from_spec(a: [T; 4]) -> Alpha<GenericColor3<T>> {
        <Alpha<GenericColor3<T>> as ColorType>::from_components(a@)
    }
}

impl<T: Copy> Into<[T; 4]> for Alpha<GenericColor3<T>> {
    fn into(self) -> [T; 4] {
        [self.color.x, self.color.y, self.color.z, self.alpha]
    }
}

impl<T: Copy> vstd::std_specs::convert::IntoSpecImpl<[T; 4]> for Alpha<GenericColor3<T>> {
    open spec fn obeys_into_spec() -> bool {
        true
    }

    open spec fn into_spec(self) -> [T; 4] {
        [self.color.x, self.color.y, self.color.z, self.alpha]
    }
}

impl<T: Copy> From<PremultipliedAlpha<GenericColor3<T>>> for GenericColor3<T> {
    fn from(col_alpha: PremultipliedAlpha<GenericColor3<T>>) -> GenericColor3<T> {
        col_alpha.color
    }
}

impl<T: Copy> vstd::std_specs::convert::FromSpecImpl<PremultipliedAlpha<GenericColor3<T>>> for GenericColor3<T> {
    open spec fn obeys_from_spec() -> bool {
        true
    }

    open spec fn from_spec(col_alpha: PremultipliedAlpha<GenericColor3<T>>) -> GenericColor3<T> {
        col_alpha.color
    }
}

impl<T: Copy> From<[T; 4]> for PremultipliedAlpha<GenericColor3<T>> {
    fn from(a: [T; 4]) -> PremultipliedAlpha<GenericColor3<T>> {
        PremultipliedAlpha { color: GenericColor3 { x: a[0], y: a[1], z: a[2] }, alpha: a[3] }
    }
}

impl<T: Copy> vstd::std_specs::convert::FromSpecImpl<[T; 4]> for PremultipliedAlpha<GenericColor3<T>> {
    open spec fn obeys_from_spec() -> bool {
        true
    }

    open spec fn from_spec(a: [T; 4]) -> PremultipliedAlpha<GenericColor3<T>> {
        <PremultipliedAlpha<GenericColor3<T>> as ColorType>::from_components(a@)
    }
}

impl<T: Copy> Into<[T; 4]> for PremultipliedAlpha<GenericColor3<T>> {
    fn into(self) -> [T; 4] {
        [self.color.x, self.color.y, self.color.z, self.alpha]
    }
}

impl<T: Copy> vstd::std_specs::convert::IntoSpecImpl<[T; 4]> for PremultipliedAlpha<GenericColor3<T>> {
    open spec fn obeys_into_spec() -> bool {
        true
    }

    open spec fn into_spec(self) -> [T; 4] {
        [self.color.x, self.color.y, self.color.z, self.alpha]
    }
}

/// A color in a generic color space that can be represented by 1 component. The user
/// is responsible for ensuring that the correct color space is respected.
#[derive(Clone, Copy, Debug, Hash, PartialEq, Eq, PartialOrd, Ord, Structural)]
pub struct GenericColor1<ComponentTy> {
    /// The first component.
    pub x: ComponentTy,
}

impl<T: Copy> ColorType for GenericColor1<T> {
    type ComponentTy = T;

    const SPACE: Spaces = Spaces::GenericColor1;

    const NUM_COMPONENTS: usize = 1;

    open spec fn components(&self) -> Seq<T> {
        seq![self.x]
    }

    open spec fn from_components(s: Seq<T>) -> Self {
        GenericColor1 { x: s[0] }
    }

    proof fn lemma_components(c: Self) {
    }

    proof fn lemma_from_components(s: Seq<T>) {
        assert(Self::from_components(s).components() =~= s);
    }

    fn component(&self, i: usize) -> (r: &T) {
        &self.x
    }

    fn component_mut(&mut self, i: usize) -> (r: &mut T) {
        &mut self.x
    }
}

impl<T: Copy> BaseColor for GenericColor1<T> {
    proof fn lemma_space_components() {
    }
}

impl<T: Copy> From<[T; 1]> for GenericColor1<T> {
    fn from(a: [T; 1]) -> GenericColor1<T> {
        GenericColor1 { x: a[0] }
    }
}

impl<T: Copy> vstd::std_specs::convert::FromSpecImpl<[T; 1]> for GenericColor1<T> {
    open spec fn obeys_from_spec() -> bool {
        true
    }

    open spec fn from_spec(a: [T; 1]) -> GenericColor1<T> {
        <GenericColor1<T> as ColorType>::from_components(a@)
    }
}

impl<T: Copy> Into<[T; 1]> for GenericColor1<T> {
    fn into(self) -> [T; 1] {
        [self.x]
    }
}

impl<T: Copy> vstd::std_specs::convert::IntoSpecImpl<[T; 1]> for GenericColor1<T> {
    open spec fn obeys_into_spec() -> bool {
        true
    }

    open spec fn into_spec(self) -> [T; 1] {
        [self.x]
    }
}

impl<T: Copy> From<Alpha<GenericColor1<T>>> for GenericColor1<T> {
    fn from(col_alpha: Alpha<GenericColor1<T>>) -> GenericColor1<T> {
        col_alpha.color
    }
}

impl<T: Copy> vstd::std_specs::convert::FromSpecImpl<Alpha<GenericColor1<T>>> for GenericColor1<T> {
    open spec fn obeys_from_spec() -> bool {
        true
    }

    open spec fn from_spec(col_alpha: Alpha<GenericColor1<T>>) -> GenericColor1<T> {
        col_alpha.color
    }
}

impl<T: Copy> From<[T; 2]> for Alpha<GenericColor1<T>> {
    fn from(a: [T; 2]) -> Alpha<GenericColor1<T>> {
        Alpha { color: GenericColor1 { x: a[0] }, alpha: a[1] }
    }
}

impl<T: Copy> vstd::std_specs::convert::FromSpecImpl<[T; 2]> for Alpha<GenericColor1<T>> {
    open spec fn obeys_from_spec() -> bool {
        true
    }

    open spec fn from_spec(a: [T; 2]) -> Alpha<GenericColor1<T>> {
        <Alpha<GenericColor1<T>> as ColorType>::from_components(a@)
    }
}

impl<T: Copy> Into<[T; 2]> for Alpha<GenericColor1<T>> {
    fn into(self) -> [T; 2] {
        [self.color.x, self.alpha]
    }
}

impl<T: Copy> vstd::std_specs::convert::IntoSpecImpl<[T; 2]> for Alpha<GenericColor1<T>> {
    open spec fn obeys_into_spec() -> bool {
        true
    }

    open spec fn into_spec(self) -> [T; 2] {
        [self.color.x, self.alpha]
    }
}

impl<T: Copy> From<PremultipliedAlpha<GenericColor1<T>>> for GenericColor1<T> {
    fn from(col_alpha: PremultipliedAlpha<GenericColor1<T>>) -> GenericColor1<T> {
        col_alpha.color
    }
}

impl<T: Copy> vstd::std_specs::convert::FromSpecImpl<PremultipliedAlpha<GenericColor1<T>>> for GenericColor1<T> {
    open spec fn obeys_from_spec() -> bool {
        true
    }

    open spec fn from_spec(col_alpha: PremultipliedAlpha<GenericColor1<T>>) -> GenericColor1<T> {
        col_alpha.color
    }
}

impl<T: Copy> From<[T; 2]> for PremultipliedAlpha<GenericColor1<T>> {
    fn from(a: [T; 2]) -> PremultipliedAlpha<GenericColor1<T>> {
        PremultipliedAlpha { color: GenericColor1 { x: a[0] }, alpha: a[1] }
    }
}

impl<T: Copy> vstd::std_specs::convert::FromSpecImpl<[T; 2]> for PremultipliedAlpha<GenericColor1<T>> {
    open spec fn obeys_from_spec() -> bool {
        true
    }

    open spec fn from_spec(a: [T; 2]) -> PremultipliedAlpha<GenericColor1<T>> {
        <PremultipliedAlpha<GenericColor1<T>> as ColorType>::from_components(a@)
    }
}

impl<T: Copy> Into<[T; 2]> for PremultipliedAlpha<GenericColor1<T>> {
    fn into(self) -> [T; 2] {
        [self.color.x, self.alpha]
    }
}

impl<T: Copy> vstd::std_specs::convert::IntoSpecImpl<[T; 2]> for PremultipliedAlpha<GenericColor1<T>> {
    open spec fn obeys_into_spec() -> bool {
        true
    }

    open spec fn into_spec(self) -> [T; 2] {
        [self.color.x, self.alpha]
    }
}

} // verus!
