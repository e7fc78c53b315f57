use vstd::prelude::*;

verus! {

/// A canonical conversion between a color type of another library and its closest type of
/// this one.
///
/// A type may convert to and from several of this library's types, which often leaves
/// `From`/`Into` calls ambiguous. Implementing this trait once for a color type names the
/// one conversion pair to use; `from_cint` and `into_cint` then come with it and do exactly
/// what the type's `Into` conversions do.
pub trait ColorInterop where Self: Into<<Self as ColorInterop>::CintTy> {
    /// The type of this library that `Self` converts to and from canonically.
    type CintTy: Into<Self>;

    /// Builds a `Self` from its canonical type of this library.
    fn from_cint(col: Self::CintTy) -> (r: Self)
        ensures
            call_ensures(<Self::CintTy as Into<Self>>::into, (col,), r),
    {
        col.into()
    }

    /// Converts `self` into its canonical type of this library.
    fn into_cint(self) -> (r: Self::CintTy)
        ensures
            call_ensures(<Self as Into<Self::CintTy>>::into, (self,), r),
    {
        self.into()
    }
}

} // verus!
