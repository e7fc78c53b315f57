use vstd::prelude::*;

verus! {

/// A tag for each of the color spaces of this library. Useful as metadata, for instance in an
/// image type, and for color types that are only known at run time.
#[derive(Clone, Copy, Debug, Hash, PartialEq, Eq, Structural)]
pub enum Spaces {
    /// A color in the encoded sRGB color space.
    ///
    /// This color space uses the sRGB/Rec.709 primaries, D65 white point,
    /// and sRGB transfer functions. The encoded version is nonlinear, with the
    /// sRGB OETF, aka "gamma compensation", applied.
    EncodedSrgb,
    /// A color in the linear (decoded) sRGB color space.
    ///
    /// This color space uses the sRGB/Rec.709 primaries, D65 white point,
    /// and sRGB transfer functions. This version is linear, with the
    /// sRGB EOTF, aka "inverse gamma compensation", applied in order to
    /// decode it from [`EncodedSrgb`]
    LinearSrgb,
    /// A color in the encoded Rec.709/BT.709 color space.
    ///
    /// This color space uses the BT.709 primaries, D65 white point,
    /// and BT.601 (reused in BT.709) transfer function. The encoded version is nonlinear, with the
    /// BT.601 OETF applied.
    EncodedRec709,
    /// A color in the Rec.709/BT.709 color space.
    ///
    /// This color space uses the BT.709 primaries, D65 white point,
    /// and BT.601 (reused in BT.709) transfer function. This version is linear, without the
    /// BT.601 OETF applied.
    Rec709,
    /// A color in a generic color space that can be represented by 3 components. The user
    /// is responsible for ensuring that the correct color space is respected.
    GenericColor3,
    /// A color in a generic color space that can be represented by 1 component. The user
    /// is responsible for ensuring that the correct color space is respected.
    GenericColor1,
    /// A single-channel CIE luminance.
    Luminance,
    /// A single-channel CIE luma (non-linear transform from luminance).
    Luma,
    /// A color in the ACEScg color space.
    ///
    /// This color space uses the ACES AP1 primaries and D60 white point.
    AcesCg,
    /// A color in the ACES 2065-1 color space.
    ///
    /// This color space uses the ACES AP0 primaries and D60 white point.
    Aces2065,
    /// A color in the ACEScc color space.
    ///
    /// This color space uses the ACES AP1 primaries and D60 white point
    /// and a pure logarithmic transfer function.
    AcesCc,
    /// A color in the ACEScct color space.
    ///
    /// This color space uses the ACES AP1 primaries and D60 white point
    /// and a logarithmic transfer function with a toe such that values
    /// are able to go negative.
    AcesCct,
    /// A color in the Display P3 (aka P3 D65) color space.
    ///
    /// This color space uses the P3 primaries and D65 white point
    /// and sRGB transfer functions. This version is linear,
    /// without the sRGB OETF applied.
    DisplayP3,
    /// A color in the Display P3 (aka P3 D65) color space.
    ///
    /// This color space uses the P3 primaries and D65 white point
    /// and sRGB transfer functions. This encoded version is nonlinear,
    /// with the sRGB OETF applied.
    EncodedDisplayP3,
    /// A color in the DCI-P3 (aka P3 DCI and P3 D60) color space.
    ///
    /// If you are looking for the P3 which is used on new Apple displays, see
    /// [`DisplayP3`] instead.
    ///
    /// This color space uses the P3 primaries and D60 white point.
    DciP3,
    /// A color in the X'Y'Z' color space, a DCI specification used for digital cinema mastering.
    ///
    /// This color space uses the CIE XYZ primaries, with special DCI white point and pure 2.6 gamma encoding.
    DciXYZPrime,
    /// A color in the BT.2020 color space.
    ///
    /// This color space uses the BT.2020 primaries and D65 white point.
    Bt2020,
    /// A color in the encoded BT.2020 color space.
    ///
    /// This color space uses the BT.2020 primaries and D65 white point and
    /// the BT.2020 transfer functions (equivalent to BT.601 transfer functions
    /// but with higher precision). This encoded version is nonlinear, with the
    /// BT.2020/BT.601 OETF applied.
    EncodedBt2020,
    /// A color in the BT.2100 color space.
    ///
    /// This color space uses the BT.2020 primaries and D65 white point.
    Bt2100,
    /// A color in the encoded BT.2100 color space with PQ (Perceptual Quantizer)
    /// transfer function.
    ///
    /// This color space uses the BT.2020 primaries and D65 white point and
    /// the ST 2084/"PQ" transfer function. It is nonlinear.
    EncodedBt2100PQ,
    /// A color in the encoded BT.2100 color space with HLG (Hybrid Log-Gamma)
    /// transfer function.
    ///
    /// This color space uses the BT.2020 primaries and D65 white point and
    /// the HLG transfer function. It is nonlinear.
    EncodedBt2100HLG,
    /// A color in the ICtCp color space with PQ (Perceptual Quantizer)
    /// nonlinearity.
    ///
    /// This color space is based on the BT.2020 primaries and D65 white point,
    /// but is not an RGB color space. Instead it is a roughly perceptual color
    /// space meant to more efficiently encode HDR content.
    ICtCpPQ,
    /// A color in the ICtCp color space with HLG (Hybrid Log-Gamma)
    /// nonlinearity.
    ///
    /// This color space is based on the BT.2020 primaries and D65 white point,
    /// but is not an RGB color space. Instead it is a roughly perceptual color
    /// space meant to more efficiently encode HDR content.
    ICtCpHLG,
    /// A color in the CIE XYZ color space.
    ///
    /// This color space uses the CIE XYZ primaries and D65 white point.
    CieXYZ,
    /// A color in the CIE L\*a\*b\* color space.
    CieLab,
    /// A color in the CIE L\*C\*h° color space.
    CieLCh,
    /// A color in the Oklab color space.
    Oklab,
    /// A color in the Oklch color space (a transformation from Oklab to LCh° coordinates).
    Oklch,
    /// A color in the HSL color space.
    ///
    /// Since HSL is a relative color space, it is required to know the RGB space which
    /// it was transformed from. We define this as the linear sRGB space, as that is
    /// the most common case.
    Hsl,
    /// A color in the HSV color space.
    ///
    /// Since HSV is a relative color space, it is required to know the RGB space which
    /// it was transformed from. We define this as the linear sRGB space, as that is
    /// the most common case.
    Hsv,
    /// A color in the YCbCr color space. See discussion of the difference between YCbCr, YUV, and
    /// YPbPr in [YCbCr Wikipedia article](https://en.wikipedia.org/wiki/YCbCr)
    ///
    /// Since YCbCr is a relative color space, it is required to know the RGB space which
    /// it was transformed from. We define this as being converted from the LinearSrgb color space.
    YCbCr,
    /// A color in the Y'CbCr color space. See discussion of the difference between YCbCr, Y'CbCr,
    /// YUV, YPbPr, and Y'PbPr in the [YCbCr Wikipedia article](https://en.wikipedia.org/wiki/YCbCr)
    ///
    /// Since Y'CbCr is a relative color space, it is required to know the RGB space which
    /// it was transformed from. We define this as being converted from the EncodedSrgb color space.
    YPrimeCbCr,
    /// A color in the YPbPr color space. See discussion of the difference between YCbCr,
    /// YUV, YPbPr, and Y'PbPr in the [YCbCr Wikipedia article](https://en.wikipedia.org/wiki/YCbCr)
    ///
    /// Since YPbPr is a relative color space, it is required to know the RGB space which
    /// it was transformed from. We define this as being converted from the LinearSrgb color space.
    YPbPr,
    /// A color in the Y'PbPr color space. See discussion of the difference between YCbCr,
    /// YUV, YPbPr, and Y'PbPr in the [YCbCr Wikipedia article](https://en.wikipedia.org/wiki/YCbCr)
    ///
    /// Since Y'PbPr is a relative color space, it is required to know the RGB space which
    /// it was transformed from. We define this as being converted from the EncodedSrgb color space.
    YPrimePbPr,
    /// A color in the YUV color space. See discussion of the difference between YCbCr, YUV, and
    /// YPbPr in [YCbCr Wikipedia article](https://en.wikipedia.org/wiki/YCbCr)
    Yuv,
    /// A color in the YCxCz (also called YyCxCz) color space, originally defined in "Optimized
    /// universal color palette design for error diffusion" by B. W. Kolpatzik and C. A. Bouman.
    /// Can be thought of as a "linear CIE Lab".
    YCxCz,
}

impl Spaces {
    /// How many scalar components a record of this color space holds, alpha not counted.
    pub open spec fn spec_num_components(self) -> nat {
        match self {
            Spaces::EncodedSrgb => 3,
            Spaces::LinearSrgb => 3,
            Spaces::EncodedRec709 => 3,
            Spaces::Rec709 => 3,
            Spaces::GenericColor3 => 3,
            Spaces::GenericColor1 => 1,
            Spaces::Luminance => 1,
            Spaces::Luma => 1,
            Spaces::AcesCg => 3,
            Spaces::Aces2065 => 3,
            Spaces::AcesCc => 3,
            Spaces::AcesCct => 3,
            Spaces::DisplayP3 => 3,
            Spaces::EncodedDisplayP3 => 3,
            Spaces::DciP3 => 3,
            Spaces::DciXYZPrime => 3,
            Spaces::Bt2020 => 3,
            Spaces::EncodedBt2020 => 3,
            Spaces::Bt2100 => 3,
            Spaces::EncodedBt2100PQ => 3,
            Spaces::EncodedBt2100HLG => 3,
            Spaces::ICtCpPQ => 3,
            Spaces::ICtCpHLG => 3,
            Spaces::CieXYZ => 3,
            Spaces::CieLab => 3,
            Spaces::CieLCh => 3,
            Spaces::Oklab => 3,
            Spaces::Oklch => 3,
            Spaces::Hsl => 3,
            Spaces::Hsv => 3,
            Spaces::YCbCr => 3,
            Spaces::YPrimeCbCr => 3,
            Spaces::YPbPr => 3,
            Spaces::YPrimePbPr => 3,
            Spaces::Yuv => 3,
            Spaces::YCxCz => 3,
        }
    }

    /// How many scalar components a record of this color space holds, alpha not counted.
    pub fn num_components(&self) -> (r: usize)
        ensures
            r == self.spec_num_components(),
    {
        match *self {
            Spaces::EncodedSrgb => 3,
            Spaces::LinearSrgb => 3,
            Spaces::EncodedRec709 => 3,
            Spaces::Rec709 => 3,
            Spaces::GenericColor3 => 3,
            Spaces::GenericColor1 => 1,
            Spaces::Luminance => 1,
            Spaces::Luma => 1,
            Spaces::AcesCg => 3,
            Spaces::Aces2065 => 3,
            Spaces::AcesCc => 3,
            Spaces::AcesCct => 3,
            Spaces::DisplayP3 => 3,
            Spaces::EncodedDisplayP3 => 3,
            Spaces::DciP3 => 3,
            Spaces::DciXYZPrime => 3,
            Spaces::Bt2020 => 3,
            Spaces::EncodedBt2020 => 3,
            Spaces::Bt2100 => 3,
            Spaces::EncodedBt2100PQ => 3,
            Spaces::EncodedBt2100HLG => 3,
            Spaces::ICtCpPQ => 3,
            Spaces::ICtCpHLG => 3,
            Spaces::CieXYZ => 3,
            Spaces::CieLab => 3,
            Spaces::CieLCh => 3,
            Spaces::Oklab => 3,
            Spaces::Oklch => 3,
            Spaces::Hsl => 3,
            Spaces::Hsv => 3,
            Spaces::YCbCr => 3,
            Spaces::YPrimeCbCr => 3,
            Spaces::YPbPr => 3,
            Spaces::YPrimePbPr => 3,
            Spaces::Yuv => 3,
            Spaces::YCxCz => 3,
        }
    }
}

} // verus!
