//! Color interoperation types.
//!
//! A small, stable vocabulary of color types for libraries that do not depend on each other
//! to exchange color values through. Each type is a plain record of scalar components tagged
//! with a color space; nothing here converts between spaces or does any color math.
//!
//! A color loaded from an 8-bit image format, or picked in a paint program, is almost always
//! an [`EncodedSrgb<u8>`]. Once linearized it is a [`LinearSrgb`]. Other spaces have their own
//! records, and [`GenericColor3`] and [`GenericColor1`] serve a space that has none.
//!
//! Every record converts to and from the array of its components in field order, and
//! [`Alpha`] and [`PremultipliedAlpha`] add an alpha component, which comes last in their
//! arrays. The [`Spaces`] enum names each space at run time, and
//! [`ColorType::SPACE`] gives the tag of a type. Libraries with color types of their own
//! implement `From`/`Into` to and from these types and [`ColorInterop`] once per type to name
//! the canonical conversion.

pub mod space;
pub mod color_type;
pub mod interop;
pub mod alpha;
pub mod rgb;
pub mod aces;
pub mod bt2020;
pub mod generic;
pub mod luminance;
pub mod cie;
pub mod hue;
pub mod ycbcr;

pub use alpha::{Alpha, PremultipliedAlpha};
pub use color_type::{BaseColor, ColorType};
pub use interop::ColorInterop;
pub use space::Spaces;
pub use rgb::{EncodedSrgb, LinearSrgb, EncodedRec709, Rec709, DisplayP3, EncodedDisplayP3, DciP3};
pub use aces::{AcesCg, Aces2065, AcesCc, AcesCct};
pub use bt2020::{Bt2020, EncodedBt2020, Bt2100, EncodedBt2100PQ, EncodedBt2100HLG, ICtCpPQ, ICtCpHLG};
pub use generic::{GenericColor3, GenericColor1};
pub use luminance::{Luminance, Luma};
pub use cie::{DciXYZPrime, CieXYZ, CieLab, CieLCh, Oklab, Oklch, YCxCz};
pub use hue::{Hsl, Hsv};
pub use ycbcr::{YCbCr, YPrimeCbCr, YPbPr, YPrimePbPr, Yuv};
