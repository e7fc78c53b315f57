use cint::{Alpha, ColorType, PremultipliedAlpha, Spaces};
use cint::{
    EncodedSrgb, LinearSrgb, EncodedRec709, Rec709, GenericColor3, GenericColor1, Luminance, Luma,
    AcesCg, Aces2065, AcesCc, AcesCct, DisplayP3, EncodedDisplayP3, DciP3, DciXYZPrime, Bt2020,
    EncodedBt2020, Bt2100, EncodedBt2100PQ, EncodedBt2100HLG, ICtCpPQ, ICtCpHLG, CieXYZ, CieLab,
    CieLCh, Oklab, Oklch, Hsl, Hsv, YCbCr, YPrimeCbCr, YPbPr, YPrimePbPr, Yuv, YCxCz,
};

#[test]
fn encoded_srgb_array_round_trips() {
    let c = EncodedSrgb::from([12u8, 34, 56]);
    assert_eq!(c.r, 12);
    assert_eq!(c.g, 34);
    assert_eq!(c.b, 56);
    let back: [u8; 3] = c.into();
    assert_eq!(back, [12u8, 34, 56]);
    let a = Alpha::<EncodedSrgb<u8>>::from([12u8, 34, 56, 78]);
    assert_eq!(a.color, c);
    assert_eq!(a.alpha, 78);
    let back: [u8; 4] = a.into();
    assert_eq!(back, [12u8, 34, 56, 78]);
    assert_eq!(EncodedSrgb::from(a), c);
    let p = PremultipliedAlpha::<EncodedSrgb<u8>>::from([12u8, 34, 56, 78]);
    assert_eq!(p.color, c);
    assert_eq!(p.alpha, 78);
    let back: [u8; 4] = p.into();
    assert_eq!(back, [12u8, 34, 56, 78]);
    assert_eq!(EncodedSrgb::from(p), c);
}

#[test]
fn encoded_srgb_component_views() {
    let c = EncodedSrgb::from([12u8, 34, 56]);
    assert_eq!(*c.component(0), c.r);
    assert_eq!(*c.component(1), c.g);
    assert_eq!(*c.component(2), c.b);
    let a = Alpha { color: c, alpha: 78 };
    assert_eq!(*a.component(3), 78);
    assert_eq!(*a.component(0), c.r);
    assert_eq!(c, EncodedSrgb::from([12u8, 34, 56]));
    let mut d = c;
    *d.component_mut(0) = 99;
    assert_eq!(d.r, 99);
    assert_ne!(d, c);
    assert_eq!(d.g, c.g);
    assert_eq!(d.b, c.b);
    let mut d = c;
    *d.component_mut(1) = 99;
    assert_eq!(d.g, 99);
    assert_ne!(d, c);
    assert_eq!(d.r, c.r);
    assert_eq!(d.b, c.b);
    let mut d = c;
    *d.component_mut(2) = 99;
    assert_eq!(d.b, 99);
    assert_ne!(d, c);
    assert_eq!(d.r, c.r);
    assert_eq!(d.g, c.g);
    let mut p = PremultipliedAlpha { color: c, alpha: 78 };
    *p.component_mut(3) = 99;
    assert_eq!(p.alpha, 99);
    assert_eq!(p.color, c);
}

#[test]
fn encoded_srgb_space_tag() {
    assert_eq!(<EncodedSrgb<u8> as ColorType>::SPACE, Spaces::EncodedSrgb);
    assert_eq!(<EncodedSrgb<u8> as ColorType>::NUM_COMPONENTS, 3);
    assert_eq!(Spaces::EncodedSrgb.num_components(), 3);
    assert_eq!(<Alpha<EncodedSrgb<u8>> as ColorType>::SPACE, Spaces::EncodedSrgb);
    assert_eq!(<Alpha<EncodedSrgb<u8>> as ColorType>::NUM_COMPONENTS, 4);
    assert_eq!(<PremultipliedAlpha<EncodedSrgb<u8>> as ColorType>::SPACE, Spaces::EncodedSrgb);
    assert_eq!(<PremultipliedAlpha<EncodedSrgb<u8>> as ColorType>::NUM_COMPONENTS, 4);
}

#[test]
fn linear_srgb_array_round_trips() {
    let c = LinearSrgb::from([0.5f32, -0.25, 0.125]);
    assert_eq!(c.r, 0.5);
    assert_eq!(c.g, -0.25);
    assert_eq!(c.b, 0.125);
    let back: [f32; 3] = c.into();
    assert_eq!(back, [0.5f32, -0.25, 0.125]);
    let a = Alpha::<LinearSrgb<f32>>::from([0.5f32, -0.25, 0.125, 0.75]);
    assert_eq!(a.color, c);
    assert_eq!(a.alpha, 0.75);
    let back: [f32; 4] = a.into();
    assert_eq!(back, [0.5f32, -0.25, 0.125, 0.75]);
    assert_eq!(LinearSrgb::from(a), c);
    let p = PremultipliedAlpha::<LinearSrgb<f32>>::from([0.5f32, -0.25, 0.125, 0.75]);
    assert_eq!(p.color, c);
    assert_eq!(p.alpha, 0.75);
    let back: [f32; 4] = p.into();
    assert_eq!(back, [0.5f32, -0.25, 0.125, 0.75]);
    assert_eq!(LinearSrgb::from(p), c);
}

#[test]
fn linear_srgb_component_views() {
    let c = LinearSrgb::from([0.5f32, -0.25, 0.125]);
    assert_eq!(*c.component(0), c.r);
    assert_eq!(*c.component(1), c.g);
    assert_eq!(*c.component(2), c.b);
    let a = Alpha { color: c, alpha: 0.75 };
    assert_eq!(*a.component(3), 0.75);
    assert_eq!(*a.component(0), c.r);
    assert_eq!(c, LinearSrgb::from([0.5f32, -0.25, 0.125]));
    let mut d = c;
    *d.component_mut(0) = 2.0;
    assert_eq!(d.r, 2.0);
    assert_ne!(d, c);
    assert_eq!(d.g, c.g);
    assert_eq!(d.b, c.b);
    let mut d = c;
    *d.component_mut(1) = 2.0;
    assert_eq!(d.g, 2.0);
    assert_ne!(d, c);
    assert_eq!(d.r, c.r);
    assert_eq!(d.b, c.b);
    let mut d = c;
    *d.component_mut(2) = 2.0;
    assert_eq!(d.b, 2.0);
    assert_ne!(d, c);
    assert_eq!(d.r, c.r);
    assert_eq!(d.g, c.g);
    let mut p = PremultipliedAlpha { color: c, alpha: 0.75 };
    *p.component_mut(3) = 2.0;
    assert_eq!(p.alpha, 2.0);
    assert_eq!(p.color, c);
}

#[test]
fn linear_srgb_space_tag() {
    assert_eq!(<LinearSrgb<f32> as ColorType>::SPACE, Spaces::LinearSrgb);
    assert_eq!(<LinearSrgb<f32> as ColorType>::NUM_COMPONENTS, 3);
    assert_eq!(Spaces::LinearSrgb.num_components(), 3);
    assert_eq!(<Alpha<LinearSrgb<f32>> as ColorType>::SPACE, Spaces::LinearSrgb);
    assert_eq!(<Alpha<LinearSrgb<f32>> as ColorType>::NUM_COMPONENTS, 4);
    assert_eq!(<PremultipliedAlpha<LinearSrgb<f32>> as ColorType>::SPACE, Spaces::LinearSrgb);
    assert_eq!(<PremultipliedAlpha<LinearSrgb<f32>> as ColorType>::NUM_COMPONENTS, 4);
}

#[test]
fn encoded_rec709_array_round_trips() {
    let c = EncodedRec709::from([12u8, 34, 56]);
    assert_eq!(c.r, 12);
    assert_eq!(c.g, 34);
    assert_eq!(c.b, 56);
    let back: [u8; 3] = c.into();
    assert_eq!(back, [12u8, 34, 56]);
    let a = Alpha::<EncodedRec709<u8>>::from([12u8, 34, 56, 78]);
    assert_eq!(a.color, c);
    assert_eq!(a.alpha, 78);
    let back: [u8; 4] = a.into();
    assert_eq!(back, [12u8, 34, 56, 78]);
    assert_eq!(EncodedRec709::from(a), c);
    let p = PremultipliedAlpha::<EncodedRec709<u8>>::from([12u8, 34, 56, 78]);
    assert_eq!(p.color, c);
    assert_eq!(p.alpha, 78);
    let back: [u8; 4] = p.into();
    assert_eq!(back, [12u8, 34, 56, 78]);
    assert_eq!(EncodedRec709::from(p), c);
}

#[test]
fn encoded_rec709_component_views() {
    let c = EncodedRec709::from([12u8, 34, 56]);
    assert_eq!(*c.component(0), c.r);
    assert_eq!(*c.component(1), c.g);
    assert_eq!(*c.component(2), c.b);
    let a = Alpha { color: c, alpha: 78 };
    assert_eq!(*a.component(3), 78);
    assert_eq!(*a.component(0), c.r);
    assert_eq!(c, EncodedRec709::from([12u8, 34, 56]));
    let mut d = c;
    *d.component_mut(0) = 99;
    assert_eq!(d.r, 99);
    assert_ne!(d, c);
    assert_eq!(d.g, c.g);
    assert_eq!(d.b, c.b);
    let mut d = c;
    *d.component_mut(1) = 99;
    assert_eq!(d.g, 99);
    assert_ne!(d, c);
    assert_eq!(d.r, c.r);
    assert_eq!(d.b, c.b);
    let mut d = c;
    *d.component_mut(2) = 99;
    assert_eq!(d.b, 99);
    assert_ne!(d, c);
    assert_eq!(d.r, c.r);
    assert_eq!(d.g, c.g);
    let mut p = PremultipliedAlpha { color: c, alpha: 78 };
    *p.component_mut(3) = 99;
    assert_eq!(p.alpha, 99);
    assert_eq!(p.color, c);
}

#[test]
fn encoded_rec709_space_tag() {
    assert_eq!(<EncodedRec709<u8> as ColorType>::SPACE, Spaces::EncodedRec709);
    assert_eq!(<EncodedRec709<u8> as ColorType>::NUM_COMPONENTS, 3);
    assert_eq!(Spaces::EncodedRec709.num_components(), 3);
    assert_eq!(<Alpha<EncodedRec709<u8>> as ColorType>::SPACE, Spaces::EncodedRec709);
    assert_eq!(<Alpha<EncodedRec709<u8>> as ColorType>::NUM_COMPONENTS, 4);
    assert_eq!(<PremultipliedAlpha<EncodedRec709<u8>> as ColorType>::SPACE, Spaces::EncodedRec709);
    assert_eq!(<PremultipliedAlpha<EncodedRec709<u8>> as ColorType>::NUM_COMPONENTS, 4);
}

#[test]
fn rec709_array_round_trips() {
    let c = Rec709::from([0.5f32, -0.25, 0.125]);
    assert_eq!(c.r, 0.5);
    assert_eq!(c.g, -0.25);
    assert_eq!(c.b, 0.125);
    let back: [f32; 3] = c.into();
    assert_eq!(back, [0.5f32, -0.25, 0.125]);
    let a = Alpha::<Rec709<f32>>::from([0.5f32, -0.25, 0.125, 0.75]);
    assert_eq!(a.color, c);
    assert_eq!(a.alpha, 0.75);
    let back: [f32; 4] = a.into();
    assert_eq!(back, [0.5f32, -0.25, 0.125, 0.75]);
    assert_eq!(Rec709::from(a), c);
    let p = PremultipliedAlpha::<Rec709<f32>>::from([0.5f32, -0.25, 0.125, 0.75]);
    assert_eq!(p.color, c);
    assert_eq!(p.alpha, 0.75);
    let back: [f32; 4] = p.into();
    assert_eq!(back, [0.5f32, -0.25, 0.125, 0.75]);
    assert_eq!(Rec709::from(p), c);
}

#[test]
fn rec709_component_views() {
    let c = Rec709::from([0.5f32, -0.25, 0.125]);
    assert_eq!(*c.component(0), c.r);
    assert_eq!(*c.component(1), c.g);
    assert_eq!(*c.component(2), c.b);
    let a = Alpha { color: c, alpha: 0.75 };
    assert_eq!(*a.component(3), 0.75);
    assert_eq!(*a.component(0), c.r);
    assert_eq!(c, Rec709::from([0.5f32, -0.25, 0.125]));
    let mut d = c;
    *d.component_mut(0) = 2.0;
    assert_eq!(d.r, 2.0);
    assert_ne!(d, c);
    assert_eq!(d.g, c.g);
    assert_eq!(d.b, c.b);
    let mut d = c;
    *d.component_mut(1) = 2.0;
    assert_eq!(d.g, 2.0);
    assert_ne!(d, c);
    assert_eq!(d.r, c.r);
    assert_eq!(d.b, c.b);
    let mut d = c;
    *d.component_mut(2) = 2.0;
    assert_eq!(d.b, 2.0);
    assert_ne!(d, c);
    assert_eq!(d.r, c.r);
    assert_eq!(d.g, c.g);
    let mut p = PremultipliedAlpha { color: c, alpha: 0.75 };
    *p.component_mut(3) = 2.0;
    assert_eq!(p.alpha, 2.0);
    assert_eq!(p.color, c);
}

#[test]
fn rec709_space_tag() {
    assert_eq!(<Rec709<f32> as ColorType>::SPACE, Spaces::Rec709);
    assert_eq!(<Rec709<f32> as ColorType>::NUM_COMPONENTS, 3);
    assert_eq!(Spaces::Rec709.num_components(), 3);
    assert_eq!(<Alpha<Rec709<f32>> as ColorType>::SPACE, Spaces::Rec709);
    assert_eq!(<Alpha<Rec709<f32>> as ColorType>::NUM_COMPONENTS, 4);
    assert_eq!(<PremultipliedAlpha<Rec709<f32>> as ColorType>::SPACE, Spaces::Rec709);
    assert_eq!(<PremultipliedAlpha<Rec709<f32>> as ColorType>::NUM_COMPONENTS, 4);
}

#[test]
fn generic_color3_array_round_trips() {
    let c = GenericColor3::from([0.5f32, -0.25, 0.125]);
    assert_eq!(c.x, 0.5);
    assert_eq!(c.y, -0.25);
    assert_eq!(c.z, 0.125);
    let back: [f32; 3] = c.into();
    assert_eq!(back, [0.5f32, -0.25, 0.125]);
    let a = Alpha::<GenericColor3<f32>>::from([0.5f32, -0.25, 0.125, 0.75]);
    assert_eq!(a.color, c);
    assert_eq!(a.alpha, 0.75);
    let back: [f32; 4] = a.into();
    assert_eq!(back, [0.5f32, -0.25, 0.125, 0.75]);
    assert_eq!(GenericColor3::from(a), c);
    let p = PremultipliedAlpha::<GenericColor3<f32>>::from([0.5f32, -0.25, 0.125, 0.75]);
    assert_eq!(p.color, c);
    assert_eq!(p.alpha, 0.75);
    let back: [f32; 4] = p.into();
    assert_eq!(back, [0.5f32, -0.25, 0.125, 0.75]);
    assert_eq!(GenericColor3::from(p), c);
}

#[test]
fn generic_color3_component_views() {
    let c = GenericColor3::from([0.5f32, -0.25, 0.125]);
    assert_eq!(*c.component(0), c.x);
    assert_eq!(*c.component(1), c.y);
    assert_eq!(*c.component(2), c.z);
    let a = Alpha { color: c, alpha: 0.75 };
    assert_eq!(*a.component(3), 0.75);
    assert_eq!(*a.component(0), c.x);
    assert_eq!(c, GenericColor3::from([0.5f32, -0.25, 0.125]));
    let mut d = c;
    *d.component_mut(0) = 2.0;
    assert_eq!(d.x, 2.0);
    assert_ne!(d, c);
    assert_eq!(d.y, c.y);
    assert_eq!(d.z, c.z);
    let mut d = c;
    *d.component_mut(1) = 2.0;
    assert_eq!(d.y, 2.0);
    assert_ne!(d, c);
    assert_eq!(d.x, c.x);
    assert_eq!(d.z, c.z);
    let mut d = c;
    *d.component_mut(2) = 2.0;
    assert_eq!(d.z, 2.0);
    assert_ne!(d, c);
    assert_eq!(d.x, c.x);
    assert_eq!(d.y, c.y);
    let mut p = PremultipliedAlpha { color: c, alpha: 0.75 };
    *p.component_mut(3) = 2.0;
    assert_eq!(p.alpha, 2.0);
    assert_eq!(p.color, c);
}

#[test]
fn generic_color3_space_tag() {
    assert_eq!(<GenericColor3<f32> as ColorType>::SPACE, Spaces::GenericColor3);
    assert_eq!(<GenericColor3<f32> as ColorType>::NUM_COMPONENTS, 3);
    assert_eq!(Spaces::GenericColor3.num_components(), 3);
    assert_eq!(<Alpha<GenericColor3<f32>> as ColorType>::SPACE, Spaces::GenericColor3);
    assert_eq!(<Alpha<GenericColor3<f32>> as ColorType>::NUM_COMPONENTS, 4);
    assert_eq!(<PremultipliedAlpha<GenericColor3<f32>> as ColorType>::SPACE, Spaces::GenericColor3);
    assert_eq!(<PremultipliedAlpha<GenericColor3<f32>> as ColorType>::NUM_COMPONENTS, 4);
}

#[test]
fn generic_color1_array_round_trips() {
    let c = GenericColor1::from([0.5f32]);
    assert_eq!(c.x, 0.5);
    let back: [f32; 1] = c.into();
    assert_eq!(back, [0.5f32]);
    let a = Alpha::<GenericColor1<f32>>::from([0.5f32, -0.25]);
    assert_eq!(a.color, c);
    assert_eq!(a.alpha, -0.25);
    let back: [f32; 2] = a.into();
    assert_eq!(back, [0.5f32, -0.25]);
    assert_eq!(GenericColor1::from(a), c);
    let p = PremultipliedAlpha::<GenericColor1<f32>>::from([0.5f32, -0.25]);
    assert_eq!(p.color, c);
    assert_eq!(p.alpha, -0.25);
    let back: [f32; 2] = p.into();
    assert_eq!(back, [0.5f32, -0.25]);
    assert_eq!(GenericColor1::from(p), c);
}

#[test]
fn generic_color1_component_views() {
    let c = GenericColor1::from([0.5f32]);
    assert_eq!(*c.component(0), c.x);
    let a = Alpha { color: c, alpha: -0.25 };
    assert_eq!(*a.component(1), -0.25);
    assert_eq!(*a.component(0), c.x);
    assert_eq!(c, GenericColor1::from([0.5f32]));
    let mut d = c;
    *d.component_mut(0) = 2.0;
    assert_eq!(d.x, 2.0);
    assert_ne!(d, c);
    let mut p = PremultipliedAlpha { color: c, alpha: -0.25 };
    *p.component_mut(1) = 2.0;
    assert_eq!(p.alpha, 2.0);
    assert_eq!(p.color, c);
}

#[test]
fn generic_color1_space_tag() {
    assert_eq!(<GenericColor1<f32> as ColorType>::SPACE, Spaces::GenericColor1);
    assert_eq!(<GenericColor1<f32> as ColorType>::NUM_COMPONENTS, 1);
    assert_eq!(Spaces::GenericColor1.num_components(), 1);
    assert_eq!(<Alpha<GenericColor1<f32>> as ColorType>::SPACE, Spaces::GenericColor1);
    assert_eq!(<Alpha<GenericColor1<f32>> as ColorType>::NUM_COMPONENTS, 2);
    assert_eq!(<PremultipliedAlpha<GenericColor1<f32>> as ColorType>::SPACE, Spaces::GenericColor1);
    assert_eq!(<PremultipliedAlpha<GenericColor1<f32>> as ColorType>::NUM_COMPONENTS, 2);
}

#[test]
fn luminance_array_round_trips() {
    let c = Luminance::from([0.5f32]);
    assert_eq!(c.l, 0.5);
    let back: [f32; 1] = c.into();
    assert_eq!(back, [0.5f32]);
    let a = Alpha::<Luminance<f32>>::from([0.5f32, -0.25]);
    assert_eq!(a.color, c);
    assert_eq!(a.alpha, -0.25);
    let back: [f32; 2] = a.into();
    assert_eq!(back, [0.5f32, -0.25]);
    assert_eq!(Luminance::from(a), c);
    let p = PremultipliedAlpha::<Luminance<f32>>::from([0.5f32, -0.25]);
    assert_eq!(p.color, c);
    assert_eq!(p.alpha, -0.25);
    let back: [f32; 2] = p.into();
    assert_eq!(back, [0.5f32, -0.25]);
    assert_eq!(Luminance::from(p), c);
}

#[test]
fn luminance_component_views() {
    let c = Luminance::from([0.5f32]);
    assert_eq!(*c.component(0), c.l);
    let a = Alpha { color: c, alpha: -0.25 };
    assert_eq!(*a.component(1), -0.25);
    assert_eq!(*a.component(0), c.l);
    assert_eq!(c, Luminance::from([0.5f32]));
    let mut d = c;
    *d.component_mut(0) = 2.0;
    assert_eq!(d.l, 2.0);
    assert_ne!(d, c);
    let mut p = PremultipliedAlpha { color: c, alpha: -0.25 };
    *p.component_mut(1) = 2.0;
    assert_eq!(p.alpha, 2.0);
    assert_eq!(p.color, c);
}

#[test]
fn luminance_space_tag() {
    assert_eq!(<Luminance<f32> as ColorType>::SPACE, Spaces::Luminance);
    assert_eq!(<Luminance<f32> as ColorType>::NUM_COMPONENTS, 1);
    assert_eq!(Spaces::Luminance.num_components(), 1);
    assert_eq!(<Alpha<Luminance<f32>> as ColorType>::SPACE, Spaces::Luminance);
    assert_eq!(<Alpha<Luminance<f32>> as ColorType>::NUM_COMPONENTS, 2);
    assert_eq!(<PremultipliedAlpha<Luminance<f32>> as ColorType>::SPACE, Spaces::Luminance);
    assert_eq!(<PremultipliedAlpha<Luminance<f32>> as ColorType>::NUM_COMPONENTS, 2);
}

#[test]
fn luma_array_round_trips() {
    let c = Luma::from([0.5f32]);
    assert_eq!(c.l, 0.5);
    let back: [f32; 1] = c.into();
    assert_eq!(back, [0.5f32]);
    let a = Alpha::<Luma<f32>>::from([0.5f32, -0.25]);
    assert_eq!(a.color, c);
    assert_eq!(a.alpha, -0.25);
    let back: [f32; 2] = a.into();
    assert_eq!(back, [0.5f32, -0.25]);
    assert_eq!(Luma::from(a), c);
    let p = PremultipliedAlpha::<Luma<f32>>::from([0.5f32, -0.25]);
    assert_eq!(p.color, c);
    assert_eq!(p.alpha, -0.25);
    let back: [f32; 2] = p.into();
    assert_eq!(back, [0.5f32, -0.25]);
    assert_eq!(Luma::from(p), c);
}

#[test]
fn luma_component_views() {
    let c = Luma::from([0.5f32]);
    assert_eq!(*c.component(0), c.l);
    let a = Alpha { color: c, alpha: -0.25 };
    assert_eq!(*a.component(1), -0.25);
    assert_eq!(*a.component(0), c.l);
    assert_eq!(c, Luma::from([0.5f32]));
    let mut d = c;
    *d.component_mut(0) = 2.0;
    assert_eq!(d.l, 2.0);
    assert_ne!(d, c);
    let mut p = PremultipliedAlpha { color: c, alpha: -0.25 };
    *p.component_mut(1) = 2.0;
    assert_eq!(p.alpha, 2.0);
    assert_eq!(p.color, c);
}

#[test]
fn luma_space_tag() {
    assert_eq!(<Luma<f32> as ColorType>::SPACE, Spaces::Luma);
    assert_eq!(<Luma<f32> as ColorType>::NUM_COMPONENTS, 1);
    assert_eq!(Spaces::Luma.num_components(), 1);
    assert_eq!(<Alpha<Luma<f32>> as ColorType>::SPACE, Spaces::Luma);
    assert_eq!(<Alpha<Luma<f32>> as ColorType>::NUM_COMPONENTS, 2);
    assert_eq!(<PremultipliedAlpha<Luma<f32>> as ColorType>::SPACE, Spaces::Luma);
    assert_eq!(<PremultipliedAlpha<Luma<f32>> as ColorType>::NUM_COMPONENTS, 2);
}

#[test]
fn aces_cg_array_round_trips() {
    let c = AcesCg::from([0.5f32, -0.25, 0.125]);
    assert_eq!(c.r, 0.5);
    assert_eq!(c.g, -0.25);
    assert_eq!(c.b, 0.125);
    let back: [f32; 3] = c.into();
    assert_eq!(back, [0.5f32, -0.25, 0.125]);
    let a = Alpha::<AcesCg<f32>>::from([0.5f32, -0.25, 0.125, 0.75]);
    assert_eq!(a.color, c);
    assert_eq!(a.alpha, 0.75);
    let back: [f32; 4] = a.into();
    assert_eq!(back, [0.5f32, -0.25, 0.125, 0.75]);
    assert_eq!(AcesCg::from(a), c);
    let p = PremultipliedAlpha::<AcesCg<f32>>::from([0.5f32, -0.25, 0.125, 0.75]);
    assert_eq!(p.color, c);
    assert_eq!(p.alpha, 0.75);
    let back: [f32; 4] = p.into();
    assert_eq!(back, [0.5f32, -0.25, 0.125, 0.75]);
    assert_eq!(AcesCg::from(p), c);
}

#[test]
fn aces_cg_component_views() {
    let c = AcesCg::from([0.5f32, -0.25, 0.125]);
    assert_eq!(*c.component(0), c.r);
    assert_eq!(*c.component(1), c.g);
    assert_eq!(*c.component(2), c.b);
    let a = Alpha { color: c, alpha: 0.75 };
    assert_eq!(*a.component(3), 0.75);
    assert_eq!(*a.component(0), c.r);
    assert_eq!(c, AcesCg::from([0.5f32, -0.25, 0.125]));
    let mut d = c;
    *d.component_mut(0) = 2.0;
    assert_eq!(d.r, 2.0);
    assert_ne!(d, c);
    assert_eq!(d.g, c.g);
    assert_eq!(d.b, c.b);
    let mut d = c;
    *d.component_mut(1) = 2.0;
    assert_eq!(d.g, 2.0);
    assert_ne!(d, c);
    assert_eq!(d.r, c.r);
    assert_eq!(d.b, c.b);
    let mut d = c;
    *d.component_mut(2) = 2.0;
    assert_eq!(d.b, 2.0);
    assert_ne!(d, c);
    assert_eq!(d.r, c.r);
    assert_eq!(d.g, c.g);
    let mut p = PremultipliedAlpha { color: c, alpha: 0.75 };
    *p.component_mut(3) = 2.0;
    assert_eq!(p.alpha, 2.0);
    assert_eq!(p.color, c);
}

#[test]
fn aces_cg_space_tag() {
    assert_eq!(<AcesCg<f32> as ColorType>::SPACE, Spaces::AcesCg);
    assert_eq!(<AcesCg<f32> as ColorType>::NUM_COMPONENTS, 3);
    assert_eq!(Spaces::AcesCg.num_components(), 3);
    assert_eq!(<Alpha<AcesCg<f32>> as ColorType>::SPACE, Spaces::AcesCg);
    assert_eq!(<Alpha<AcesCg<f32>> as ColorType>::NUM_COMPONENTS, 4);
    assert_eq!(<PremultipliedAlpha<AcesCg<f32>> as ColorType>::SPACE, Spaces::AcesCg);
    assert_eq!(<PremultipliedAlpha<AcesCg<f32>> as ColorType>::NUM_COMPONENTS, 4);
}

#[test]
fn aces2065_array_round_trips() {
    let c = Aces2065::from([0.5f32, -0.25, 0.125]);
    assert_eq!(c.r, 0.5);
    assert_eq!(c.g, -0.25);
    assert_eq!(c.b, 0.125);
    let back: [f32; 3] = c.into();
    assert_eq!(back, [0.5f32, -0.25, 0.125]);
    let a = Alpha::<Aces2065<f32>>::from([0.5f32, -0.25, 0.125, 0.75]);
    assert_eq!(a.color, c);
    assert_eq!(a.alpha, 0.75);
    let back: [f32; 4] = a.into();
    assert_eq!(back, [0.5f32, -0.25, 0.125, 0.75]);
    assert_eq!(Aces2065::from(a), c);
    let p = PremultipliedAlpha::<Aces2065<f32>>::from([0.5f32, -0.25, 0.125, 0.75]);
    assert_eq!(p.color, c);
    assert_eq!(p.alpha, 0.75);
    let back: [f32; 4] = p.into();
    assert_eq!(back, [0.5f32, -0.25, 0.125, 0.75]);
    assert_eq!(Aces2065::from(p), c);
}

#[test]
fn aces2065_component_views() {
    let c = Aces2065::from([0.5f32, -0.25, 0.125]);
    assert_eq!(*c.component(0), c.r);
    assert_eq!(*c.component(1), c.g);
    assert_eq!(*c.component(2), c.b);
    let a = Alpha { color: c, alpha: 0.75 };
    assert_eq!(*a.component(3), 0.75);
    assert_eq!(*a.component(0), c.r);
    assert_eq!(c, Aces2065::from([0.5f32, -0.25, 0.125]));
    let mut d = c;
    *d.component_mut(0) = 2.0;
    assert_eq!(d.r, 2.0);
    assert_ne!(d, c);
    assert_eq!(d.g, c.g);
    assert_eq!(d.b, c.b);
    let mut d = c;
    *d.component_mut(1) = 2.0;
    assert_eq!(d.g, 2.0);
    assert_ne!(d, c);
    assert_eq!(d.r, c.r);
    assert_eq!(d.b, c.b);
    let mut d = c;
    *d.component_mut(2) = 2.0;
    assert_eq!(d.b, 2.0);
    assert_ne!(d, c);
    assert_eq!(d.r, c.r);
    assert_eq!(d.g, c.g);
    let mut p = PremultipliedAlpha { color: c, alpha: 0.75 };
    *p.component_mut(3) = 2.0;
    assert_eq!(p.alpha, 2.0);
    assert_eq!(p.color, c);
}

#[test]
fn aces2065_space_tag() {
    assert_eq!(<Aces2065<f32> as ColorType>::SPACE, Spaces::Aces2065);
    assert_eq!(<Aces2065<f32> as ColorType>::NUM_COMPONENTS, 3);
    assert_eq!(Spaces::Aces2065.num_components(), 3);
    assert_eq!(<Alpha<Aces2065<f32>> as ColorType>::SPACE, Spaces::Aces2065);
    assert_eq!(<Alpha<Aces2065<f32>> as ColorType>::NUM_COMPONENTS, 4);
    assert_eq!(<PremultipliedAlpha<Aces2065<f32>> as ColorType>::SPACE, Spaces::Aces2065);
    assert_eq!(<PremultipliedAlpha<Aces2065<f32>> as ColorType>::NUM_COMPONENTS, 4);
}

#[test]
fn aces_cc_array_round_trips() {
    let c = AcesCc::from([0.5f32, -0.25, 0.125]);
    assert_eq!(c.r, 0.5);
    assert_eq!(c.g, -0.25);
    assert_eq!(c.b, 0.125);
    let back: [f32; 3] = c.into();
    assert_eq!(back, [0.5f32, -0.25, 0.125]);
    let a = Alpha::<AcesCc<f32>>::from([0.5f32, -0.25, 0.125, 0.75]);
    assert_eq!(a.color, c);
    assert_eq!(a.alpha, 0.75);
    let back: [f32; 4] = a.into();
    assert_eq!(back, [0.5f32, -0.25, 0.125, 0.75]);
    assert_eq!(AcesCc::from(a), c);
    let p = PremultipliedAlpha::<AcesCc<f32>>::from([0.5f32, -0.25, 0.125, 0.75]);
    assert_eq!(p.color, c);
    assert_eq!(p.alpha, 0.75);
    let back: [f32; 4] = p.into();
    assert_eq!(back, [0.5f32, -0.25, 0.125, 0.75]);
    assert_eq!(AcesCc::from(p), c);
}

#[test]
fn aces_cc_component_views() {
    let c = AcesCc::from([0.5f32, -0.25, 0.125]);
    assert_eq!(*c.component(0), c.r);
    assert_eq!(*c.component(1), c.g);
    assert_eq!(*c.component(2), c.b);
    let a = Alpha { color: c, alpha: 0.75 };
    assert_eq!(*a.component(3), 0.75);
    assert_eq!(*a.component(0), c.r);
    assert_eq!(c, AcesCc::from([0.5f32, -0.25, 0.125]));
    let mut d = c;
    *d.component_mut(0) = 2.0;
    assert_eq!(d.r, 2.0);
    assert_ne!(d, c);
    assert_eq!(d.g, c.g);
    assert_eq!(d.b, c.b);
    let mut d = c;
    *d.component_mut(1) = 2.0;
    assert_eq!(d.g, 2.0);
    assert_ne!(d, c);
    assert_eq!(d.r, c.r);
    assert_eq!(d.b, c.b);
    let mut d = c;
    *d.component_mut(2) = 2.0;
    assert_eq!(d.b, 2.0);
    assert_ne!(d, c);
    assert_eq!(d.r, c.r);
    assert_eq!(d.g, c.g);
    let mut p = PremultipliedAlpha { color: c, alpha: 0.75 };
    *p.component_mut(3) = 2.0;
    assert_eq!(p.alpha, 2.0);
    assert_eq!(p.color, c);
}

#[test]
fn aces_cc_space_tag() {
    assert_eq!(<AcesCc<f32> as ColorType>::SPACE, Spaces::AcesCc);
    assert_eq!(<AcesCc<f32> as ColorType>::NUM_COMPONENTS, 3);
    assert_eq!(Spaces::AcesCc.num_components(), 3);
    assert_eq!(<Alpha<AcesCc<f32>> as ColorType>::SPACE, Spaces::AcesCc);
    assert_eq!(<Alpha<AcesCc<f32>> as ColorType>::NUM_COMPONENTS, 4);
    assert_eq!(<PremultipliedAlpha<AcesCc<f32>> as ColorType>::SPACE, Spaces::AcesCc);
    assert_eq!(<PremultipliedAlpha<AcesCc<f32>> as ColorType>::NUM_COMPONENTS, 4);
}

#[test]
fn aces_cct_array_round_trips() {
    let c = AcesCct::from([0.5f32, -0.25, 0.125]);
    assert_eq!(c.r, 0.5);
    assert_eq!(c.g, -0.25);
    assert_eq!(c.b, 0.125);
    let back: [f32; 3] = c.into();
    assert_eq!(back, [0.5f32, -0.25, 0.125]);
    let a = Alpha::<AcesCct<f32>>::from([0.5f32, -0.25, 0.125, 0.75]);
    assert_eq!(a.color, c);
    assert_eq!(a.alpha, 0.75);
    let back: [f32; 4] = a.into();
    assert_eq!(back, [0.5f32, -0.25, 0.125, 0.75]);
    assert_eq!(AcesCct::from(a), c);
    let p = PremultipliedAlpha::<AcesCct<f32>>::from([0.5f32, -0.25, 0.125, 0.75]);
    assert_eq!(p.color, c);
    assert_eq!(p.alpha, 0.75);
    let back: [f32; 4] = p.into();
    assert_eq!(back, [0.5f32, -0.25, 0.125, 0.75]);
    assert_eq!(AcesCct::from(p), c);
}

#[test]
fn aces_cct_component_views() {
    let c = AcesCct::from([0.5f32, -0.25, 0.125]);
    assert_eq!(*c.component(0), c.r);
    assert_eq!(*c.component(1), c.g);
    assert_eq!(*c.component(2), c.b);
    let a = Alpha { color: c, alpha: 0.75 };
    assert_eq!(*a.component(3), 0.75);
    assert_eq!(*a.component(0), c.r);
    assert_eq!(c, AcesCct::from([0.5f32, -0.25, 0.125]));
    let mut d = c;
    *d.component_mut(0) = 2.0;
    assert_eq!(d.r, 2.0);
    assert_ne!(d, c);
    assert_eq!(d.g, c.g);
    assert_eq!(d.b, c.b);
    let mut d = c;
    *d.component_mut(1) = 2.0;
    assert_eq!(d.g, 2.0);
    assert_ne!(d, c);
    assert_eq!(d.r, c.r);
    assert_eq!(d.b, c.b);
    let mut d = c;
    *d.component_mut(2) = 2.0;
    assert_eq!(d.b, 2.0);
    assert_ne!(d, c);
    assert_eq!(d.r, c.r);
    assert_eq!(d.g, c.g);
    let mut p = PremultipliedAlpha { color: c, alpha: 0.75 };
    *p.component_mut(3) = 2.0;
    assert_eq!(p.alpha, 2.0);
    assert_eq!(p.color, c);
}

#[test]
fn aces_cct_space_tag() {
    assert_eq!(<AcesCct<f32> as ColorType>::SPACE, Spaces::AcesCct);
    assert_eq!(<AcesCct<f32> as ColorType>::NUM_COMPONENTS, 3);
    assert_eq!(Spaces::AcesCct.num_components(), 3);
    assert_eq!(<Alpha<AcesCct<f32>> as ColorType>::SPACE, Spaces::AcesCct);
    assert_eq!(<Alpha<AcesCct<f32>> as ColorType>::NUM_COMPONENTS, 4);
    assert_eq!(<PremultipliedAlpha<AcesCct<f32>> as ColorType>::SPACE, Spaces::AcesCct);
    assert_eq!(<PremultipliedAlpha<AcesCct<f32>> as ColorType>::NUM_COMPONENTS, 4);
}

#[test]
fn display_p3_array_round_trips() {
    let c = DisplayP3::from([0.5f32, -0.25, 0.125]);
    assert_eq!(c.r, 0.5);
    assert_eq!(c.g, -0.25);
    assert_eq!(c.b, 0.125);
    let back: [f32; 3] = c.into();
    assert_eq!(back, [0.5f32, -0.25, 0.125]);
    let a = Alpha::<DisplayP3<f32>>::from([0.5f32, -0.25, 0.125, 0.75]);
    assert_eq!(a.color, c);
    assert_eq!(a.alpha, 0.75);
    let back: [f32; 4] = a.into();
    assert_eq!(back, [0.5f32, -0.25, 0.125, 0.75]);
    assert_eq!(DisplayP3::from(a), c);
    let p = PremultipliedAlpha::<DisplayP3<f32>>::from([0.5f32, -0.25, 0.125, 0.75]);
    assert_eq!(p.color, c);
    assert_eq!(p.alpha, 0.75);
    let back: [f32; 4] = p.into();
    assert_eq!(back, [0.5f32, -0.25, 0.125, 0.75]);
    assert_eq!(DisplayP3::from(p), c);
}

#[test]
fn display_p3_component_views() {
    let c = DisplayP3::from([0.5f32, -0.25, 0.125]);
    assert_eq!(*c.component(0), c.r);
    assert_eq!(*c.component(1), c.g);
    assert_eq!(*c.component(2), c.b);
    let a = Alpha { color: c, alpha: 0.75 };
    assert_eq!(*a.component(3), 0.75);
    assert_eq!(*a.component(0), c.r);
    assert_eq!(c, DisplayP3::from([0.5f32, -0.25, 0.125]));
    let mut d = c;
    *d.component_mut(0) = 2.0;
    assert_eq!(d.r, 2.0);
    assert_ne!(d, c);
    assert_eq!(d.g, c.g);
    assert_eq!(d.b, c.b);
    let mut d = c;
    *d.component_mut(1) = 2.0;
    assert_eq!(d.g, 2.0);
    assert_ne!(d, c);
    assert_eq!(d.r, c.r);
    assert_eq!(d.b, c.b);
    let mut d = c;
    *d.component_mut(2) = 2.0;
    assert_eq!(d.b, 2.0);
    assert_ne!(d, c);
    assert_eq!(d.r, c.r);
    assert_eq!(d.g, c.g);
    let mut p = PremultipliedAlpha { color: c, alpha: 0.75 };
    *p.component_mut(3) = 2.0;
    assert_eq!(p.alpha, 2.0);
    assert_eq!(p.color, c);
}

#[test]
fn display_p3_space_tag() {
    assert_eq!(<DisplayP3<f32> as ColorType>::SPACE, Spaces::DisplayP3);
    assert_eq!(<DisplayP3<f32> as ColorType>::NUM_COMPONENTS, 3);
    assert_eq!(Spaces::DisplayP3.num_components(), 3);
    assert_eq!(<Alpha<DisplayP3<f32>> as ColorType>::SPACE, Spaces::DisplayP3);
    assert_eq!(<Alpha<DisplayP3<f32>> as ColorType>::NUM_COMPONENTS, 4);
    assert_eq!(<PremultipliedAlpha<DisplayP3<f32>> as ColorType>::SPACE, Spaces::DisplayP3);
    assert_eq!(<PremultipliedAlpha<DisplayP3<f32>> as ColorType>::NUM_COMPONENTS, 4);
}

#[test]
fn encoded_display_p3_array_round_trips() {
    let c = EncodedDisplayP3::from([12u8, 34, 56]);
    assert_eq!(c.r, 12);
    assert_eq!(c.g, 34);
    assert_eq!(c.b, 56);
    let back: [u8; 3] = c.into();
    assert_eq!(back, [12u8, 34, 56]);
    let a = Alpha::<EncodedDisplayP3<u8>>::from([12u8, 34, 56, 78]);
    assert_eq!(a.color, c);
    assert_eq!(a.alpha, 78);
    let back: [u8; 4] = a.into();
    assert_eq!(back, [12u8, 34, 56, 78]);
    assert_eq!(EncodedDisplayP3::from(a), c);
    let p = PremultipliedAlpha::<EncodedDisplayP3<u8>>::from([12u8, 34, 56, 78]);
    assert_eq!(p.color, c);
    assert_eq!(p.alpha, 78);
    let back: [u8; 4] = p.into();
    assert_eq!(back, [12u8, 34, 56, 78]);
    assert_eq!(EncodedDisplayP3::from(p), c);
}

#[test]
fn encoded_display_p3_component_views() {
    let c = EncodedDisplayP3::from([12u8, 34, 56]);
    assert_eq!(*c.component(0), c.r);
    assert_eq!(*c.component(1), c.g);
    assert_eq!(*c.component(2), c.b);
    let a = Alpha { color: c, alpha: 78 };
    assert_eq!(*a.component(3), 78);
    assert_eq!(*a.component(0), c.r);
    assert_eq!(c, EncodedDisplayP3::from([12u8, 34, 56]));
    let mut d = c;
    *d.component_mut(0) = 99;
    assert_eq!(d.r, 99);
    assert_ne!(d, c);
    assert_eq!(d.g, c.g);
    assert_eq!(d.b, c.b);
    let mut d = c;
    *d.component_mut(1) = 99;
    assert_eq!(d.g, 99);
    assert_ne!(d, c);
    assert_eq!(d.r, c.r);
    assert_eq!(d.b, c.b);
    let mut d = c;
    *d.component_mut(2) = 99;
    assert_eq!(d.b, 99);
    assert_ne!(d, c);
    assert_eq!(d.r, c.r);
    assert_eq!(d.g, c.g);
    let mut p = PremultipliedAlpha { color: c, alpha: 78 };
    *p.component_mut(3) = 99;
    assert_eq!(p.alpha, 99);
    assert_eq!(p.color, c);
}

#[test]
fn encoded_display_p3_space_tag() {
    assert_eq!(<EncodedDisplayP3<u8> as ColorType>::SPACE, Spaces::EncodedDisplayP3);
    assert_eq!(<EncodedDisplayP3<u8> as ColorType>::NUM_COMPONENTS, 3);
    assert_eq!(Spaces::EncodedDisplayP3.num_components(), 3);
    assert_eq!(<Alpha<EncodedDisplayP3<u8>> as ColorType>::SPACE, Spaces::EncodedDisplayP3);
    assert_eq!(<Alpha<EncodedDisplayP3<u8>> as ColorType>::NUM_COMPONENTS, 4);
    assert_eq!(<PremultipliedAlpha<EncodedDisplayP3<u8>> as ColorType>::SPACE, Spaces::EncodedDisplayP3);
    assert_eq!(<PremultipliedAlpha<EncodedDisplayP3<u8>> as ColorType>::NUM_COMPONENTS, 4);
}

#[test]
fn dci_p3_array_round_trips() {
    let c = DciP3::from([0.5f32, -0.25, 0.125]);
    assert_eq!(c.r, 0.5);
    assert_eq!(c.g, -0.25);
    assert_eq!(c.b, 0.125);
    let back: [f32; 3] = c.into();
    assert_eq!(back, [0.5f32, -0.25, 0.125]);
    let a = Alpha::<DciP3<f32>>::from([0.5f32, -0.25, 0.125, 0.75]);
    assert_eq!(a.color, c);
    assert_eq!(a.alpha, 0.75);
    let back: [f32; 4] = a.into();
    assert_eq!(back, [0.5f32, -0.25, 0.125, 0.75]);
    assert_eq!(DciP3::from(a), c);
    let p = PremultipliedAlpha::<DciP3<f32>>::from([0.5f32, -0.25, 0.125, 0.75]);
    assert_eq!(p.color, c);
    assert_eq!(p.alpha, 0.75);
    let back: [f32; 4] = p.into();
    assert_eq!(back, [0.5f32, -0.25, 0.125, 0.75]);
    assert_eq!(DciP3::from(p), c);
}

#[test]
fn dci_p3_component_views() {
    let c = DciP3::from([0.5f32, -0.25, 0.125]);
    assert_eq!(*c.component(0), c.r);
    assert_eq!(*c.component(1), c.g);
    assert_eq!(*c.component(2), c.b);
    let a = Alpha { color: c, alpha: 0.75 };
    assert_eq!(*a.component(3), 0.75);
    assert_eq!(*a.component(0), c.r);
    assert_eq!(c, DciP3::from([0.5f32, -0.25, 0.125]));
    let mut d = c;
    *d.component_mut(0) = 2.0;
    assert_eq!(d.r, 2.0);
    assert_ne!(d, c);
    assert_eq!(d.g, c.g);
    assert_eq!(d.b, c.b);
    let mut d = c;
    *d.component_mut(1) = 2.0;
    assert_eq!(d.g, 2.0);
    assert_ne!(d, c);
    assert_eq!(d.r, c.r);
    assert_eq!(d.b, c.b);
    let mut d = c;
    *d.component_mut(2) = 2.0;
    assert_eq!(d.b, 2.0);
    assert_ne!(d, c);
    assert_eq!(d.r, c.r);
    assert_eq!(d.g, c.g);
    let mut p = PremultipliedAlpha { color: c, alpha: 0.75 };
    *p.component_mut(3) = 2.0;
    assert_eq!(p.alpha, 2.0);
    assert_eq!(p.color, c);
}

#[test]
fn dci_p3_space_tag() {
    assert_eq!(<DciP3<f32> as ColorType>::SPACE, Spaces::DciP3);
    assert_eq!(<DciP3<f32> as ColorType>::NUM_COMPONENTS, 3);
    assert_eq!(Spaces::DciP3.num_components(), 3);
    assert_eq!(<Alpha<DciP3<f32>> as ColorType>::SPACE, Spaces::DciP3);
    assert_eq!(<Alpha<DciP3<f32>> as ColorType>::NUM_COMPONENTS, 4);
    assert_eq!(<PremultipliedAlpha<DciP3<f32>> as ColorType>::SPACE, Spaces::DciP3);
    assert_eq!(<PremultipliedAlpha<DciP3<f32>> as ColorType>::NUM_COMPONENTS, 4);
}

#[test]
fn dci_xyz_prime_array_round_trips() {
    let c = DciXYZPrime::from([0.5f32, -0.25, 0.125]);
    assert_eq!(c.x, 0.5);
    assert_eq!(c.y, -0.25);
    assert_eq!(c.z, 0.125);
    let back: [f32; 3] = c.into();
    assert_eq!(back, [0.5f32, -0.25, 0.125]);
    let a = Alpha::<DciXYZPrime<f32>>::from([0.5f32, -0.25, 0.125, 0.75]);
    assert_eq!(a.color, c);
    assert_eq!(a.alpha, 0.75);
    let back: [f32; 4] = a.into();
    assert_eq!(back, [0.5f32, -0.25, 0.125, 0.75]);
    assert_eq!(DciXYZPrime::from(a), c);
    let p = PremultipliedAlpha::<DciXYZPrime<f32>>::from([0.5f32, -0.25, 0.125, 0.75]);
    assert_eq!(p.color, c);
    assert_eq!(p.alpha, 0.75);
    let back: [f32; 4] = p.into();
    assert_eq!(back, [0.5f32, -0.25, 0.125, 0.75]);
    assert_eq!(DciXYZPrime::from(p), c);
}

#[test]
fn dci_xyz_prime_component_views() {
    let c = DciXYZPrime::from([0.5f32, -0.25, 0.125]);
    assert_eq!(*c.component(0), c.x);
    assert_eq!(*c.component(1), c.y);
    assert_eq!(*c.component(2), c.z);
    let a = Alpha { color: c, alpha: 0.75 };
    assert_eq!(*a.component(3), 0.75);
    assert_eq!(*a.component(0), c.x);
    assert_eq!(c, DciXYZPrime::from([0.5f32, -0.25, 0.125]));
    let mut d = c;
    *d.component_mut(0) = 2.0;
    assert_eq!(d.x, 2.0);
    assert_ne!(d, c);
    assert_eq!(d.y, c.y);
    assert_eq!(d.z, c.z);
    let mut d = c;
    *d.component_mut(1) = 2.0;
    assert_eq!(d.y, 2.0);
    assert_ne!(d, c);
    assert_eq!(d.x, c.x);
    assert_eq!(d.z, c.z);
    let mut d = c;
    *d.component_mut(2) = 2.0;
    assert_eq!(d.z, 2.0);
    assert_ne!(d, c);
    assert_eq!(d.x, c.x);
    assert_eq!(d.y, c.y);
    let mut p = PremultipliedAlpha { color: c, alpha: 0.75 };
    *p.component_mut(3) = 2.0;
    assert_eq!(p.alpha, 2.0);
    assert_eq!(p.color, c);
}

#[test]
fn dci_xyz_prime_space_tag() {
    assert_eq!(<DciXYZPrime<f32> as ColorType>::SPACE, Spaces::DciXYZPrime);
    assert_eq!(<DciXYZPrime<f32> as ColorType>::NUM_COMPONENTS, 3);
    assert_eq!(Spaces::DciXYZPrime.num_components(), 3);
    assert_eq!(<Alpha<DciXYZPrime<f32>> as ColorType>::SPACE, Spaces::DciXYZPrime);
    assert_eq!(<Alpha<DciXYZPrime<f32>> as ColorType>::NUM_COMPONENTS, 4);
    assert_eq!(<PremultipliedAlpha<DciXYZPrime<f32>> as ColorType>::SPACE, Spaces::DciXYZPrime);
    assert_eq!(<PremultipliedAlpha<DciXYZPrime<f32>> as ColorType>::NUM_COMPONENTS, 4);
}

#[test]
fn bt2020_array_round_trips() {
    let c = Bt2020::from([0.5f32, -0.25, 0.125]);
    assert_eq!(c.r, 0.5);
    assert_eq!(c.g, -0.25);
    assert_eq!(c.b, 0.125);
    let back: [f32; 3] = c.into();
    assert_eq!(back, [0.5f32, -0.25, 0.125]);
    let a = Alpha::<Bt2020<f32>>::from([0.5f32, -0.25, 0.125, 0.75]);
    assert_eq!(a.color, c);
    assert_eq!(a.alpha, 0.75);
    let back: [f32; 4] = a.into();
    assert_eq!(back, [0.5f32, -0.25, 0.125, 0.75]);
    assert_eq!(Bt2020::from(a), c);
    let p = PremultipliedAlpha::<Bt2020<f32>>::from([0.5f32, -0.25, 0.125, 0.75]);
    assert_eq!(p.color, c);
    assert_eq!(p.alpha, 0.75);
    let back: [f32; 4] = p.into();
    assert_eq!(back, [0.5f32, -0.25, 0.125, 0.75]);
    assert_eq!(Bt2020::from(p), c);
}

#[test]
fn bt2020_component_views() {
    let c = Bt2020::from([0.5f32, -0.25, 0.125]);
    assert_eq!(*c.component(0), c.r);
    assert_eq!(*c.component(1), c.g);
    assert_eq!(*c.component(2), c.b);
    let a = Alpha { color: c, alpha: 0.75 };
    assert_eq!(*a.component(3), 0.75);
    assert_eq!(*a.component(0), c.r);
    assert_eq!(c, Bt2020::from([0.5f32, -0.25, 0.125]));
    let mut d = c;
    *d.component_mut(0) = 2.0;
    assert_eq!(d.r, 2.0);
    assert_ne!(d, c);
    assert_eq!(d.g, c.g);
    assert_eq!(d.b, c.b);
    let mut d = c;
    *d.component_mut(1) = 2.0;
    assert_eq!(d.g, 2.0);
    assert_ne!(d, c);
    assert_eq!(d.r, c.r);
    assert_eq!(d.b, c.b);
    let mut d = c;
    *d.component_mut(2) = 2.0;
    assert_eq!(d.b, 2.0);
    assert_ne!(d, c);
    assert_eq!(d.r, c.r);
    assert_eq!(d.g, c.g);
    let mut p = PremultipliedAlpha { color: c, alpha: 0.75 };
    *p.component_mut(3) = 2.0;
    assert_eq!(p.alpha, 2.0);
    assert_eq!(p.color, c);
}

#[test]
fn bt2020_space_tag() {
    assert_eq!(<Bt2020<f32> as ColorType>::SPACE, Spaces::Bt2020);
    assert_eq!(<Bt2020<f32> as ColorType>::NUM_COMPONENTS, 3);
    assert_eq!(Spaces::Bt2020.num_components(), 3);
    assert_eq!(<Alpha<Bt2020<f32>> as ColorType>::SPACE, Spaces::Bt2020);
    assert_eq!(<Alpha<Bt2020<f32>> as ColorType>::NUM_COMPONENTS, 4);
    assert_eq!(<PremultipliedAlpha<Bt2020<f32>> as ColorType>::SPACE, Spaces::Bt2020);
    assert_eq!(<PremultipliedAlpha<Bt2020<f32>> as ColorType>::NUM_COMPONENTS, 4);
}

#[test]
fn encoded_bt2020_array_round_trips() {
    let c = EncodedBt2020::from([0.5f32, -0.25, 0.125]);
    assert_eq!(c.r, 0.5);
    assert_eq!(c.g, -0.25);
    assert_eq!(c.b, 0.125);
    let back: [f32; 3] = c.into();
    assert_eq!(back, [0.5f32, -0.25, 0.125]);
    let a = Alpha::<EncodedBt2020<f32>>::from([0.5f32, -0.25, 0.125, 0.75]);
    assert_eq!(a.color, c);
    assert_eq!(a.alpha, 0.75);
    let back: [f32; 4] = a.into();
    assert_eq!(back, [0.5f32, -0.25, 0.125, 0.75]);
    assert_eq!(EncodedBt2020::from(a), c);
    let p = PremultipliedAlpha::<EncodedBt2020<f32>>::from([0.5f32, -0.25, 0.125, 0.75]);
    assert_eq!(p.color, c);
    assert_eq!(p.alpha, 0.75);
    let back: [f32; 4] = p.into();
    assert_eq!(back, [0.5f32, -0.25, 0.125, 0.75]);
    assert_eq!(EncodedBt2020::from(p), c);
}

#[test]
fn encoded_bt2020_component_views() {
    let c = EncodedBt2020::from([0.5f32, -0.25, 0.125]);
    assert_eq!(*c.component(0), c.r);
    assert_eq!(*c.component(1), c.g);
    assert_eq!(*c.component(2), c.b);
    let a = Alpha { color: c, alpha: 0.75 };
    assert_eq!(*a.component(3), 0.75);
    assert_eq!(*a.component(0), c.r);
    assert_eq!(c, EncodedBt2020::from([0.5f32, -0.25, 0.125]));
    let mut d = c;
    *d.component_mut(0) = 2.0;
    assert_eq!(d.r, 2.0);
    assert_ne!(d, c);
    assert_eq!(d.g, c.g);
    assert_eq!(d.b, c.b);
    let mut d = c;
    *d.component_mut(1) = 2.0;
    assert_eq!(d.g, 2.0);
    assert_ne!(d, c);
    assert_eq!(d.r, c.r);
    assert_eq!(d.b, c.b);
    let mut d = c;
    *d.component_mut(2) = 2.0;
    assert_eq!(d.b, 2.0);
    assert_ne!(d, c);
    assert_eq!(d.r, c.r);
    assert_eq!(d.g, c.g);
    let mut p = PremultipliedAlpha { color: c, alpha: 0.75 };
    *p.component_mut(3) = 2.0;
    assert_eq!(p.alpha, 2.0);
    assert_eq!(p.color, c);
}

#[test]
fn encoded_bt2020_space_tag() {
    assert_eq!(<EncodedBt2020<f32> as ColorType>::SPACE, Spaces::EncodedBt2020);
    assert_eq!(<EncodedBt2020<f32> as ColorType>::NUM_COMPONENTS, 3);
    assert_eq!(Spaces::EncodedBt2020.num_components(), 3);
    assert_eq!(<Alpha<EncodedBt2020<f32>> as ColorType>::SPACE, Spaces::EncodedBt2020);
    assert_eq!(<Alpha<EncodedBt2020<f32>> as ColorType>::NUM_COMPONENTS, 4);
    assert_eq!(<PremultipliedAlpha<EncodedBt2020<f32>> as ColorType>::SPACE, Spaces::EncodedBt2020);
    assert_eq!(<PremultipliedAlpha<EncodedBt2020<f32>> as ColorType>::NUM_COMPONENTS, 4);
}

#[test]
fn bt2100_array_round_trips() {
    let c = Bt2100::from([0.5f32, -0.25, 0.125]);
    assert_eq!(c.r, 0.5);
    assert_eq!(c.g, -0.25);
    assert_eq!(c.b, 0.125);
    let back: [f32; 3] = c.into();
    assert_eq!(back, [0.5f32, -0.25, 0.125]);
    let a = Alpha::<Bt2100<f32>>::from([0.5f32, -0.25, 0.125, 0.75]);
    assert_eq!(a.color, c);
    assert_eq!(a.alpha, 0.75);
    let back: [f32; 4] = a.into();
    assert_eq!(back, [0.5f32, -0.25, 0.125, 0.75]);
    assert_eq!(Bt2100::from(a), c);
    let p = PremultipliedAlpha::<Bt2100<f32>>::from([0.5f32, -0.25, 0.125, 0.75]);
    assert_eq!(p.color, c);
    assert_eq!(p.alpha, 0.75);
    let back: [f32; 4] = p.into();
    assert_eq!(back, [0.5f32, -0.25, 0.125, 0.75]);
    assert_eq!(Bt2100::from(p), c);
}

#[test]
fn bt2100_component_views() {
    let c = Bt2100::from([0.5f32, -0.25, 0.125]);
    assert_eq!(*c.component(0), c.r);
    assert_eq!(*c.component(1), c.g);
    assert_eq!(*c.component(2), c.b);
    let a = Alpha { color: c, alpha: 0.75 };
    assert_eq!(*a.component(3), 0.75);
    assert_eq!(*a.component(0), c.r);
    assert_eq!(c, Bt2100::from([0.5f32, -0.25, 0.125]));
    let mut d = c;
    *d.component_mut(0) = 2.0;
    assert_eq!(d.r, 2.0);
    assert_ne!(d, c);
    assert_eq!(d.g, c.g);
    assert_eq!(d.b, c.b);
    let mut d = c;
    *d.component_mut(1) = 2.0;
    assert_eq!(d.g, 2.0);
    assert_ne!(d, c);
    assert_eq!(d.r, c.r);
    assert_eq!(d.b, c.b);
    let mut d = c;
    *d.component_mut(2) = 2.0;
    assert_eq!(d.b, 2.0);
    assert_ne!(d, c);
    assert_eq!(d.r, c.r);
    assert_eq!(d.g, c.g);
    let mut p = PremultipliedAlpha { color: c, alpha: 0.75 };
    *p.component_mut(3) = 2.0;
    assert_eq!(p.alpha, 2.0);
    assert_eq!(p.color, c);
}

#[test]
fn bt2100_space_tag() {
    assert_eq!(<Bt2100<f32> as ColorType>::SPACE, Spaces::Bt2100);
    assert_eq!(<Bt2100<f32> as ColorType>::NUM_COMPONENTS, 3);
    assert_eq!(Spaces::Bt2100.num_components(), 3);
    assert_eq!(<Alpha<Bt2100<f32>> as ColorType>::SPACE, Spaces::Bt2100);
    assert_eq!(<Alpha<Bt2100<f32>> as ColorType>::NUM_COMPONENTS, 4);
    assert_eq!(<PremultipliedAlpha<Bt2100<f32>> as ColorType>::SPACE, Spaces::Bt2100);
    assert_eq!(<PremultipliedAlpha<Bt2100<f32>> as ColorType>::NUM_COMPONENTS, 4);
}

#[test]
fn encoded_bt2100_pq_array_round_trips() {
    let c = EncodedBt2100PQ::from([0.5f32, -0.25, 0.125]);
    assert_eq!(c.r, 0.5);
    assert_eq!(c.g, -0.25);
    assert_eq!(c.b, 0.125);
    let back: [f32; 3] = c.into();
    assert_eq!(back, [0.5f32, -0.25, 0.125]);
    let a = Alpha::<EncodedBt2100PQ<f32>>::from([0.5f32, -0.25, 0.125, 0.75]);
    assert_eq!(a.color, c);
    assert_eq!(a.alpha, 0.75);
    let back: [f32; 4] = a.into();
    assert_eq!(back, [0.5f32, -0.25, 0.125, 0.75]);
    assert_eq!(EncodedBt2100PQ::from(a), c);
    let p = PremultipliedAlpha::<EncodedBt2100PQ<f32>>::from([0.5f32, -0.25, 0.125, 0.75]);
    assert_eq!(p.color, c);
    assert_eq!(p.alpha, 0.75);
    let back: [f32; 4] = p.into();
    assert_eq!(back, [0.5f32, -0.25, 0.125, 0.75]);
    assert_eq!(EncodedBt2100PQ::from(p), c);
}

#[test]
fn encoded_bt2100_pq_component_views() {
    let c = EncodedBt2100PQ::from([0.5f32, -0.25, 0.125]);
    assert_eq!(*c.component(0), c.r);
    assert_eq!(*c.component(1), c.g);
    assert_eq!(*c.component(2), c.b);
    let a = Alpha { color: c, alpha: 0.75 };
    assert_eq!(*a.component(3), 0.75);
    assert_eq!(*a.component(0), c.r);
    assert_eq!(c, EncodedBt2100PQ::from([0.5f32, -0.25, 0.125]));
    let mut d = c;
    *d.component_mut(0) = 2.0;
    assert_eq!(d.r, 2.0);
    assert_ne!(d, c);
    assert_eq!(d.g, c.g);
    assert_eq!(d.b, c.b);
    let mut d = c;
    *d.component_mut(1) = 2.0;
    assert_eq!(d.g, 2.0);
    assert_ne!(d, c);
    assert_eq!(d.r, c.r);
    assert_eq!(d.b, c.b);
    let mut d = c;
    *d.component_mut(2) = 2.0;
    assert_eq!(d.b, 2.0);
    assert_ne!(d, c);
    assert_eq!(d.r, c.r);
    assert_eq!(d.g, c.g);
    let mut p = PremultipliedAlpha { color: c, alpha: 0.75 };
    *p.component_mut(3) = 2.0;
    assert_eq!(p.alpha, 2.0);
    assert_eq!(p.color, c);
}

#[test]
fn encoded_bt2100_pq_space_tag() {
    assert_eq!(<EncodedBt2100PQ<f32> as ColorType>::SPACE, Spaces::EncodedBt2100PQ);
    assert_eq!(<EncodedBt2100PQ<f32> as ColorType>::NUM_COMPONENTS, 3);
    assert_eq!(Spaces::EncodedBt2100PQ.num_components(), 3);
    assert_eq!(<Alpha<EncodedBt2100PQ<f32>> as ColorType>::SPACE, Spaces::EncodedBt2100PQ);
    assert_eq!(<Alpha<EncodedBt2100PQ<f32>> as ColorType>::NUM_COMPONENTS, 4);
    assert_eq!(<PremultipliedAlpha<EncodedBt2100PQ<f32>> as ColorType>::SPACE, Spaces::EncodedBt2100PQ);
    assert_eq!(<PremultipliedAlpha<EncodedBt2100PQ<f32>> as ColorType>::NUM_COMPONENTS, 4);
}

#[test]
fn encoded_bt2100_hlg_array_round_trips() {
    let c = EncodedBt2100HLG::from([0.5f32, -0.25, 0.125]);
    assert_eq!(c.r, 0.5);
    assert_eq!(c.g, -0.25);
    assert_eq!(c.b, 0.125);
    let back: [f32; 3] = c.into();
    assert_eq!(back, [0.5f32, -0.25, 0.125]);
    let a = Alpha::<EncodedBt2100HLG<f32>>::from([0.5f32, -0.25, 0.125, 0.75]);
    assert_eq!(a.color, c);
    assert_eq!(a.alpha, 0.75);
    let back: [f32; 4] = a.into();
    assert_eq!(back, [0.5f32, -0.25, 0.125, 0.75]);
    assert_eq!(EncodedBt2100HLG::from(a), c);
    let p = PremultipliedAlpha::<EncodedBt2100HLG<f32>>::from([0.5f32, -0.25, 0.125, 0.75]);
    assert_eq!(p.color, c);
    assert_eq!(p.alpha, 0.75);
    let back: [f32; 4] = p.into();
    assert_eq!(back, [0.5f32, -0.25, 0.125, 0.75]);
    assert_eq!(EncodedBt2100HLG::from(p), c);
}

#[test]
fn encoded_bt2100_hlg_component_views() {
    let c = EncodedBt2100HLG::from([0.5f32, -0.25, 0.125]);
    assert_eq!(*c.component(0), c.r);
    assert_eq!(*c.component(1), c.g);
    assert_eq!(*c.component(2), c.b);
    let a = Alpha { color: c, alpha: 0.75 };
    assert_eq!(*a.component(3), 0.75);
    assert_eq!(*a.component(0), c.r);
    assert_eq!(c, EncodedBt2100HLG::from([0.5f32, -0.25, 0.125]));
    let mut d = c;
    *d.component_mut(0) = 2.0;
    assert_eq!(d.r, 2.0);
    assert_ne!(d, c);
    assert_eq!(d.g, c.g);
    assert_eq!(d.b, c.b);
    let mut d = c;
    *d.component_mut(1) = 2.0;
    assert_eq!(d.g, 2.0);
    assert_ne!(d, c);
    assert_eq!(d.r, c.r);
    assert_eq!(d.b, c.b);
    let mut d = c;
    *d.component_mut(2) = 2.0;
    assert_eq!(d.b, 2.0);
    assert_ne!(d, c);
    assert_eq!(d.r, c.r);
    assert_eq!(d.g, c.g);
    let mut p = PremultipliedAlpha { color: c, alpha: 0.75 };
    *p.component_mut(3) = 2.0;
    assert_eq!(p.alpha, 2.0);
    assert_eq!(p.color, c);
}

#[test]
fn encoded_bt2100_hlg_space_tag() {
    assert_eq!(<EncodedBt2100HLG<f32> as ColorType>::SPACE, Spaces::EncodedBt2100HLG);
    assert_eq!(<EncodedBt2100HLG<f32> as ColorType>::NUM_COMPONENTS, 3);
    assert_eq!(Spaces::EncodedBt2100HLG.num_components(), 3);
    assert_eq!(<Alpha<EncodedBt2100HLG<f32>> as ColorType>::SPACE, Spaces::EncodedBt2100HLG);
    assert_eq!(<Alpha<EncodedBt2100HLG<f32>> as ColorType>::NUM_COMPONENTS, 4);
    assert_eq!(<PremultipliedAlpha<EncodedBt2100HLG<f32>> as ColorType>::SPACE, Spaces::EncodedBt2100HLG);
    assert_eq!(<PremultipliedAlpha<EncodedBt2100HLG<f32>> as ColorType>::NUM_COMPONENTS, 4);
}

#[test]
fn i_ct_cp_pq_array_round_trips() {
    let c = ICtCpPQ::from([0.5f32, -0.25, 0.125]);
    assert_eq!(c.i, 0.5);
    assert_eq!(c.ct, -0.25);
    assert_eq!(c.cp, 0.125);
    let back: [f32; 3] = c.into();
    assert_eq!(back, [0.5f32, -0.25, 0.125]);
    let a = Alpha::<ICtCpPQ<f32>>::from([0.5f32, -0.25, 0.125, 0.75]);
    assert_eq!(a.color, c);
    assert_eq!(a.alpha, 0.75);
    let back: [f32; 4] = a.into();
    assert_eq!(back, [0.5f32, -0.25, 0.125, 0.75]);
    assert_eq!(ICtCpPQ::from(a), c);
    let p = PremultipliedAlpha::<ICtCpPQ<f32>>::from([0.5f32, -0.25, 0.125, 0.75]);
    assert_eq!(p.color, c);
    assert_eq!(p.alpha, 0.75);
    let back: [f32; 4] = p.into();
    assert_eq!(back, [0.5f32, -0.25, 0.125, 0.75]);
    assert_eq!(ICtCpPQ::from(p), c);
}

#[test]
fn i_ct_cp_pq_component_views() {
    let c = ICtCpPQ::from([0.5f32, -0.25, 0.125]);
    assert_eq!(*c.component(0), c.i);
    assert_eq!(*c.component(1), c.ct);
    assert_eq!(*c.component(2), c.cp);
    let a = Alpha { color: c, alpha: 0.75 };
    assert_eq!(*a.component(3), 0.75);
    assert_eq!(*a.component(0), c.i);
    assert_eq!(c, ICtCpPQ::from([0.5f32, -0.25, 0.125]));
    let mut d = c;
    *d.component_mut(0) = 2.0;
    assert_eq!(d.i, 2.0);
    assert_ne!(d, c);
    assert_eq!(d.ct, c.ct);
    assert_eq!(d.cp, c.cp);
    let mut d = c;
    *d.component_mut(1) = 2.0;
    assert_eq!(d.ct, 2.0);
    assert_ne!(d, c);
    assert_eq!(d.i, c.i);
    assert_eq!(d.cp, c.cp);
    let mut d = c;
    *d.component_mut(2) = 2.0;
    assert_eq!(d.cp, 2.0);
    assert_ne!(d, c);
    assert_eq!(d.i, c.i);
    assert_eq!(d.ct, c.ct);
    let mut p = PremultipliedAlpha { color: c, alpha: 0.75 };
    *p.component_mut(3) = 2.0;
    assert_eq!(p.alpha, 2.0);
    assert_eq!(p.color, c);
}

#[test]
fn i_ct_cp_pq_space_tag() {
    assert_eq!(<ICtCpPQ<f32> as ColorType>::SPACE, Spaces::ICtCpPQ);
    assert_eq!(<ICtCpPQ<f32> as ColorType>::NUM_COMPONENTS, 3);
    assert_eq!(Spaces::ICtCpPQ.num_components(), 3);
    assert_eq!(<Alpha<ICtCpPQ<f32>> as ColorType>::SPACE, Spaces::ICtCpPQ);
    assert_eq!(<Alpha<ICtCpPQ<f32>> as ColorType>::NUM_COMPONENTS, 4);
    assert_eq!(<PremultipliedAlpha<ICtCpPQ<f32>> as ColorType>::SPACE, Spaces::ICtCpPQ);
    assert_eq!(<PremultipliedAlpha<ICtCpPQ<f32>> as ColorType>::NUM_COMPONENTS, 4);
}

#[test]
fn i_ct_cp_hlg_array_round_trips() {
    let c = ICtCpHLG::from([0.5f32, -0.25, 0.125]);
    assert_eq!(c.i, 0.5);
    assert_eq!(c.ct, -0.25);
    assert_eq!(c.cp, 0.125);
    let back: [f32; 3] = c.into();
    assert_eq!(back, [0.5f32, -0.25, 0.125]);
    let a = Alpha::<ICtCpHLG<f32>>::from([0.5f32, -0.25, 0.125, 0.75]);
    assert_eq!(a.color, c);
    assert_eq!(a.alpha, 0.75);
    let back: [f32; 4] = a.into();
    assert_eq!(back, [0.5f32, -0.25, 0.125, 0.75]);
    assert_eq!(ICtCpHLG::from(a), c);
    let p = PremultipliedAlpha::<ICtCpHLG<f32>>::from([0.5f32, -0.25, 0.125, 0.75]);
    assert_eq!(p.color, c);
    assert_eq!(p.alpha, 0.75);
    let back: [f32; 4] = p.into();
    assert_eq!(back, [0.5f32, -0.25, 0.125, 0.75]);
    assert_eq!(ICtCpHLG::from(p), c);
}

#[test]
fn i_ct_cp_hlg_component_views() {
    let c = ICtCpHLG::from([0.5f32, -0.25, 0.125]);
    assert_eq!(*c.component(0), c.i);
    assert_eq!(*c.component(1), c.ct);
    assert_eq!(*c.component(2), c.cp);
    let a = Alpha { color: c, alpha: 0.75 };
    assert_eq!(*a.component(3), 0.75);
    assert_eq!(*a.component(0), c.i);
    assert_eq!(c, ICtCpHLG::from([0.5f32, -0.25, 0.125]));
    let mut d = c;
    *d.component_mut(0) = 2.0;
    assert_eq!(d.i, 2.0);
    assert_ne!(d, c);
    assert_eq!(d.ct, c.ct);
    assert_eq!(d.cp, c.cp);
    let mut d = c;
    *d.component_mut(1) = 2.0;
    assert_eq!(d.ct, 2.0);
    assert_ne!(d, c);
    assert_eq!(d.i, c.i);
    assert_eq!(d.cp, c.cp);
    let mut d = c;
    *d.component_mut(2) = 2.0;
    assert_eq!(d.cp, 2.0);
    assert_ne!(d, c);
    assert_eq!(d.i, c.i);
    assert_eq!(d.ct, c.ct);
    let mut p = PremultipliedAlpha { color: c, alpha: 0.75 };
    *p.component_mut(3) = 2.0;
    assert_eq!(p.alpha, 2.0);
    assert_eq!(p.color, c);
}

#[test]
fn i_ct_cp_hlg_space_tag() {
    assert_eq!(<ICtCpHLG<f32> as ColorType>::SPACE, Spaces::ICtCpHLG);
    assert_eq!(<ICtCpHLG<f32> as ColorType>::NUM_COMPONENTS, 3);
    assert_eq!(Spaces::ICtCpHLG.num_components(), 3);
    assert_eq!(<Alpha<ICtCpHLG<f32>> as ColorType>::SPACE, Spaces::ICtCpHLG);
    assert_eq!(<Alpha<ICtCpHLG<f32>> as ColorType>::NUM_COMPONENTS, 4);
    assert_eq!(<PremultipliedAlpha<ICtCpHLG<f32>> as ColorType>::SPACE, Spaces::ICtCpHLG);
    assert_eq!(<PremultipliedAlpha<ICtCpHLG<f32>> as ColorType>::NUM_COMPONENTS, 4);
}

#[test]
fn cie_xyz_array_round_trips() {
    let c = CieXYZ::from([0.5f32, -0.25, 0.125]);
    assert_eq!(c.x, 0.5);
    assert_eq!(c.y, -0.25);
    assert_eq!(c.z, 0.125);
    let back: [f32; 3] = c.into();
    assert_eq!(back, [0.5f32, -0.25, 0.125]);
    let a = Alpha::<CieXYZ<f32>>::from([0.5f32, -0.25, 0.125, 0.75]);
    assert_eq!(a.color, c);
    assert_eq!(a.alpha, 0.75);
    let back: [f32; 4] = a.into();
    assert_eq!(back, [0.5f32, -0.25, 0.125, 0.75]);
    assert_eq!(CieXYZ::from(a), c);
    let p = PremultipliedAlpha::<CieXYZ<f32>>::from([0.5f32, -0.25, 0.125, 0.75]);
    assert_eq!(p.color, c);
    assert_eq!(p.alpha, 0.75);
    let back: [f32; 4] = p.into();
    assert_eq!(back, [0.5f32, -0.25, 0.125, 0.75]);
    assert_eq!(CieXYZ::from(p), c);
}

#[test]
fn cie_xyz_component_views() {
    let c = CieXYZ::from([0.5f32, -0.25, 0.125]);
    assert_eq!(*c.component(0), c.x);
    assert_eq!(*c.component(1), c.y);
    assert_eq!(*c.component(2), c.z);
    let a = Alpha { color: c, alpha: 0.75 };
    assert_eq!(*a.component(3), 0.75);
    assert_eq!(*a.component(0), c.x);
    assert_eq!(c, CieXYZ::from([0.5f32, -0.25, 0.125]));
    let mut d = c;
    *d.component_mut(0) = 2.0;
    assert_eq!(d.x, 2.0);
    assert_ne!(d, c);
    assert_eq!(d.y, c.y);
    assert_eq!(d.z, c.z);
    let mut d = c;
    *d.component_mut(1) = 2.0;
    assert_eq!(d.y, 2.0);
    assert_ne!(d, c);
    assert_eq!(d.x, c.x);
    assert_eq!(d.z, c.z);
    let mut d = c;
    *d.component_mut(2) = 2.0;
    assert_eq!(d.z, 2.0);
    assert_ne!(d, c);
    assert_eq!(d.x, c.x);
    assert_eq!(d.y, c.y);
    let mut p = PremultipliedAlpha { color: c, alpha: 0.75 };
    *p.component_mut(3) = 2.0;
    assert_eq!(p.alpha, 2.0);
    assert_eq!(p.color, c);
}

#[test]
fn cie_xyz_space_tag() {
    assert_eq!(<CieXYZ<f32> as ColorType>::SPACE, Spaces::CieXYZ);
    assert_eq!(<CieXYZ<f32> as ColorType>::NUM_COMPONENTS, 3);
    assert_eq!(Spaces::CieXYZ.num_components(), 3);
    assert_eq!(<Alpha<CieXYZ<f32>> as ColorType>::SPACE, Spaces::CieXYZ);
    assert_eq!(<Alpha<CieXYZ<f32>> as ColorType>::NUM_COMPONENTS, 4);
    assert_eq!(<PremultipliedAlpha<CieXYZ<f32>> as ColorType>::SPACE, Spaces::CieXYZ);
    assert_eq!(<PremultipliedAlpha<CieXYZ<f32>> as ColorType>::NUM_COMPONENTS, 4);
}

#[test]
fn cie_lab_array_round_trips() {
    let c = CieLab::from([0.5f32, -0.25, 0.125]);
    assert_eq!(c.l, 0.5);
    assert_eq!(c.a, -0.25);
    assert_eq!(c.b, 0.125);
    let back: [f32; 3] = c.into();
    assert_eq!(back, [0.5f32, -0.25, 0.125]);
    let a = Alpha::<CieLab<f32>>::from([0.5f32, -0.25, 0.125, 0.75]);
    assert_eq!(a.color, c);
    assert_eq!(a.alpha, 0.75);
    let back: [f32; 4] = a.into();
    assert_eq!(back, [0.5f32, -0.25, 0.125, 0.75]);
    assert_eq!(CieLab::from(a), c);
    let p = PremultipliedAlpha::<CieLab<f32>>::from([0.5f32, -0.25, 0.125, 0.75]);
    assert_eq!(p.color, c);
    assert_eq!(p.alpha, 0.75);
    let back: [f32; 4] = p.into();
    assert_eq!(back, [0.5f32, -0.25, 0.125, 0.75]);
    assert_eq!(CieLab::from(p), c);
}

#[test]
fn cie_lab_component_views() {
    let c = CieLab::from([0.5f32, -0.25, 0.125]);
    assert_eq!(*c.component(0), c.l);
    assert_eq!(*c.component(1), c.a);
    assert_eq!(*c.component(2), c.b);
    let a = Alpha { color: c, alpha: 0.75 };
    assert_eq!(*a.component(3), 0.75);
    assert_eq!(*a.component(0), c.l);
    assert_eq!(c, CieLab::from([0.5f32, -0.25, 0.125]));
    let mut d = c;
    *d.component_mut(0) = 2.0;
    assert_eq!(d.l, 2.0);
    assert_ne!(d, c);
    assert_eq!(d.a, c.a);
    assert_eq!(d.b, c.b);
    let mut d = c;
    *d.component_mut(1) = 2.0;
    assert_eq!(d.a, 2.0);
    assert_ne!(d, c);
    assert_eq!(d.l, c.l);
    assert_eq!(d.b, c.b);
    let mut d = c;
    *d.component_mut(2) = 2.0;
    assert_eq!(d.b, 2.0);
    assert_ne!(d, c);
    assert_eq!(d.l, c.l);
    assert_eq!(d.a, c.a);
    let mut p = PremultipliedAlpha { color: c, alpha: 0.75 };
    *p.component_mut(3) = 2.0;
    assert_eq!(p.alpha, 2.0);
    assert_eq!(p.color, c);
}

#[test]
fn cie_lab_space_tag() {
    assert_eq!(<CieLab<f32> as ColorType>::SPACE, Spaces::CieLab);
    assert_eq!(<CieLab<f32> as ColorType>::NUM_COMPONENTS, 3);
    assert_eq!(Spaces::CieLab.num_components(), 3);
    assert_eq!(<Alpha<CieLab<f32>> as ColorType>::SPACE, Spaces::CieLab);
    assert_eq!(<Alpha<CieLab<f32>> as ColorType>::NUM_COMPONENTS, 4);
    assert_eq!(<PremultipliedAlpha<CieLab<f32>> as ColorType>::SPACE, Spaces::CieLab);
    assert_eq!(<PremultipliedAlpha<CieLab<f32>> as ColorType>::NUM_COMPONENTS, 4);
}

#[test]
fn cie_l_ch_array_round_trips() {
    let c = CieLCh::from([0.5f32, -0.25, 0.125]);
    assert_eq!(c.l, 0.5);
    assert_eq!(c.c, -0.25);
    assert_eq!(c.h, 0.125);
    let back: [f32; 3] = c.into();
    assert_eq!(back, [0.5f32, -0.25, 0.125]);
    let a = Alpha::<CieLCh<f32>>::from([0.5f32, -0.25, 0.125, 0.75]);
    assert_eq!(a.color, c);
    assert_eq!(a.alpha, 0.75);
    let back: [f32; 4] = a.into();
    assert_eq!(back, [0.5f32, -0.25, 0.125, 0.75]);
    assert_eq!(CieLCh::from(a), c);
    let p = PremultipliedAlpha::<CieLCh<f32>>::from([0.5f32, -0.25, 0.125, 0.75]);
    assert_eq!(p.color, c);
    assert_eq!(p.alpha, 0.75);
    let back: [f32; 4] = p.into();
    assert_eq!(back, [0.5f32, -0.25, 0.125, 0.75]);
    assert_eq!(CieLCh::from(p), c);
}

#[test]
fn cie_l_ch_component_views() {
    let c = CieLCh::from([0.5f32, -0.25, 0.125]);
    assert_eq!(*c.component(0), c.l);
    assert_eq!(*c.component(1), c.c);
    assert_eq!(*c.component(2), c.h);
    let a = Alpha { color: c, alpha: 0.75 };
    assert_eq!(*a.component(3), 0.75);
    assert_eq!(*a.component(0), c.l);
    assert_eq!(c, CieLCh::from([0.5f32, -0.25, 0.125]));
    let mut d = c;
    *d.component_mut(0) = 2.0;
    assert_eq!(d.l, 2.0);
    assert_ne!(d, c);
    assert_eq!(d.c, c.c);
    assert_eq!(d.h, c.h);
    let mut d = c;
    *d.component_mut(1) = 2.0;
    assert_eq!(d.c, 2.0);
    assert_ne!(d, c);
    assert_eq!(d.l, c.l);
    assert_eq!(d.h, c.h);
    let mut d = c;
    *d.component_mut(2) = 2.0;
    assert_eq!(d.h, 2.0);
    assert_ne!(d, c);
    assert_eq!(d.l, c.l);
    assert_eq!(d.c, c.c);
    let mut p = PremultipliedAlpha { color: c, alpha: 0.75 };
    *p.component_mut(3) = 2.0;
    assert_eq!(p.alpha, 2.0);
    assert_eq!(p.color, c);
}

#[test]
fn cie_l_ch_space_tag() {
    assert_eq!(<CieLCh<f32> as ColorType>::SPACE, Spaces::CieLCh);
    assert_eq!(<CieLCh<f32> as ColorType>::NUM_COMPONENTS, 3);
    assert_eq!(Spaces::CieLCh.num_components(), 3);
    assert_eq!(<Alpha<CieLCh<f32>> as ColorType>::SPACE, Spaces::CieLCh);
    assert_eq!(<Alpha<CieLCh<f32>> as ColorType>::NUM_COMPONENTS, 4);
    assert_eq!(<PremultipliedAlpha<CieLCh<f32>> as ColorType>::SPACE, Spaces::CieLCh);
    assert_eq!(<PremultipliedAlpha<CieLCh<f32>> as ColorType>::NUM_COMPONENTS, 4);
}

#[test]
fn oklab_array_round_trips() {
    let c = Oklab::from([0.5f32, -0.25, 0.125]);
    assert_eq!(c.l, 0.5);
    assert_eq!(c.a, -0.25);
    assert_eq!(c.b, 0.125);
    let back: [f32; 3] = c.into();
    assert_eq!(back, [0.5f32, -0.25, 0.125]);
    let a = Alpha::<Oklab<f32>>::from([0.5f32, -0.25, 0.125, 0.75]);
    assert_eq!(a.color, c);
    assert_eq!(a.alpha, 0.75);
    let back: [f32; 4] = a.into();
    assert_eq!(back, [0.5f32, -0.25, 0.125, 0.75]);
    assert_eq!(Oklab::from(a), c);
    let p = PremultipliedAlpha::<Oklab<f32>>::from([0.5f32, -0.25, 0.125, 0.75]);
    assert_eq!(p.color, c);
    assert_eq!(p.alpha, 0.75);
    let back: [f32; 4] = p.into();
    assert_eq!(back, [0.5f32, -0.25, 0.125, 0.75]);
    assert_eq!(Oklab::from(p), c);
}

#[test]
fn oklab_component_views() {
    let c = Oklab::from([0.5f32, -0.25, 0.125]);
    assert_eq!(*c.component(0), c.l);
    assert_eq!(*c.component(1), c.a);
    assert_eq!(*c.component(2), c.b);
    let a = Alpha { color: c, alpha: 0.75 };
    assert_eq!(*a.component(3), 0.75);
    assert_eq!(*a.component(0), c.l);
    assert_eq!(c, Oklab::from([0.5f32, -0.25, 0.125]));
    let mut d = c;
    *d.component_mut(0) = 2.0;
    assert_eq!(d.l, 2.0);
    assert_ne!(d, c);
    assert_eq!(d.a, c.a);
    assert_eq!(d.b, c.b);
    let mut d = c;
    *d.component_mut(1) = 2.0;
    assert_eq!(d.a, 2.0);
    assert_ne!(d, c);
    assert_eq!(d.l, c.l);
    assert_eq!(d.b, c.b);
    let mut d = c;
    *d.component_mut(2) = 2.0;
    assert_eq!(d.b, 2.0);
    assert_ne!(d, c);
    assert_eq!(d.l, c.l);
    assert_eq!(d.a, c.a);
    let mut p = PremultipliedAlpha { color: c, alpha: 0.75 };
    *p.component_mut(3) = 2.0;
    assert_eq!(p.alpha, 2.0);
    assert_eq!(p.color, c);
}

#[test]
fn oklab_space_tag() {
    assert_eq!(<Oklab<f32> as ColorType>::SPACE, Spaces::Oklab);
    assert_eq!(<Oklab<f32> as ColorType>::NUM_COMPONENTS, 3);
    assert_eq!(Spaces::Oklab.num_components(), 3);
    assert_eq!(<Alpha<Oklab<f32>> as ColorType>::SPACE, Spaces::Oklab);
    assert_eq!(<Alpha<Oklab<f32>> as ColorType>::NUM_COMPONENTS, 4);
    assert_eq!(<PremultipliedAlpha<Oklab<f32>> as ColorType>::SPACE, Spaces::Oklab);
    assert_eq!(<PremultipliedAlpha<Oklab<f32>> as ColorType>::NUM_COMPONENTS, 4);
}

#[test]
fn oklch_array_round_trips() {
    let c = Oklch::from([0.5f32, -0.25, 0.125]);
    assert_eq!(c.l, 0.5);
    assert_eq!(c.c, -0.25);
    assert_eq!(c.h, 0.125);
    let back: [f32; 3] = c.into();
    assert_eq!(back, [0.5f32, -0.25, 0.125]);
    let a = Alpha::<Oklch<f32>>::from([0.5f32, -0.25, 0.125, 0.75]);
    assert_eq!(a.color, c);
    assert_eq!(a.alpha, 0.75);
    let back: [f32; 4] = a.into();
    assert_eq!(back, [0.5f32, -0.25, 0.125, 0.75]);
    assert_eq!(Oklch::from(a), c);
    let p = PremultipliedAlpha::<Oklch<f32>>::from([0.5f32, -0.25, 0.125, 0.75]);
    assert_eq!(p.color, c);
    assert_eq!(p.alpha, 0.75);
    let back: [f32; 4] = p.into();
    assert_eq!(back, [0.5f32, -0.25, 0.125, 0.75]);
    assert_eq!(Oklch::from(p), c);
}

#[test]
fn oklch_component_views() {
    let c = Oklch::from([0.5f32, -0.25, 0.125]);
    assert_eq!(*c.component(0), c.l);
    assert_eq!(*c.component(1), c.c);
    assert_eq!(*c.component(2), c.h);
    let a = Alpha { color: c, alpha: 0.75 };
    assert_eq!(*a.component(3), 0.75);
    assert_eq!(*a.component(0), c.l);
    assert_eq!(c, Oklch::from([0.5f32, -0.25, 0.125]));
    let mut d = c;
    *d.component_mut(0) = 2.0;
    assert_eq!(d.l, 2.0);
    assert_ne!(d, c);
    assert_eq!(d.c, c.c);
    assert_eq!(d.h, c.h);
    let mut d = c;
    *d.component_mut(1) = 2.0;
    assert_eq!(d.c, 2.0);
    assert_ne!(d, c);
    assert_eq!(d.l, c.l);
    assert_eq!(d.h, c.h);
    let mut d = c;
    *d.component_mut(2) = 2.0;
    assert_eq!(d.h, 2.0);
    assert_ne!(d, c);
    assert_eq!(d.l, c.l);
    assert_eq!(d.c, c.c);
    let mut p = PremultipliedAlpha { color: c, alpha: 0.75 };
    *p.component_mut(3) = 2.0;
    assert_eq!(p.alpha, 2.0);
    assert_eq!(p.color, c);
}

#[test]
fn oklch_space_tag() {
    assert_eq!(<Oklch<f32> as ColorType>::SPACE, Spaces::Oklch);
    assert_eq!(<Oklch<f32> as ColorType>::NUM_COMPONENTS, 3);
    assert_eq!(Spaces::Oklch.num_components(), 3);
    assert_eq!(<Alpha<Oklch<f32>> as ColorType>::SPACE, Spaces::Oklch);
    assert_eq!(<Alpha<Oklch<f32>> as ColorType>::NUM_COMPONENTS, 4);
    assert_eq!(<PremultipliedAlpha<Oklch<f32>> as ColorType>::SPACE, Spaces::Oklch);
    assert_eq!(<PremultipliedAlpha<Oklch<f32>> as ColorType>::NUM_COMPONENTS, 4);
}

#[test]
fn hsl_array_round_trips() {
    let c = Hsl::from([0.5f32, -0.25, 0.125]);
    assert_eq!(c.h, 0.5);
    assert_eq!(c.s, -0.25);
    assert_eq!(c.l, 0.125);
    let back: [f32; 3] = c.into();
    assert_eq!(back, [0.5f32, -0.25, 0.125]);
    let a = Alpha::<Hsl<f32>>::from([0.5f32, -0.25, 0.125, 0.75]);
    assert_eq!(a.color, c);
    assert_eq!(a.alpha, 0.75);
    let back: [f32; 4] = a.into();
    assert_eq!(back, [0.5f32, -0.25, 0.125, 0.75]);
    assert_eq!(Hsl::from(a), c);
    let p = PremultipliedAlpha::<Hsl<f32>>::from([0.5f32, -0.25, 0.125, 0.75]);
    assert_eq!(p.color, c);
    assert_eq!(p.alpha, 0.75);
    let back: [f32; 4] = p.into();
    assert_eq!(back, [0.5f32, -0.25, 0.125, 0.75]);
    assert_eq!(Hsl::from(p), c);
}

#[test]
fn hsl_component_views() {
    let c = Hsl::from([0.5f32, -0.25, 0.125]);
    assert_eq!(*c.component(0), c.h);
    assert_eq!(*c.component(1), c.s);
    assert_eq!(*c.component(2), c.l);
    let a = Alpha { color: c, alpha: 0.75 };
    assert_eq!(*a.component(3), 0.75);
    assert_eq!(*a.component(0), c.h);
    assert_eq!(c, Hsl::from([0.5f32, -0.25, 0.125]));
    let mut d = c;
    *d.component_mut(0) = 2.0;
    assert_eq!(d.h, 2.0);
    assert_ne!(d, c);
    assert_eq!(d.s, c.s);
    assert_eq!(d.l, c.l);
    let mut d = c;
    *d.component_mut(1) = 2.0;
    assert_eq!(d.s, 2.0);
    assert_ne!(d, c);
    assert_eq!(d.h, c.h);
    assert_eq!(d.l, c.l);
    let mut d = c;
    *d.component_mut(2) = 2.0;
    assert_eq!(d.l, 2.0);
    assert_ne!(d, c);
    assert_eq!(d.h, c.h);
    assert_eq!(d.s, c.s);
    let mut p = PremultipliedAlpha { color: c, alpha: 0.75 };
    *p.component_mut(3) = 2.0;
    assert_eq!(p.alpha, 2.0);
    assert_eq!(p.color, c);
}

#[test]
fn hsl_space_tag() {
    assert_eq!(<Hsl<f32> as ColorType>::SPACE, Spaces::Hsl);
    assert_eq!(<Hsl<f32> as ColorType>::NUM_COMPONENTS, 3);
    assert_eq!(Spaces::Hsl.num_components(), 3);
    assert_eq!(<Alpha<Hsl<f32>> as ColorType>::SPACE, Spaces::Hsl);
    assert_eq!(<Alpha<Hsl<f32>> as ColorType>::NUM_COMPONENTS, 4);
    assert_eq!(<PremultipliedAlpha<Hsl<f32>> as ColorType>::SPACE, Spaces::Hsl);
    assert_eq!(<PremultipliedAlpha<Hsl<f32>> as ColorType>::NUM_COMPONENTS, 4);
}

#[test]
fn hsv_array_round_trips() {
    let c = Hsv::from([0.5f32, -0.25, 0.125]);
    assert_eq!(c.h, 0.5);
    assert_eq!(c.s, -0.25);
    assert_eq!(c.v, 0.125);
    let back: [f32; 3] = c.into();
    assert_eq!(back, [0.5f32, -0.25, 0.125]);
    let a = Alpha::<Hsv<f32>>::from([0.5f32, -0.25, 0.125, 0.75]);
    assert_eq!(a.color, c);
    assert_eq!(a.alpha, 0.75);
    let back: [f32; 4] = a.into();
    assert_eq!(back, [0.5f32, -0.25, 0.125, 0.75]);
    assert_eq!(Hsv::from(a), c);
    let p = PremultipliedAlpha::<Hsv<f32>>::from([0.5f32, -0.25, 0.125, 0.75]);
    assert_eq!(p.color, c);
    assert_eq!(p.alpha, 0.75);
    let back: [f32; 4] = p.into();
    assert_eq!(back, [0.5f32, -0.25, 0.125, 0.75]);
    assert_eq!(Hsv::from(p), c);
}

#[test]
fn hsv_component_views() {
    let c = Hsv::from([0.5f32, -0.25, 0.125]);
    assert_eq!(*c.component(0), c.h);
    assert_eq!(*c.component(1), c.s);
    assert_eq!(*c.component(2), c.v);
    let a = Alpha { color: c, alpha: 0.75 };
    assert_eq!(*a.component(3), 0.75);
    assert_eq!(*a.component(0), c.h);
    assert_eq!(c, Hsv::from([0.5f32, -0.25, 0.125]));
    let mut d = c;
    *d.component_mut(0) = 2.0;
    assert_eq!(d.h, 2.0);
    assert_ne!(d, c);
    assert_eq!(d.s, c.s);
    assert_eq!(d.v, c.v);
    let mut d = c;
    *d.component_mut(1) = 2.0;
    assert_eq!(d.s, 2.0);
    assert_ne!(d, c);
    assert_eq!(d.h, c.h);
    assert_eq!(d.v, c.v);
    let mut d = c;
    *d.component_mut(2) = 2.0;
    assert_eq!(d.v, 2.0);
    assert_ne!(d, c);
    assert_eq!(d.h, c.h);
    assert_eq!(d.s, c.s);
    let mut p = PremultipliedAlpha { color: c, alpha: 0.75 };
    *p.component_mut(3) = 2.0;
    assert_eq!(p.alpha, 2.0);
    assert_eq!(p.color, c);
}

#[test]
fn hsv_space_tag() {
    assert_eq!(<Hsv<f32> as ColorType>::SPACE, Spaces::Hsv);
    assert_eq!(<Hsv<f32> as ColorType>::NUM_COMPONENTS, 3);
    assert_eq!(Spaces::Hsv.num_components(), 3);
    assert_eq!(<Alpha<Hsv<f32>> as ColorType>::SPACE, Spaces::Hsv);
    assert_eq!(<Alpha<Hsv<f32>> as ColorType>::NUM_COMPONENTS, 4);
    assert_eq!(<PremultipliedAlpha<Hsv<f32>> as ColorType>::SPACE, Spaces::Hsv);
    assert_eq!(<PremultipliedAlpha<Hsv<f32>> as ColorType>::NUM_COMPONENTS, 4);
}

#[test]
fn y_cb_cr_array_round_trips() {
    let c = YCbCr::from([12u8, 34, 56]);
    assert_eq!(c.y, 12);
    assert_eq!(c.cb, 34);
    assert_eq!(c.cr, 56);
    let back: [u8; 3] = c.into();
    assert_eq!(back, [12u8, 34, 56]);
    let a = Alpha::<YCbCr<u8>>::from([12u8, 34, 56, 78]);
    assert_eq!(a.color, c);
    assert_eq!(a.alpha, 78);
    let back: [u8; 4] = a.into();
    assert_eq!(back, [12u8, 34, 56, 78]);
    assert_eq!(YCbCr::from(a), c);
    let p = PremultipliedAlpha::<YCbCr<u8>>::from([12u8, 34, 56, 78]);
    assert_eq!(p.color, c);
    assert_eq!(p.alpha, 78);
    let back: [u8; 4] = p.into();
    assert_eq!(back, [12u8, 34, 56, 78]);
    assert_eq!(YCbCr::from(p), c);
}

#[test]
fn y_cb_cr_component_views() {
    let c = YCbCr::from([12u8, 34, 56]);
    assert_eq!(*c.component(0), c.y);
    assert_eq!(*c.component(1), c.cb);
    assert_eq!(*c.component(2), c.cr);
    let a = Alpha { color: c, alpha: 78 };
    assert_eq!(*a.component(3), 78);
    assert_eq!(*a.component(0), c.y);
    assert_eq!(c, YCbCr::from([12u8, 34, 56]));
    let mut d = c;
    *d.component_mut(0) = 99;
    assert_eq!(d.y, 99);
    assert_ne!(d, c);
    assert_eq!(d.cb, c.cb);
    assert_eq!(d.cr, c.cr);
    let mut d = c;
    *d.component_mut(1) = 99;
    assert_eq!(d.cb, 99);
    assert_ne!(d, c);
    assert_eq!(d.y, c.y);
    assert_eq!(d.cr, c.cr);
    let mut d = c;
    *d.component_mut(2) = 99;
    assert_eq!(d.cr, 99);
    assert_ne!(d, c);
    assert_eq!(d.y, c.y);
    assert_eq!(d.cb, c.cb);
    let mut p = PremultipliedAlpha { color: c, alpha: 78 };
    *p.component_mut(3) = 99;
    assert_eq!(p.alpha, 99);
    assert_eq!(p.color, c);
}

#[test]
fn y_cb_cr_space_tag() {
    assert_eq!(<YCbCr<u8> as ColorType>::SPACE, Spaces::YCbCr);
    assert_eq!(<YCbCr<u8> as ColorType>::NUM_COMPONENTS, 3);
    assert_eq!(Spaces::YCbCr.num_components(), 3);
    assert_eq!(<Alpha<YCbCr<u8>> as ColorType>::SPACE, Spaces::YCbCr);
    assert_eq!(<Alpha<YCbCr<u8>> as ColorType>::NUM_COMPONENTS, 4);
    assert_eq!(<PremultipliedAlpha<YCbCr<u8>> as ColorType>::SPACE, Spaces::YCbCr);
    assert_eq!(<PremultipliedAlpha<YCbCr<u8>> as ColorType>::NUM_COMPONENTS, 4);
}

#[test]
fn y_prime_cb_cr_array_round_trips() {
    let c = YPrimeCbCr::from([12u8, 34, 56]);
    assert_eq!(c.y, 12);
    assert_eq!(c.cb, 34);
    assert_eq!(c.cr, 56);
    let back: [u8; 3] = c.into();
    assert_eq!(back, [12u8, 34, 56]);
    let a = Alpha::<YPrimeCbCr<u8>>::from([12u8, 34, 56, 78]);
    assert_eq!(a.color, c);
    assert_eq!(a.alpha, 78);
    let back: [u8; 4] = a.into();
    assert_eq!(back, [12u8, 34, 56, 78]);
    assert_eq!(YPrimeCbCr::from(a), c);
    let p = PremultipliedAlpha::<YPrimeCbCr<u8>>::from([12u8, 34, 56, 78]);
    assert_eq!(p.color, c);
    assert_eq!(p.alpha, 78);
    let back: [u8; 4] = p.into();
    assert_eq!(back, [12u8, 34, 56, 78]);
    assert_eq!(YPrimeCbCr::from(p), c);
}

#[test]
fn y_prime_cb_cr_component_views() {
    let c = YPrimeCbCr::from([12u8, 34, 56]);
    assert_eq!(*c.component(0), c.y);
    assert_eq!(*c.component(1), c.cb);
    assert_eq!(*c.component(2), c.cr);
    let a = Alpha { color: c, alpha: 78 };
    assert_eq!(*a.component(3), 78);
    assert_eq!(*a.component(0), c.y);
    assert_eq!(c, YPrimeCbCr::from([12u8, 34, 56]));
    let mut d = c;
    *d.component_mut(0) = 99;
    assert_eq!(d.y, 99);
    assert_ne!(d, c);
    assert_eq!(d.cb, c.cb);
    assert_eq!(d.cr, c.cr);
    let mut d = c;
    *d.component_mut(1) = 99;
    assert_eq!(d.cb, 99);
    assert_ne!(d, c);
    assert_eq!(d.y, c.y);
    assert_eq!(d.cr, c.cr);
    let mut d = c;
    *d.component_mut(2) = 99;
    assert_eq!(d.cr, 99);
    assert_ne!(d, c);
    assert_eq!(d.y, c.y);
    assert_eq!(d.cb, c.cb);
    let mut p = PremultipliedAlpha { color: c, alpha: 78 };
    *p.component_mut(3) = 99;
    assert_eq!(p.alpha, 99);
    assert_eq!(p.color, c);
}

#[test]
fn y_prime_cb_cr_space_tag() {
    assert_eq!(<YPrimeCbCr<u8> as ColorType>::SPACE, Spaces::YPrimeCbCr);
    assert_eq!(<YPrimeCbCr<u8> as ColorType>::NUM_COMPONENTS, 3);
    assert_eq!(Spaces::YPrimeCbCr.num_components(), 3);
    assert_eq!(<Alpha<YPrimeCbCr<u8>> as ColorType>::SPACE, Spaces::YPrimeCbCr);
    assert_eq!(<Alpha<YPrimeCbCr<u8>> as ColorType>::NUM_COMPONENTS, 4);
    assert_eq!(<PremultipliedAlpha<YPrimeCbCr<u8>> as ColorType>::SPACE, Spaces::YPrimeCbCr);
    assert_eq!(<PremultipliedAlpha<YPrimeCbCr<u8>> as ColorType>::NUM_COMPONENTS, 4);
}

#[test]
fn y_pb_pr_array_round_trips() {
    let c = YPbPr::from([0.5f32, -0.25, 0.125]);
    assert_eq!(c.y, 0.5);
    assert_eq!(c.pb, -0.25);
    assert_eq!(c.pr, 0.125);
    let back: [f32; 3] = c.into();
    assert_eq!(back, [0.5f32, -0.25, 0.125]);
    let a = Alpha::<YPbPr<f32>>::from([0.5f32, -0.25, 0.125, 0.75]);
    assert_eq!(a.color, c);
    assert_eq!(a.alpha, 0.75);
    let back: [f32; 4] = a.into();
    assert_eq!(back, [0.5f32, -0.25, 0.125, 0.75]);
    assert_eq!(YPbPr::from(a), c);
    let p = PremultipliedAlpha::<YPbPr<f32>>::from([0.5f32, -0.25, 0.125, 0.75]);
    assert_eq!(p.color, c);
    assert_eq!(p.alpha, 0.75);
    let back: [f32; 4] = p.into();
    assert_eq!(back, [0.5f32, -0.25, 0.125, 0.75]);
    assert_eq!(YPbPr::from(p), c);
}

#[test]
fn y_pb_pr_component_views() {
    let c = YPbPr::from([0.5f32, -0.25, 0.125]);
    assert_eq!(*c.component(0), c.y);
    assert_eq!(*c.component(1), c.pb);
    assert_eq!(*c.component(2), c.pr);
    let a = Alpha { color: c, alpha: 0.75 };
    assert_eq!(*a.component(3), 0.75);
    assert_eq!(*a.component(0), c.y);
    assert_eq!(c, YPbPr::from([0.5f32, -0.25, 0.125]));
    let mut d = c;
    *d.component_mut(0) = 2.0;
    assert_eq!(d.y, 2.0);
    assert_ne!(d, c);
    assert_eq!(d.pb, c.pb);
    assert_eq!(d.pr, c.pr);
    let mut d = c;
    *d.component_mut(1) = 2.0;
    assert_eq!(d.pb, 2.0);
    assert_ne!(d, c);
    assert_eq!(d.y, c.y);
    assert_eq!(d.pr, c.pr);
    let mut d = c;
    *d.component_mut(2) = 2.0;
    assert_eq!(d.pr, 2.0);
    assert_ne!(d, c);
    assert_eq!(d.y, c.y);
    assert_eq!(d.pb, c.pb);
    let mut p = PremultipliedAlpha { color: c, alpha: 0.75 };
    *p.component_mut(3) = 2.0;
    assert_eq!(p.alpha, 2.0);
    assert_eq!(p.color, c);
}

#[test]
fn y_pb_pr_space_tag() {
    assert_eq!(<YPbPr<f32> as ColorType>::SPACE, Spaces::YPbPr);
    assert_eq!(<YPbPr<f32> as ColorType>::NUM_COMPONENTS, 3);
    assert_eq!(Spaces::YPbPr.num_components(), 3);
    assert_eq!(<Alpha<YPbPr<f32>> as ColorType>::SPACE, Spaces::YPbPr);
    assert_eq!(<Alpha<YPbPr<f32>> as ColorType>::NUM_COMPONENTS, 4);
    assert_eq!(<PremultipliedAlpha<YPbPr<f32>> as ColorType>::SPACE, Spaces::YPbPr);
    assert_eq!(<PremultipliedAlpha<YPbPr<f32>> as ColorType>::NUM_COMPONENTS, 4);
}

#[test]
fn y_prime_pb_pr_array_round_trips() {
    let c = YPrimePbPr::from([0.5f32, -0.25, 0.125]);
    assert_eq!(c.y, 0.5);
    assert_eq!(c.pb, -0.25);
    assert_eq!(c.pr, 0.125);
    let back: [f32; 3] = c.into();
    assert_eq!(back, [0.5f32, -0.25, 0.125]);
    let a = Alpha::<YPrimePbPr<f32>>::from([0.5f32, -0.25, 0.125, 0.75]);
    assert_eq!(a.color, c);
    assert_eq!(a.alpha, 0.75);
    let back: [f32; 4] = a.into();
    assert_eq!(back, [0.5f32, -0.25, 0.125, 0.75]);
    assert_eq!(YPrimePbPr::from(a), c);
    let p = PremultipliedAlpha::<YPrimePbPr<f32>>::from([0.5f32, -0.25, 0.125, 0.75]);
    assert_eq!(p.color, c);
    assert_eq!(p.alpha, 0.75);
    let back: [f32; 4] = p.into();
    assert_eq!(back, [0.5f32, -0.25, 0.125, 0.75]);
    assert_eq!(YPrimePbPr::from(p), c);
}

#[test]
fn y_prime_pb_pr_component_views() {
    let c = YPrimePbPr::from([0.5f32, -0.25, 0.125]);
    assert_eq!(*c.component(0), c.y);
    assert_eq!(*c.component(1), c.pb);
    assert_eq!(*c.component(2), c.pr);
    let a = Alpha { color: c, alpha: 0.75 };
    assert_eq!(*a.component(3), 0.75);
    assert_eq!(*a.component(0), c.y);
    assert_eq!(c, YPrimePbPr::from([0.5f32, -0.25, 0.125]));
    let mut d = c;
    *d.component_mut(0) = 2.0;
    assert_eq!(d.y, 2.0);
    assert_ne!(d, c);
    assert_eq!(d.pb, c.pb);
    assert_eq!(d.pr, c.pr);
    let mut d = c;
    *d.component_mut(1) = 2.0;
    assert_eq!(d.pb, 2.0);
    assert_ne!(d, c);
    assert_eq!(d.y, c.y);
    assert_eq!(d.pr, c.pr);
    let mut d = c;
    *d.component_mut(2) = 2.0;
    assert_eq!(d.pr, 2.0);
    assert_ne!(d, c);
    assert_eq!(d.y, c.y);
    assert_eq!(d.pb, c.pb);
    let mut p = PremultipliedAlpha { color: c, alpha: 0.75 };
    *p.component_mut(3) = 2.0;
    assert_eq!(p.alpha, 2.0);
    assert_eq!(p.color, c);
}

#[test]
fn y_prime_pb_pr_space_tag() {
    assert_eq!(<YPrimePbPr<f32> as ColorType>::SPACE, Spaces::YPrimePbPr);
    assert_eq!(<YPrimePbPr<f32> as ColorType>::NUM_COMPONENTS, 3);
    assert_eq!(Spaces::YPrimePbPr.num_components(), 3);
    assert_eq!(<Alpha<YPrimePbPr<f32>> as ColorType>::SPACE, Spaces::YPrimePbPr);
    assert_eq!(<Alpha<YPrimePbPr<f32>> as ColorType>::NUM_COMPONENTS, 4);
    assert_eq!(<PremultipliedAlpha<YPrimePbPr<f32>> as ColorType>::SPACE, Spaces::YPrimePbPr);
    assert_eq!(<PremultipliedAlpha<YPrimePbPr<f32>> as ColorType>::NUM_COMPONENTS, 4);
}

#[test]
fn yuv_array_round_trips() {
    let c = Yuv::from([0.5f32, -0.25, 0.125]);
    assert_eq!(c.y, 0.5);
    assert_eq!(c.u, -0.25);
    assert_eq!(c.v, 0.125);
    let back: [f32; 3] = c.into();
    assert_eq!(back, [0.5f32, -0.25, 0.125]);
    let a = Alpha::<Yuv<f32>>::from([0.5f32, -0.25, 0.125, 0.75]);
    assert_eq!(a.color, c);
    assert_eq!(a.alpha, 0.75);
    let back: [f32; 4] = a.into();
    assert_eq!(back, [0.5f32, -0.25, 0.125, 0.75]);
    assert_eq!(Yuv::from(a), c);
    let p = PremultipliedAlpha::<Yuv<f32>>::from([0.5f32, -0.25, 0.125, 0.75]);
    assert_eq!(p.color, c);
    assert_eq!(p.alpha, 0.75);
    let back: [f32; 4] = p.into();
    assert_eq!(back, [0.5f32, -0.25, 0.125, 0.75]);
    assert_eq!(Yuv::from(p), c);
}

#[test]
fn yuv_component_views() {
    let c = Yuv::from([0.5f32, -0.25, 0.125]);
    assert_eq!(*c.component(0), c.y);
    assert_eq!(*c.component(1), c.u);
    assert_eq!(*c.component(2), c.v);
    let a = Alpha { color: c, alpha: 0.75 };
    assert_eq!(*a.component(3), 0.75);
    assert_eq!(*a.component(0), c.y);
    assert_eq!(c, Yuv::from([0.5f32, -0.25, 0.125]));
    let mut d = c;
    *d.component_mut(0) = 2.0;
    assert_eq!(d.y, 2.0);
    assert_ne!(d, c);
    assert_eq!(d.u, c.u);
    assert_eq!(d.v, c.v);
    let mut d = c;
    *d.component_mut(1) = 2.0;
    assert_eq!(d.u, 2.0);
    assert_ne!(d, c);
    assert_eq!(d.y, c.y);
    assert_eq!(d.v, c.v);
    let mut d = c;
    *d.component_mut(2) = 2.0;
    assert_eq!(d.v, 2.0);
    assert_ne!(d, c);
    assert_eq!(d.y, c.y);
    assert_eq!(d.u, c.u);
    let mut p = PremultipliedAlpha { color: c, alpha: 0.75 };
    *p.component_mut(3) = 2.0;
    assert_eq!(p.alpha, 2.0);
    assert_eq!(p.color, c);
}

#[test]
fn yuv_space_tag() {
    assert_eq!(<Yuv<f32> as ColorType>::SPACE, Spaces::Yuv);
    assert_eq!(<Yuv<f32> as ColorType>::NUM_COMPONENTS, 3);
    assert_eq!(Spaces::Yuv.num_components(), 3);
    assert_eq!(<Alpha<Yuv<f32>> as ColorType>::SPACE, Spaces::Yuv);
    assert_eq!(<Alpha<Yuv<f32>> as ColorType>::NUM_COMPONENTS, 4);
    assert_eq!(<PremultipliedAlpha<Yuv<f32>> as ColorType>::SPACE, Spaces::Yuv);
    assert_eq!(<PremultipliedAlpha<Yuv<f32>> as ColorType>::NUM_COMPONENTS, 4);
}

#[test]
fn y_cx_cz_array_round_trips() {
    let c = YCxCz::from([0.5f32, -0.25, 0.125]);
    assert_eq!(c.y, 0.5);
    assert_eq!(c.cx, -0.25);
    assert_eq!(c.cz, 0.125);
    let back: [f32; 3] = c.into();
    assert_eq!(back, [0.5f32, -0.25, 0.125]);
    let a = Alpha::<YCxCz<f32>>::from([0.5f32, -0.25, 0.125, 0.75]);
    assert_eq!(a.color, c);
    assert_eq!(a.alpha, 0.75);
    let back: [f32; 4] = a.into();
    assert_eq!(back, [0.5f32, -0.25, 0.125, 0.75]);
    assert_eq!(YCxCz::from(a), c);
    let p = PremultipliedAlpha::<YCxCz<f32>>::from([0.5f32, -0.25, 0.125, 0.75]);
    assert_eq!(p.color, c);
    assert_eq!(p.alpha, 0.75);
    let back: [f32; 4] = p.into();
    assert_eq!(back, [0.5f32, -0.25, 0.125, 0.75]);
    assert_eq!(YCxCz::from(p), c);
}

#[test]
fn y_cx_cz_component_views() {
    let c = YCxCz::from([0.5f32, -0.25, 0.125]);
    assert_eq!(*c.component(0), c.y);
    assert_eq!(*c.component(1), c.cx);
    assert_eq!(*c.component(2), c.cz);
    let a = Alpha { color: c, alpha: 0.75 };
    assert_eq!(*a.component(3), 0.75);
    assert_eq!(*a.component(0), c.y);
    assert_eq!(c, YCxCz::from([0.5f32, -0.25, 0.125]));
    let mut d = c;
    *d.component_mut(0) = 2.0;
    assert_eq!(d.y, 2.0);
    assert_ne!(d, c);
    assert_eq!(d.cx, c.cx);
    assert_eq!(d.cz, c.cz);
    let mut d = c;
    *d.component_mut(1) = 2.0;
    assert_eq!(d.cx, 2.0);
    assert_ne!(d, c);
    assert_eq!(d.y, c.y);
    assert_eq!(d.cz, c.cz);
    let mut d = c;
    *d.component_mut(2) = 2.0;
    assert_eq!(d.cz, 2.0);
    assert_ne!(d, c);
    assert_eq!(d.y, c.y);
    assert_eq!(d.cx, c.cx);
    let mut p = PremultipliedAlpha { color: c, alpha: 0.75 };
    *p.component_mut(3) = 2.0;
    assert_eq!(p.alpha, 2.0);
    assert_eq!(p.color, c);
}

#[test]
fn y_cx_cz_space_tag() {
    assert_eq!(<YCxCz<f32> as ColorType>::SPACE, Spaces::YCxCz);
    assert_eq!(<YCxCz<f32> as ColorType>::NUM_COMPONENTS, 3);
    assert_eq!(Spaces::YCxCz.num_components(), 3);
    assert_eq!(<Alpha<YCxCz<f32>> as ColorType>::SPACE, Spaces::YCxCz);
    assert_eq!(<Alpha<YCxCz<f32>> as ColorType>::NUM_COMPONENTS, 4);
    assert_eq!(<PremultipliedAlpha<YCxCz<f32>> as ColorType>::SPACE, Spaces::YCxCz);
    assert_eq!(<PremultipliedAlpha<YCxCz<f32>> as ColorType>::NUM_COMPONENTS, 4);
}
