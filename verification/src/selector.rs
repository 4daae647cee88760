//! Decoding an ICNS icon container and selecting its best representation.
//!
//! The container holds representations under four-byte type tags. The
//! selector walks a fixed quality-preference order, highest quality first,
//! and converts the first representation the container can deliver into PNG
//! bytes.

use vstd::prelude::*;

use crate::errors::ConvertError;

verus! {

/// The icon representation kinds the selector considers, from the 512x512
/// at 2x scale variant down to the 16x16 24-bit one.
#[derive(Clone, Copy, Debug, PartialEq, Eq, Structural)]
pub enum IconKind {
    /// 512x512 32-bit icon at 2x scale.
    Rgba512x512_2x,
    /// 512x512 32-bit icon.
    Rgba512x512,
    /// 256x256 32-bit icon at 2x scale.
    Rgba256x256_2x,
    /// 256x256 32-bit icon.
    Rgba256x256,
    /// 128x128 32-bit icon at 2x scale.
    Rgba128x128_2x,
    /// 128x128 24-bit icon.
    Rgb128x128,
    /// 32x32 32-bit icon at 2x scale.
    Rgba32x32_2x,
    /// 32x32 24-bit icon.
    Rgb32x32,
    /// 16x16 32-bit icon at 2x scale.
    Rgba16x16_2x,
    /// 16x16 24-bit icon.
    Rgb16x16,
}

impl IconKind {
    /// The four-byte container type tag of this kind, read big-endian as one
    /// integer.
    pub open spec fn spec_tag(self) -> u32 {
        match self {
            IconKind::Rgba512x512_2x => 0x69633130u32,  // "ic10"
            IconKind::Rgba512x512 => 0x69633039u32,  // "ic09"
            IconKind::Rgba256x256_2x => 0x69633134u32,  // "ic14"
            IconKind::Rgba256x256 => 0x69633038u32,  // "ic08"
            IconKind::Rgba128x128_2x => 0x69633133u32,  // "ic13"
            IconKind::Rgb128x128 => 0x69743332u32,  // "it32"
            IconKind::Rgba32x32_2x => 0x69633132u32,  // "ic12"
            IconKind::Rgb32x32 => 0x696c3332u32,  // "il32"
            IconKind::Rgba16x16_2x => 0x69633131u32,  // "ic11"
            IconKind::Rgb16x16 => 0x69733332u32,  // "is32"
        }
    }

    /// Computes the container type tag of this kind.
    pub fn tag(self) -> (r: u32)
        ensures
            r == self.spec_tag(),
    {
        match self {
            IconKind::Rgba512x512_2x => 0x69633130u32,
            IconKind::Rgba512x512 => 0x69633039u32,
            IconKind::Rgba256x256_2x => 0x69633134u32,
            IconKind::Rgba256x256 => 0x69633038u32,
            IconKind::Rgba128x128_2x => 0x69633133u32,
            IconKind::Rgb128x128 => 0x69743332u32,
            IconKind::Rgba32x32_2x => 0x69633132u32,
            IconKind::Rgb32x32 => 0x696c3332u32,
            IconKind::Rgba16x16_2x => 0x69633131u32,
            IconKind::Rgb16x16 => 0x69733332u32,
        }
    }
}

/// The fixed quality-preference order, highest visual quality first.
pub open spec fn spec_preference() -> Seq<IconKind> {
    seq![
        IconKind::Rgba512x512_2x,
        IconKind::Rgba512x512,
        IconKind::Rgba256x256_2x,
        IconKind::Rgba256x256,
        IconKind::Rgba128x128_2x,
        IconKind::Rgb128x128,
        IconKind::Rgba32x32_2x,
        IconKind::Rgb32x32,
        IconKind::Rgba16x16_2x,
        IconKind::Rgb16x16,
    ]
}

/// Builds the quality-preference order.
pub fn preference_order() -> (r: Vec<IconKind>)
    ensures
        r@ == spec_preference(),
{
    let mut r: Vec<IconKind> = Vec::new();
    r.push(IconKind::Rgba512x512_2x);
    r.push(IconKind::Rgba512x512);
    r.push(IconKind::Rgba256x256_2x);
    r.push(IconKind::Rgba256x256);
    r.push(IconKind::Rgba128x128_2x);
    r.push(IconKind::Rgb128x128);
    r.push(IconKind::Rgba32x32_2x);
    r.push(IconKind::Rgb32x32);
    r.push(IconKind::Rgba16x16_2x);
    r.push(IconKind::Rgb16x16);
    proof {
        assert(r@ =~= spec_preference());
    }
    r
}

#[verifier::external_type_specification]
#[verifier::external_body]
pub struct ExIconFamily(icns::IconFamily);

/// What a decoded ICNS icon family delivers: for each four-byte type tag
/// (read big-endian as one integer), the PNG serialization of the complete
/// representation stored under it. A tag is in the domain exactly when
/// `icns::IconFamily::get_icon_with_type` yields an image for its icon type
/// (the element is present, its mask where the type takes one, and the data
/// decodes) and `icns::Image::write_png` serializes that image; both are pure
/// computations on the family's elements.
pub uninterp spec fn spec_family_pngs(f: icns::IconFamily) -> Map<u32, Seq<u8>>;

/// What decoding bytes as an ICNS container yields: `None` when the bytes are
/// malformed, otherwise the delivered representations, as PNG bytes per type
/// tag. Decoding is a pure computation on the bytes.
pub uninterp spec fn spec_icns_pngs(data: Seq<u8>) -> Option<Map<u32, Seq<u8>>>;

/// Relies on `icns::IconFamily::read`, which decodes an ICNS icon family
/// from a byte stream, or fails on malformed bytes.
#[verifier::external_body]
fn family_read(data: &Vec<u8>) -> (r: Option<icns::IconFamily>)
    ensures
        r is Some <==> spec_icns_pngs(data@) is Some,
        r matches Some(f) ==> Some(spec_family_pngs(f)) == spec_icns_pngs(data@),
{
    icns::IconFamily::read(data.as_slice()).ok()
}

/// Relies on `icns::IconType::from_ostype`, which maps a four-byte tag to
/// its icon type, on `icns::IconFamily::get_icon_with_type`, which decodes
/// the representation stored under that type together with its mask where
/// the type takes one, and on `icns::Image::write_png`, which serializes the
/// decoded image as PNG.
#[verifier::external_body]
fn family_extract_png(f: &icns::IconFamily, tag: u32) -> (r: Option<Vec<u8>>)
    ensures
        r is Some <==> spec_family_pngs(*f).contains_key(tag),
        r matches Some(png) ==> png@ == spec_family_pngs(*f)[tag],
{
    let t = icns::IconType::from_ostype(icns::OSType(tag.to_be_bytes()))?;
    let icon = f.get_icon_with_type(t).ok()?;
    let mut out: Vec<u8> = Vec::new();
    icon.write_png(&mut out).ok()?;
    Some(out)
}

/// The earliest-listed kind of `prefs` whose tag the container delivers.
pub open spec fn spec_first_available(m: Map<u32, Seq<u8>>, prefs: Seq<IconKind>) -> Option<
    IconKind,
>
    decreases prefs.len(),
{
    if prefs.len() == 0 {
        None
    } else if m.contains_key(prefs[0].spec_tag()) {
        Some(prefs[0])
    } else {
        spec_first_available(m, prefs.drop_first())
    }
}

/// The kind the selector settles on: the earliest kind of the preference
/// order the container delivers.
pub open spec fn spec_selected_kind(m: Map<u32, Seq<u8>>) -> Option<IconKind> {
    spec_first_available(m, spec_preference())
}

/// Full statement of what converting an ICNS container yields: malformed
/// bytes are fatal; otherwise the output is the PNG of the representation of
/// the selected kind, and a container delivering none of the preferred kinds
/// is surfaced as an explicit failure.
pub open spec fn spec_icns_conversion(data: Seq<u8>, r: Result<Vec<u8>, ConvertError>) -> bool {
    match spec_icns_pngs(data) {
        None => r == Err::<Vec<u8>, ConvertError>(ConvertError::ContainerDecode),
        Some(m) => match spec_selected_kind(m) {
            Some(k) => r matches Ok(png) && png@ == m[k.spec_tag()],
            None => r == Err::<Vec<u8>, ConvertError>(ConvertError::NoSuitableIcon),
        },
    }
}

/// Decodes an ICNS icon container and converts its best-quality
/// representation into PNG bytes, walking the preference order from the
/// highest quality down and stopping at the first representation the
/// container delivers.
pub fn icns_to_png(data: &Vec<u8>) -> (r: Result<Vec<u8>, ConvertError>)
    ensures
        spec_icns_conversion(data@, r),
{
    let family = match family_read(data) {
        Some(f) => f,
        None => {
            return Err(ConvertError::ContainerDecode);
        },
    };
    let ghost m = spec_family_pngs(family);
    let prefs = preference_order();
    let n = prefs.len();
    proof {
        assert(prefs@.skip(0) =~= prefs@);
    }
    for i in 0..n
        invariant
            m == spec_family_pngs(family),
            spec_icns_pngs(data@) == Some(m),
            prefs@ == spec_preference(),
            n == prefs@.len(),
            spec_first_available(m, prefs@.skip(i as int)) == spec_selected_kind(m),
    {
        let tag = prefs[i].tag();
        proof {
            assert(prefs@.skip(i as int)[0] == prefs@[i as int]);
        }
        match family_extract_png(&family, tag) {
            Some(png) => {
                proof {
                    assert(spec_first_available(m, prefs@.skip(i as int)) == Some(
                        prefs@[i as int],
                    ));
                }
                return Ok(png);
            },
            None => {
                proof {
                    assert(spec_first_available(m, prefs@.skip(i as int))
                        == spec_first_available(m, prefs@.skip(i as int).drop_first()));
                    assert(prefs@.skip(i as int).drop_first() =~= prefs@.skip(i as int + 1));
                }
            },
        }
    }
    proof {
        assert(prefs@.skip(n as int) =~= Seq::<IconKind>::empty());
    }
    Err(ConvertError::NoSuitableIcon)
}

proof fn lemma_first_available_earliest(m: Map<u32, Seq<u8>>, prefs: Seq<IconKind>, i: int)
    requires
        0 <= i < prefs.len(),
        m.contains_key(prefs[i].spec_tag()),
    ensures
        exists|c: int| 0 <= c <= i && spec_first_available(m, prefs) == Some(prefs[c]),
    decreases prefs.len(),
{
    if m.contains_key(prefs[0].spec_tag()) {
        assert(0 <= 0 <= i && spec_first_available(m, prefs) == Some(prefs[0]));
    } else {
        lemma_first_available_earliest(m, prefs.drop_first(), i - 1);
        let c0 = choose|c: int|
            0 <= c <= i - 1 && spec_first_available(m, prefs.drop_first()) == Some(
                prefs.drop_first()[c],
            );
        assert(prefs.drop_first()[c0] == prefs[c0 + 1]);
        assert(0 <= c0 + 1 <= i && spec_first_available(m, prefs) == Some(prefs[c0 + 1]));
    }
}

/// The selector never settles for a lesser representation than the container
/// delivers: whenever the kind at position `i` of the preference order is
/// available, the selected kind stands at position `i` or earlier.
pub proof fn lemma_selection_prefers_earliest(m: Map<u32, Seq<u8>>, i: int)
    requires
        0 <= i < spec_preference().len(),
        m.contains_key(spec_preference()[i].spec_tag()),
    ensures
        exists|c: int| 0 <= c <= i && spec_selected_kind(m) == Some(spec_preference()[c]),
{
    lemma_first_available_earliest(m, spec_preference(), i);
}

} // verus!
