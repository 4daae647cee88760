//! Laws that span the resolution machine and the converters, stated over the
//! same spec functions their contracts use.

use vstd::prelude::*;

use crate::errors::{ConvertError, ResolveError};
use crate::metadata::spec_icon_key;
use crate::resolve::{
    spec_bundle_checked, spec_default_icon_path, spec_default_resolution, spec_descriptor_read,
    Resolution, ResolveStep, SourceKind,
};
use crate::selector::{spec_icns_conversion, spec_icns_pngs, spec_selected_kind};

verus! {

/// A bundle whose descriptor cannot be read or parsed resolves fatally with
/// `UnreadableDescriptor` — except when the bundle path itself does not
/// exist, which instead falls back to the default icon and succeeds.
pub proof fn lemma_unreadable_descriptor_fatal_unless_missing(
    bundle: Seq<char>,
    missing_outcome: ResolveStep,
    unreadable_outcome: ResolveStep,
)
    requires
        spec_bundle_checked(bundle, false, missing_outcome),
        spec_descriptor_read(bundle, None, unreadable_outcome),
    ensures
        missing_outcome matches ResolveStep::Done { resolution } && spec_default_resolution(
            resolution,
        ),
        unreadable_outcome == (ResolveStep::Done {
            resolution: Resolution::Failed(ResolveError::UnreadableDescriptor),
        }),
{
}

/// A dictionary descriptor without a string under the icon key resolves to
/// the default icon source, so the pipeline's output is the PNG rendering of
/// the best-quality representation of the ICNS bytes found at the default
/// icon path.
pub proof fn lemma_undeclared_icon_uses_default(
    bundle: Seq<char>,
    m: Map<Seq<char>, Option<Seq<char>>>,
    outcome: ResolveStep,
    data: Seq<u8>,
    converted: Result<Vec<u8>, ConvertError>,
)
    requires
        spec_descriptor_read(bundle, Some(Some(m)), outcome),
        !(m.contains_key(spec_icon_key()) && m[spec_icon_key()] is Some),
        spec_icns_conversion(data, converted),
        spec_icns_pngs(data) is Some,
        spec_selected_kind(spec_icns_pngs(data)->0) is Some,
    ensures
        outcome matches ResolveStep::Done { resolution } && resolution
            matches Resolution::Source { path, kind } && path@ == spec_default_icon_path() && kind
            == SourceKind::Icns,
        converted matches Ok(png) && png@ == spec_icns_pngs(data)->0[spec_selected_kind(
            spec_icns_pngs(data)->0,
        )->0.spec_tag()],
{
}

} // verus!
