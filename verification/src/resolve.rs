//! Resolution of a bundle path to the concrete icon source file.
//!
//! Resolution needs answers from the filesystem (does the bundle exist, what
//! is in its descriptor file, which candidate file exists), so it is a step
//! machine: every decision is taken here, while the caller answers each
//! [`ResolveStep`] question and feeds the answer back. The scan over the
//! candidate paths is ordered, short-circuiting on the first existing path,
//! and never returns to an earlier candidate.

use vstd::prelude::*;

use crate::errors::ResolveError;
use crate::metadata::{
    read_icon_declaration, spec_descriptor_of, spec_icon_key, IconDeclaration,
};

verus! {

/// The format an icon source file is decoded as.
#[derive(Clone, Copy, Debug, PartialEq, Eq, Structural)]
pub enum SourceKind {
    /// An ICNS icon container.
    Icns,
    /// A TIFF raster image.
    Tiff,
}

/// The fixed absolute path of the generic application icon, the universal
/// fallback source.
pub open spec fn spec_default_icon_path() -> Seq<char> {
    "/System/Library/CoreServices/CoreTypes.bundle/Contents/Resources/GenericApplicationIcon.icns"@
}

/// Builds the path of the system default icon.
pub fn default_icon_path() -> (r: String)
    ensures
        r@ == spec_default_icon_path(),
{
    "/System/Library/CoreServices/CoreTypes.bundle/Contents/Resources/GenericApplicationIcon.icns".to_owned()
}

/// The path of a bundle's property-list descriptor file.
pub open spec fn spec_descriptor_path(bundle: Seq<char>) -> Seq<char> {
    bundle + "/Contents/Info.plist"@
}

/// Builds the path of a bundle's descriptor file.
pub fn descriptor_path(bundle: &str) -> (r: String)
    ensures
        r@ == spec_descriptor_path(bundle@),
{
    let mut s = bundle.to_owned();
    s.append("/Contents/Info.plist");
    s
}

/// The candidate paths for a declared icon name, in priority order: the name
/// unchanged, the name with `.icns` appended, the name with `.tiff`
/// appended, each under the bundle's resources directory.
pub open spec fn spec_candidate_paths(bundle: Seq<char>, name: Seq<char>) -> Seq<Seq<char>> {
    let base = bundle + "/Contents/Resources/"@ + name;
    seq![base, base + ".icns"@, base + ".tiff"@]
}

/// Builds the candidate paths for a declared icon name.
pub fn candidate_paths(bundle: &str, name: &str) -> (r: Vec<String>)
    ensures
        r@.map_values(|p: String| p@) == spec_candidate_paths(bundle@, name@),
{
    let mut base = bundle.to_owned();
    base.append("/Contents/Resources/");
    base.append(name);
    let mut icns_path = base.clone();
    icns_path.append(".icns");
    let mut tiff_path = base.clone();
    tiff_path.append(".tiff");
    let mut r: Vec<String> = Vec::new();
    r.push(base);
    r.push(icns_path);
    r.push(tiff_path);
    proof {
        assert(r@.map_values(|p: String| p@) =~= spec_candidate_paths(bundle@, name@));
    }
    r
}

/// The routing rule of the fork: a source whose path ends in `.tiff` is
/// decoded as TIFF, any other as ICNS.
pub open spec fn spec_source_kind(path: Seq<char>) -> SourceKind {
    if path.len() >= 5 && path.subrange(path.len() - 5, path.len() as int) == ".tiff"@ {
        SourceKind::Tiff
    } else {
        SourceKind::Icns
    }
}

/// Detects the format of an icon source file by its path suffix.
pub fn source_kind_of(path: &str) -> (r: SourceKind)
    ensures
        r == spec_source_kind(path@),
{
    let n = path.unicode_len();
    if n < 5 {
        return SourceKind::Icns;
    }
    proof {
        reveal_strlit(".tiff");
    }
    let c0 = path.get_char(n - 5);
    let c1 = path.get_char(n - 4);
    let c2 = path.get_char(n - 3);
    let c3 = path.get_char(n - 2);
    let c4 = path.get_char(n - 1);
    let ghost sub = path@.subrange(n - 5, n as int);
    proof {
        assert(sub.len() == 5);
        assert(sub[0] == c0 && sub[1] == c1 && sub[2] == c2 && sub[3] == c3 && sub[4] == c4);
    }
    if c0 == '.' && c1 == 't' && c2 == 'i' && c3 == 'f' && c4 == 'f' {
        proof {
            assert(sub =~= ".tiff"@);
        }
        SourceKind::Tiff
    } else {
        SourceKind::Icns
    }
}

/// An ordered, short-circuiting scan over the candidate paths.
pub struct CandidateProbe {
    /// The candidate paths, in priority order.
    pub paths: Vec<String>,
    /// How many leading candidates were found absent so far.
    pub skipped: usize,
}

impl CandidateProbe {
    /// The candidate whose existence is to be checked next, if any is left.
    pub fn pending(&self) -> (r: Option<&String>)
        ensures
            r is Some <==> self.skipped < self.paths@.len(),
            r matches Some(p) ==> p@ == self.paths@[self.skipped as int]@,
    {
        if self.skipped < self.paths.len() {
            Some(&self.paths[self.skipped])
        } else {
            None
        }
    }
}

/// The terminal outcome of resolution.
pub enum Resolution {
    /// An icon source file was found: decode the file at `path` as `kind`.
    Source { path: String, kind: SourceKind },
    /// No icon can be produced for this bundle.
    Failed(ResolveError),
}

/// One step of the resolution machine: either a question the caller answers
/// from the filesystem, or the decided outcome.
pub enum ResolveStep {
    /// Ask whether the bundle path exists on disk; answer with
    /// [`step_bundle_checked`].
    CheckBundle { bundle: String },
    /// Read the bytes of the file at `descriptor` (`None` when it cannot be
    /// opened or read); answer with [`step_descriptor_read`].
    ReadDescriptor { bundle: String, descriptor: String },
    /// Ask whether the probe's pending candidate exists on disk; answer with
    /// [`step_candidate_checked`].
    CheckCandidate { probe: CandidateProbe },
    /// Resolution is decided.
    Done { resolution: Resolution },
}

/// Holds when a resolution falls back to the system default icon.
pub open spec fn spec_default_resolution(r: Resolution) -> bool {
    r matches Resolution::Source { path, kind } && path@ == spec_default_icon_path() && kind
        == SourceKind::Icns
}

/// Begins resolving a bundle: the first question is whether it exists.
pub fn resolve_start(bundle: String) -> (r: ResolveStep)
    ensures
        r matches ResolveStep::CheckBundle { bundle: b } && b@ == bundle@,
{
    ResolveStep::CheckBundle { bundle }
}

/// Exact statement of the first decision: a missing bundle is no error and
/// falls back to the default icon; an existing one has its descriptor read.
pub open spec fn spec_bundle_checked(bundle: Seq<char>, exists: bool, r: ResolveStep) -> bool {
    if exists {
        r matches ResolveStep::ReadDescriptor { bundle: b, descriptor } && b@ == bundle
            && descriptor@ == spec_descriptor_path(bundle)
    } else {
        r matches ResolveStep::Done { resolution } && spec_default_resolution(resolution)
    }
}

/// Takes the answer to [`ResolveStep::CheckBundle`].
pub fn step_bundle_checked(bundle: String, exists: bool) -> (r: ResolveStep)
    ensures
        spec_bundle_checked(bundle@, exists, r),
{
    if exists {
        let descriptor = descriptor_path(bundle.as_str());
        ResolveStep::ReadDescriptor { bundle, descriptor }
    } else {
        ResolveStep::Done {
            resolution: Resolution::Source { path: default_icon_path(), kind: SourceKind::Icns },
        }
    }
}

/// Exact statement of the descriptor decision, over what the parsed
/// descriptor holds: unparsable bytes are fatal; a non-dictionary top-level
/// value is a distinct terminal failure; a dictionary without a string under
/// the icon key falls back to the default icon; a declared name starts the
/// candidate scan at its first candidate.
pub open spec fn spec_descriptor_read(
    bundle: Seq<char>,
    doc: Option<Option<Map<Seq<char>, Option<Seq<char>>>>>,
    r: ResolveStep,
) -> bool {
    match doc {
        None => r == (ResolveStep::Done {
            resolution: Resolution::Failed(ResolveError::UnreadableDescriptor),
        }),
        Some(None) => r == (ResolveStep::Done {
            resolution: Resolution::Failed(ResolveError::MalformedDescriptor),
        }),
        Some(Some(m)) => if m.contains_key(spec_icon_key()) && m[spec_icon_key()] is Some {
            &&& r matches ResolveStep::CheckCandidate { probe }
            &&& probe.skipped == 0
            &&& m[spec_icon_key()] matches Some(name)
            &&& probe.paths@.map_values(|p: String| p@) == spec_candidate_paths(bundle, name)
        } else {
            r matches ResolveStep::Done { resolution } && spec_default_resolution(resolution)
        },
    }
}

/// Takes the answer to [`ResolveStep::ReadDescriptor`]: `None` when the
/// descriptor file could not be opened or read, which is fatal, the file's
/// bytes otherwise.
pub fn step_descriptor_read(bundle: &str, bytes: Option<&Vec<u8>>) -> (r: ResolveStep)
    ensures
        bytes is None ==> r == (ResolveStep::Done {
            resolution: Resolution::Failed(ResolveError::UnreadableDescriptor),
        }),
        bytes matches Some(b) ==> spec_descriptor_read(bundle@, spec_descriptor_of(b@), r),
{
    let data = match bytes {
        Some(b) => b,
        None => {
            return ResolveStep::Done {
                resolution: Resolution::Failed(ResolveError::UnreadableDescriptor),
            };
        },
    };
    match read_icon_declaration(data) {
        IconDeclaration::Unreadable => ResolveStep::Done {
            resolution: Resolution::Failed(ResolveError::UnreadableDescriptor),
        },
        IconDeclaration::NotADictionary => ResolveStep::Done {
            resolution: Resolution::Failed(ResolveError::MalformedDescriptor),
        },
        IconDeclaration::NoneDeclared => ResolveStep::Done {
            resolution: Resolution::Source { path: default_icon_path(), kind: SourceKind::Icns },
        },
        IconDeclaration::Declared(name) => {
            let paths = candidate_paths(bundle, name.as_str());
            ResolveStep::CheckCandidate { probe: CandidateProbe { paths, skipped: 0 } }
        },
    }
}

/// Exact statement of one probing step: an existing pending candidate is
/// selected and routed by its suffix; an absent one is skipped, and a scan
/// out of candidates fails with `NoIconFound`.
pub open spec fn spec_candidate_checked(probe: CandidateProbe, exists: bool, r: ResolveStep) -> bool {
    if probe.skipped < probe.paths@.len() {
        if exists {
            r matches ResolveStep::Done { resolution } && resolution matches Resolution::Source {
                path,
                kind,
            } && path@ == probe.paths@[probe.skipped as int]@ && kind == spec_source_kind(path@)
        } else if probe.skipped + 1 < probe.paths@.len() {
            r matches ResolveStep::CheckCandidate { probe: p } && p.paths@ == probe.paths@
                && p.skipped == probe.skipped + 1
        } else {
            r == (ResolveStep::Done { resolution: Resolution::Failed(ResolveError::NoIconFound) })
        }
    } else {
        r == (ResolveStep::Done { resolution: Resolution::Failed(ResolveError::NoIconFound) })
    }
}

/// Takes the answer to [`ResolveStep::CheckCandidate`]: whether the pending
/// candidate exists on disk.
pub fn step_candidate_checked(probe: CandidateProbe, exists: bool) -> (r: ResolveStep)
    ensures
        spec_candidate_checked(probe, exists, r),
{
    if probe.skipped < probe.paths.len() {
        if exists {
            let path = probe.paths[probe.skipped].clone();
            let kind = source_kind_of(path.as_str());
            ResolveStep::Done { resolution: Resolution::Source { path, kind } }
        } else if probe.skipped + 1 < probe.paths.len() {
            ResolveStep::CheckCandidate {
                probe: CandidateProbe { paths: probe.paths, skipped: probe.skipped + 1 },
            }
        } else {
            ResolveStep::Done { resolution: Resolution::Failed(ResolveError::NoIconFound) }
        }
    } else {
        ResolveStep::Done { resolution: Resolution::Failed(ResolveError::NoIconFound) }
    }
}

/// The index of the first existing candidate at or after `from`, if any.
pub open spec fn spec_first_existing(present: Seq<bool>, from: int) -> Option<int>
    decreases present.len() - from,
{
    if from < 0 || from >= present.len() {
        None
    } else if present[from] {
        Some(from)
    } else {
        spec_first_existing(present, from + 1)
    }
}

/// The scan selects exactly the first existing candidate, in the fixed
/// priority order, and fails only when none exists: for any run of the
/// machine — a trace that starts at the probe, takes each step with the
/// existence answer for the probed candidate, and ends in a decision — the
/// decision names the first existing candidate, routed by its suffix, or
/// `NoIconFound` when no candidate exists.
pub proof fn lemma_scan_selects_first_existing(
    probe: CandidateProbe,
    present: Seq<bool>,
    trace: Seq<ResolveStep>,
)
    requires
        present.len() == probe.paths@.len(),
        trace.len() > 0,
        trace[0] matches ResolveStep::CheckCandidate { probe: p0 } && p0 == probe,
        forall|j: int|
            0 <= j < trace.len() - 1 ==> ((#[trigger] trace[j])
                matches ResolveStep::CheckCandidate { probe: p } ==> 0 <= p.skipped < present.len()
                && spec_candidate_checked(p, present[p.skipped as int], trace[j + 1])),
        forall|j: int| 0 <= j < trace.len() - 1 ==> (#[trigger] trace[j]) is CheckCandidate,
        trace.last() matches ResolveStep::Done { .. },
    ensures
        (match spec_first_existing(present, probe.skipped as int) {
            Some(i) => trace.last() matches ResolveStep::Done { resolution } && resolution
                matches Resolution::Source { path, kind } && path@ == probe.paths@[i]@ && kind
                == spec_source_kind(path@),
            None => trace.last() == (ResolveStep::Done {
                resolution: Resolution::Failed(ResolveError::NoIconFound),
            }),
        }),
    decreases trace.len(),
{
    let s = probe.skipped as int;
    assert(trace.len() >= 2);
    assert(spec_candidate_checked(probe, present[s], trace[1]));
    if present[s] {
        assert(spec_first_existing(present, s) == Some(s));
        if trace.len() > 2 {
            assert(trace[1] is CheckCandidate);
            assert(false);
        }
        assert(trace.last() == trace[1]);
    } else if s + 1 < present.len() {
        assert(spec_first_existing(present, s) == spec_first_existing(present, s + 1));
        if trace.len() == 2 {
            assert(trace.last() == trace[1]);
            assert(false);
        }
        let sub = trace.drop_first();
        assert(sub[0] == trace[1]);
        let p1 = trace[1]->CheckCandidate_probe;
        assert(p1.skipped == s + 1 && p1.paths@ == probe.paths@);
        assert forall|j: int|
            0 <= j < sub.len() - 1 implies ((#[trigger] sub[j])
            matches ResolveStep::CheckCandidate { probe: p } ==> 0 <= p.skipped < present.len()
            && spec_candidate_checked(p, present[p.skipped as int], sub[j + 1])) by {
            assert(sub[j] == trace[j + 1]);
            assert(sub[j + 1] == trace[j + 2]);
        }
        assert forall|j: int| 0 <= j < sub.len() - 1 implies (#[trigger] sub[j])
            is CheckCandidate by {
            assert(sub[j] == trace[j + 1]);
        }
        assert(sub.last() == trace.last());
        lemma_scan_selects_first_existing(p1, present, sub);
    } else {
        assert(spec_first_existing(present, s + 1) is None);
        assert(spec_first_existing(present, s) is None);
        if trace.len() > 2 {
            assert(trace[1] is CheckCandidate);
            assert(false);
        }
        assert(trace.last() == trace[1]);
    }
}

} // verus!
