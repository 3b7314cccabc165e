//! The host-facing commands: scanning the plugins root and resolving a
//! plugin's entry script path.

use vstd::prelude::*;
use vstd::string::StringExecFns;

use crate::plugins::Candidate;
use crate::plugins::CandidateView;
use crate::plugins::DescriptorView;
use crate::plugins::PluginDescriptor;
use crate::plugins::PluginError;
use crate::plugins::candidate_wf;
use crate::plugins::parse_plugin;
use crate::plugins::parse_plugin_spec;

verus! {

/// What the host found at the plugins root path, before any scan.
#[derive(Clone, Copy, Debug, PartialEq, Eq, Structural)]
pub enum RootState {
    /// Nothing exists at the root path.
    Missing,
    /// The root path exists but is not a directory.
    NotDirectory,
    /// The root path is a directory.
    Directory,
}

/// What the host must do for a given root state.
#[derive(Clone, Copy, Debug, PartialEq, Eq, Structural)]
pub enum RootAction {
    /// First run: create the root as an empty directory and report no
    /// plugins.
    CreateAndReturnEmpty,
    /// The environment is corrupted; stop and surface the fault instead of
    /// guessing.
    ReportCorruption,
    /// Enumerate the root's immediate subdirectories as candidates.
    Enumerate,
}

/// The scanner's bootstrap decision: a missing root is created and yields an
/// empty result, a root that exists as a non-directory is a fatal
/// configuration fault, and only a directory is enumerated.
pub fn plan_scan(root: RootState) -> (r: RootAction)
    ensures
        root is Missing <==> r is CreateAndReturnEmpty,
        root is NotDirectory <==> r is ReportCorruption,
        root is Directory <==> r is Enumerate,
{
    match root {
        RootState::Missing => RootAction::CreateAndReturnEmpty,
        RootState::NotDirectory => RootAction::ReportCorruption,
        RootState::Directory => RootAction::Enumerate,
    }
}

/// Ghost image of a candidate list.
pub open spec fn candidates_view(cs: Seq<Candidate>) -> Seq<CandidateView> {
    cs.map_values(|c: Candidate| c@)
}

/// Ghost image of a descriptor list.
pub open spec fn descriptors_view(ds: Seq<PluginDescriptor>) -> Seq<DescriptorView> {
    ds.map_values(|d: PluginDescriptor| d@)
}

/// What a scan returns on a given candidate list: the descriptors of the
/// candidates that validate, in candidate order; failing candidates leave no
/// trace.
pub open spec fn scan_spec(cs: Seq<CandidateView>) -> Seq<DescriptorView>
    decreases cs.len(),
{
    if cs.len() == 0 {
        Seq::empty()
    } else {
        match parse_plugin_spec(cs.last()) {
            Ok(d) => scan_spec(cs.drop_last()).push(d),
            Err(_) => scan_spec(cs.drop_last()),
        }
    }
}

/// Validates every candidate and collects the descriptors of those that
/// pass, preserving candidate order. A failing candidate is dropped
/// silently; it never aborts the scan of its siblings.
pub fn scan_plugins(candidates: &Vec<Candidate>) -> (r: Vec<PluginDescriptor>)
    requires
        forall|i: int| 0 <= i < candidates@.len() ==> candidate_wf(#[trigger] candidates@[i]@),
    ensures
        descriptors_view(r@) == scan_spec(candidates_view(candidates@)),
{
    let ghost cv = candidates_view(candidates@);
    let mut found: Vec<PluginDescriptor> = Vec::new();
    let mut i: usize = 0;
    while i < candidates.len()
        invariant
            0 <= i <= candidates.len(),
            cv == candidates_view(candidates@),
            cv.len() == candidates@.len(),
            forall|j: int| 0 <= j < candidates@.len() ==> candidate_wf(#[trigger] candidates@[j]@),
            descriptors_view(found@) == scan_spec(cv.take(i as int)),
        decreases candidates.len() - i,
    {
        let ghost found_before = found@;
        match parse_plugin(&candidates[i]) {
            Ok(descriptor) => {
                found.push(descriptor);
            },
            Err(_) => {},
        }
        proof {
            assert(cv.take(i as int + 1).drop_last() =~= cv.take(i as int));
            assert(cv.take(i as int + 1).last() == cv[i as int]);
            if found@ != found_before {
                assert(descriptors_view(found@) =~= descriptors_view(found_before).push(
                    found@.last()@,
                ));
            }
        }
        i = i + 1;
    }
    proof {
        assert(cv.take(candidates@.len() as int) =~= cv);
    }
    found
}

/// How many candidates of `cs` validate as plugins.
pub open spec fn valid_count(cs: Seq<CandidateView>) -> nat
    decreases cs.len(),
{
    if cs.len() == 0 {
        0
    } else if parse_plugin_spec(cs.last()) is Ok {
        valid_count(cs.drop_last()) + 1
    } else {
        valid_count(cs.drop_last())
    }
}

/// Failure isolation: however many candidates fail, and for whatever reason,
/// a scan returns one descriptor per valid candidate — exactly as many as
/// validate — and every returned descriptor is the parse result of one of
/// the candidates. Invalid siblings never lower the count below that.
pub proof fn lemma_scan_isolation(cs: Seq<CandidateView>)
    ensures
        scan_spec(cs).len() == valid_count(cs),
        forall|j: int|
            0 <= j < scan_spec(cs).len() ==> exists|i: int|
                0 <= i < cs.len() && #[trigger] parse_plugin_spec(cs[i]) == Ok::<
                    DescriptorView,
                    PluginError,
                >(#[trigger] scan_spec(cs)[j]),
    decreases cs.len(),
{
    if cs.len() > 0 {
        let rest = cs.drop_last();
        lemma_scan_isolation(rest);
        assert forall|j: int| 0 <= j < scan_spec(cs).len() implies exists|i: int|
            0 <= i < cs.len() && #[trigger] parse_plugin_spec(cs[i]) == Ok::<
                DescriptorView,
                PluginError,
            >(#[trigger] scan_spec(cs)[j]) by {
            if j < scan_spec(rest).len() {
                assert(scan_spec(cs)[j] == scan_spec(rest)[j]);
                let i = choose|i: int|
                    0 <= i < rest.len() && #[trigger] parse_plugin_spec(rest[i]) == Ok::<
                        DescriptorView,
                        PluginError,
                    >(scan_spec(rest)[j]);
                assert(cs[i] == rest[i]);
                assert(parse_plugin_spec(cs[i]) == Ok::<DescriptorView, PluginError>(
                    scan_spec(cs)[j],
                ));
            } else {
                assert(parse_plugin_spec(cs[cs.len() - 1]) == Ok::<DescriptorView, PluginError>(
                    scan_spec(cs)[j],
                ));
            }
        }
    }
}

/// Scanning is deterministic in the observed tree: two scans over equal
/// snapshots return equal descriptor lists. The order of two real scans can
/// differ only where the filesystem hands the candidates over in a different
/// order, in which case the snapshots themselves differ.
pub proof fn lemma_scan_idempotent(first: Seq<CandidateView>, second: Seq<CandidateView>)
    requires
        first == second,
    ensures
        scan_spec(first) == scan_spec(second),
{
}

/// Bootstrap: a scan over no candidates returns no descriptors. Together
/// with [`plan_scan`] on a missing root this pins the first-run behaviour:
/// the host creates the empty root and reports no plugins, and a second scan
/// of the still-empty root reports none either.
pub proof fn lemma_scan_of_empty()
    ensures
        scan_spec(Seq::<CandidateView>::empty()) == Seq::<DescriptorView>::empty(),
{
}

/// Full path of a plugin's entry script: `<plugin_path>/plugin.js`. A pure
/// join; the path is not checked against the filesystem — callers are
/// expected to have validated the plugin beforehand.
pub fn get_plugin_js(plugin_path: String) -> (r: String)
    ensures
        r@ == plugin_path@ + "/plugin.js"@,
{
    plugin_path.concat("/plugin.js")
}

} // verus!

