//! Base-path resolution: an ordered list of candidate directories is derived
//! from the application's packaging-provided resource directory and the
//! directory of the running executable; the first candidate in which a probe
//! found the service marker becomes the base path, and when none holds the
//! marker a deterministic fallback is used.  Every probed candidate yields a
//! diagnostic record.
//!
//! Paths are `/`-separated strings.  The read-only filesystem probes
//! themselves are carried out by the caller, which hands their outcomes in as
//! plain booleans.

use vstd::prelude::*;
use vstd::string::StringExecFns;
use crate::diag::{count_level, lemma_count_level_uniform, LogLevel, LogRecord, RecordModel};
use crate::text::{join, spec_join};

verus! {

/// Identifying information about the running application from which the
/// candidate directories are derived.
pub struct ResolveRequest {
    /// Packaging-provided resource directory, when the host reports one.
    pub resource_dir: Option<String>,
    /// Directory containing the running executable, when determinable.
    pub exe_dir: Option<String>,
    /// The process's current working directory, the last-resort fallback.
    pub cwd: String,
}

/// Outcome of probing one candidate directory: the path probed and whether
/// the service marker (the server entry script, or at least the `server`
/// directory) was found under it.
pub struct Probe {
    pub path: String,
    pub marker_found: bool,
}

/// The resolved base path together with the diagnostic records the
/// resolution emitted.
pub struct Resolution {
    pub base_path: String,
    pub records: Vec<LogRecord>,
}

/// The server entry script under a base directory.
pub open spec fn spec_server_script(base: Seq<char>) -> Seq<char> {
    spec_join(spec_join(base, "server"@), "index.js"@)
}

/// The auxiliary service script under a base directory.
pub open spec fn spec_aux_script(base: Seq<char>) -> Seq<char> {
    spec_join(spec_join(base, "scripts"@), "enhanced_sanskrit_api.py"@)
}

/// Path of the server entry script, the marker file confirming a candidate.
pub fn server_script_path(base: &str) -> (r: String)
    ensures
        r@ == spec_server_script(base@),
{
    let d = join(base, "server");
    join(d.as_str(), "index.js")
}

/// Path of the auxiliary service script under a base directory.
pub fn aux_script_path(base: &str) -> (r: String)
    ensures
        r@ == spec_aux_script(base@),
{
    let d = join(base, "scripts");
    join(d.as_str(), "enhanced_sanskrit_api.py")
}

/// Path of the `server` directory under a base directory; its bare presence
/// also counts as the marker.
pub fn server_dir_path(base: &str) -> (r: String)
    ensures
        r@ == spec_join(base@, "server"@),
{
    join(base, "server")
}

/// Path of the `scripts` directory under a base directory.
pub fn scripts_dir_path(base: &str) -> (r: String)
    ensures
        r@ == spec_join(base@, "scripts"@),
{
    join(base, "scripts")
}

/// The candidate directories for a request, highest priority first: the
/// packaging-provided resource directory, its nested `resources` layer, the
/// executable's directory, and its nested `resources` layer.
pub open spec fn spec_candidates(req: ResolveRequest) -> Seq<Seq<char>> {
    (match req.resource_dir {
        Some(d) => seq![d@, spec_join(d@, "resources"@)],
        None => seq![],
    }) + (match req.exe_dir {
        Some(e) => seq![e@, spec_join(e@, "resources"@)],
        None => seq![],
    })
}

/// The fallback used when no candidate holds the marker: the executable's
/// directory when it is known, else the current working directory.
pub open spec fn spec_fallback(req: ResolveRequest) -> Seq<char> {
    match req.exe_dir {
        Some(e) => e@,
        None => req.cwd@,
    }
}

/// The candidate directories for `req`, in the priority order of
/// `spec_candidates`.
pub fn candidate_paths(req: &ResolveRequest) -> (c: Vec<String>)
    ensures
        c@.len() == spec_candidates(*req).len(),
        forall|i: int| 0 <= i < c@.len() ==> c@[i]@ == spec_candidates(*req)[i],
{
    let mut c: Vec<String> = Vec::new();
    if let Some(d) = &req.resource_dir {
        c.push(d.clone());
        c.push(join(d.as_str(), "resources"));
    }
    if let Some(e) = &req.exe_dir {
        c.push(e.clone());
        c.push(join(e.as_str(), "resources"));
    }
    c
}

/// The path the resolver picks when scanning `probes` from index `i` on:
/// the first probe that found the marker, else `fallback`.
pub open spec fn spec_chosen_from(probes: Seq<Probe>, i: int, fallback: Seq<char>) -> Seq<char>
    decreases probes.len() - i,
{
    if i < 0 || i >= probes.len() {
        fallback
    } else if probes[i].marker_found {
        probes[i].path@
    } else {
        spec_chosen_from(probes, i + 1, fallback)
    }
}

/// The path the resolver picks: the highest-priority probe that found the
/// marker, else `fallback`.
pub open spec fn spec_chosen(probes: Seq<Probe>, fallback: Seq<char>) -> Seq<char> {
    spec_chosen_from(probes, 0, fallback)
}

/// Whether any probe found the marker.
pub open spec fn spec_has_marker(probes: Seq<Probe>) -> bool {
    exists|i: int| 0 <= i < probes.len() && probes[i].marker_found
}

/// The diagnostic record for one probed candidate.
pub open spec fn probe_record_model(path: Seq<char>, found: bool) -> RecordModel {
    RecordModel { level: LogLevel::Info, message: probe_message(path, found) }
}

/// The message of the diagnostic record for one probed candidate.
pub open spec fn probe_message(path: Seq<char>, found: bool) -> Seq<char> {
    if found {
        "probed "@ + path + ": marker found"@
    } else {
        "probed "@ + path + ": marker missing"@
    }
}

/// The message of the record emitted when no candidate held the marker.
pub open spec fn fallback_message(path: Seq<char>) -> Seq<char> {
    "no candidate holds the marker, falling back to "@ + path
}

/// The records emitted while scanning `probes` from index `i` on: one per
/// probed candidate, stopping at the first that found the marker.
pub open spec fn spec_probe_records_from(probes: Seq<Probe>, i: int) -> Seq<RecordModel>
    decreases probes.len() - i,
{
    if i < 0 || i >= probes.len() {
        seq![]
    } else if probes[i].marker_found {
        seq![probe_record_model(probes[i].path@, true)]
    } else {
        seq![probe_record_model(probes[i].path@, false)] + spec_probe_records_from(probes, i + 1)
    }
}

/// All records a resolution emits: one per probed candidate and, when no
/// candidate held the marker, a final record naming the fallback.
pub open spec fn spec_resolve_records(probes: Seq<Probe>, fallback: Seq<char>) -> Seq<RecordModel> {
    if spec_has_marker(probes) {
        spec_probe_records_from(probes, 0)
    } else {
        spec_probe_records_from(probes, 0) + seq![
            RecordModel { level: LogLevel::Info, message: fallback_message(fallback) },
        ]
    }
}

fn probe_record(path: &str, found: bool) -> (r: LogRecord)
    ensures
        r@ == probe_record_model(path@, found),
{
    let message = if found {
        "probed ".to_owned().concat(path).concat(": marker found")
    } else {
        "probed ".to_owned().concat(path).concat(": marker missing")
    };
    LogRecord { level: LogLevel::Info, message }
}

fn fallback_record(path: &str) -> (r: LogRecord)
    ensures
        r@ == (RecordModel { level: LogLevel::Info, message: fallback_message(path@) }),
{
    let message = "no candidate holds the marker, falling back to ".to_owned().concat(path);
    LogRecord { level: LogLevel::Info, message }
}

/// The resolver prefers the highest-priority candidate that holds the
/// marker: when probe `i` found it and no earlier probe did, candidate `i`'s
/// path is the one chosen, whatever the later probes hold.
pub proof fn lemma_resolution_prefers_first_marker(
    probes: Seq<Probe>,
    fallback: Seq<char>,
    i: int,
)
    requires
        0 <= i < probes.len(),
        probes[i].marker_found,
        forall|j: int| 0 <= j < i ==> !probes[j].marker_found,
    ensures
        spec_chosen(probes, fallback) == probes[i].path@,
{
    lemma_chosen_from_first_marker(probes, fallback, 0, i);
}

proof fn lemma_chosen_from_first_marker(probes: Seq<Probe>, fallback: Seq<char>, k: int, i: int)
    requires
        0 <= k <= i < probes.len(),
        probes[i].marker_found,
        forall|j: int| k <= j < i ==> !probes[j].marker_found,
    ensures
        spec_chosen_from(probes, k, fallback) == probes[i].path@,
    decreases i - k,
{
    if k < i {
        lemma_chosen_from_first_marker(probes, fallback, k + 1, i);
    }
}

/// When no probe found the marker, the resolver deterministically returns
/// the fallback path.
pub proof fn lemma_resolution_fallback(probes: Seq<Probe>, fallback: Seq<char>)
    requires
        forall|i: int| 0 <= i < probes.len() ==> !probes[i].marker_found,
    ensures
        spec_chosen(probes, fallback) == fallback,
{
    lemma_chosen_from_no_marker(probes, fallback, 0);
}

proof fn lemma_chosen_from_no_marker(probes: Seq<Probe>, fallback: Seq<char>, k: int)
    requires
        0 <= k <= probes.len(),
        forall|i: int| k <= i < probes.len() ==> !probes[i].marker_found,
    ensures
        spec_chosen_from(probes, k, fallback) == fallback,
    decreases probes.len() - k,
{
    if k < probes.len() {
        lemma_chosen_from_no_marker(probes, fallback, k + 1);
    }
}

proof fn lemma_probe_records_found(probes: Seq<Probe>, k: int, i: int)
    requires
        0 <= k <= i < probes.len(),
        probes[i].marker_found,
        forall|j: int| k <= j < i ==> !probes[j].marker_found,
    ensures
        spec_probe_records_from(probes, k).len() == i + 1 - k,
        forall|j: int|
            k <= j <= i ==> spec_probe_records_from(probes, k)[j - k] == probe_record_model(
                probes[j].path@,
                probes[j].marker_found,
            ),
    decreases i - k,
{
    if k < i {
        lemma_probe_records_found(probes, k + 1, i);
        assert forall|j: int| k <= j <= i implies spec_probe_records_from(probes, k)[j - k]
            == probe_record_model(probes[j].path@, probes[j].marker_found) by {
            if j > k {
                assert(spec_probe_records_from(probes, k)[j - k] == spec_probe_records_from(
                    probes,
                    k + 1,
                )[j - (k + 1)]);
            }
        }
    }
}

proof fn lemma_probe_records_none(probes: Seq<Probe>, k: int)
    requires
        0 <= k <= probes.len(),
        forall|i: int| k <= i < probes.len() ==> !probes[i].marker_found,
    ensures
        spec_probe_records_from(probes, k).len() == probes.len() - k,
        forall|j: int|
            k <= j < probes.len() ==> spec_probe_records_from(probes, k)[j - k]
                == probe_record_model(probes[j].path@, probes[j].marker_found),
    decreases probes.len() - k,
{
    if k < probes.len() {
        lemma_probe_records_none(probes, k + 1);
        assert forall|j: int| k <= j < probes.len() implies spec_probe_records_from(probes, k)[j
            - k] == probe_record_model(probes[j].path@, probes[j].marker_found) by {
            if j > k {
                assert(spec_probe_records_from(probes, k)[j - k] == spec_probe_records_from(
                    probes,
                    k + 1,
                )[j - (k + 1)]);
            }
        }
    }
}

proof fn lemma_probe_records_info(probes: Seq<Probe>, k: int)
    ensures
        forall|j: int|
            0 <= j < spec_probe_records_from(probes, k).len() ==> spec_probe_records_from(
                probes,
                k,
            )[j].level == LogLevel::Info,
    decreases probes.len() - k,
{
    if 0 <= k < probes.len() && !probes[k].marker_found {
        lemma_probe_records_info(probes, k + 1);
        assert forall|j: int|
            0 <= j < spec_probe_records_from(probes, k).len() implies spec_probe_records_from(
            probes,
            k,
        )[j].level == LogLevel::Info by {
            if j > 0 {
                assert(spec_probe_records_from(probes, k)[j] == spec_probe_records_from(
                    probes,
                    k + 1,
                )[j - 1]);
            }
        }
    }
}

/// A resolution's diagnostics are purely informational: whatever the
/// probes' outcomes and whatever the fallback, it emits no error- and no
/// warning-level records.
pub proof fn lemma_resolution_record_levels(probes: Seq<Probe>, fallback: Seq<char>)
    ensures
        count_level(spec_resolve_records(probes, fallback), LogLevel::Error) == 0,
        count_level(spec_resolve_records(probes, fallback), LogLevel::Warn) == 0,
{
    lemma_probe_records_info(probes, 0);
    let records = spec_resolve_records(probes, fallback);
    assert forall|j: int| 0 <= j < records.len() implies records[j].level == LogLevel::Info by {
        if !spec_has_marker(probes) && j == spec_probe_records_from(probes, 0).len() {
            assert(records[j].level == LogLevel::Info);
        }
    }
    lemma_count_level_uniform(records, LogLevel::Info, LogLevel::Error);
    lemma_count_level_uniform(records, LogLevel::Info, LogLevel::Warn);
}

/// Resolves the base path for `req` from the outcomes of probing its
/// candidate directories, `probes`, given in the priority order of
/// `spec_candidates`.  Never fails: when no probe found the marker the
/// fallback of `spec_fallback` is returned.  The records report every probed
/// candidate and, on fallback, the fallback path.
pub fn resolve_base_path(req: &ResolveRequest, probes: &Vec<Probe>) -> (r: Resolution)
    requires
        probes@.len() == spec_candidates(*req).len(),
        forall|i: int| 0 <= i < probes@.len() ==> probes@[i].path@ == spec_candidates(*req)[i],
    ensures
        r.base_path@ == spec_chosen(probes@, spec_fallback(*req)),
        r.records@.len() == spec_resolve_records(probes@, spec_fallback(*req)).len(),
        forall|i: int|
            0 <= i < r.records@.len() ==> r.records@[i]@ == spec_resolve_records(
                probes@,
                spec_fallback(*req),
            )[i],
{
    let mut records: Vec<LogRecord> = Vec::new();
    let mut i: usize = 0;
    while i < probes.len()
        invariant
            i <= probes@.len(),
            forall|j: int| 0 <= j < i ==> !probes@[j].marker_found,
            records@.len() == i,
            forall|j: int|
                0 <= j < i ==> records@[j]@ == probe_record_model(
                    probes@[j].path@,
                    probes@[j].marker_found,
                ),
        decreases probes@.len() - i,
    {
        let found = probes[i].marker_found;
        records.push(probe_record(probes[i].path.as_str(), found));
        if found {
            let base_path = probes[i].path.clone();
            proof {
                lemma_resolution_prefers_first_marker(probes@, spec_fallback(*req), i as int);
                lemma_probe_records_found(probes@, 0, i as int);
                assert(spec_has_marker(probes@));
            }
            return Resolution { base_path, records };
        }
        i = i + 1;
    }
    let base_path = match &req.exe_dir {
        Some(e) => e.clone(),
        None => req.cwd.clone(),
    };
    records.push(fallback_record(base_path.as_str()));
    proof {
        lemma_resolution_fallback(probes@, spec_fallback(*req));
        lemma_probe_records_none(probes@, 0);
        assert(!spec_has_marker(probes@));
    }
    Resolution { base_path, records }
}

} // verus!
