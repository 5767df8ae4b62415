//! The service supervisor's decision logic.  `start_backend_services` turns
//! the resolved base path and the outcomes of a few filesystem checks into a
//! plan: the exact diagnostic records to emit and the child processes to
//! spawn, with their working directories.  The caller carries the plan out
//! and hands each spawn's outcome back to `spawn_report` for its diagnostic
//! record.  `stop_backend_services` and `get_service_status` are the fixed
//! responses of the stateless supervisor.

use vstd::prelude::*;
use vstd::string::StringExecFns;
use crate::diag::{count_level, lemma_count_level_add, lemma_count_level_uniform, LogLevel,
    LogRecord, RecordModel};
use crate::resolver::{aux_script_path, scripts_dir_path, server_dir_path, server_script_path,
    spec_aux_script, spec_server_script};
use crate::text::{decimal_string, spec_decimal, spec_join};

verus! {

/// How many entries of the server directory's listing are reported at most.
pub const LISTING_CAP: usize = 10;

/// The network port on which the primary (server) service is expected to
/// listen; referenced in diagnostics only, never bound.
pub const SERVER_PORT: u16 = 3006;

/// The network port on which the auxiliary service is expected to listen;
/// referenced in diagnostics only, never bound.
pub const AUX_PORT: u16 = 3008;

/// A planned child process: the runtime to invoke, the script it runs, the
/// working directory to run it in, and the port its service is expected to
/// listen on (for diagnostics only).
pub struct SpawnCommand {
    pub program: String,
    pub script: String,
    pub cwd: String,
    pub port: u16,
}

/// Mathematical model of a planned child process.
pub struct SpawnModel {
    pub program: Seq<char>,
    pub script: Seq<char>,
    pub cwd: Seq<char>,
    pub port: u16,
}

impl View for SpawnCommand {
    type V = SpawnModel;

    open spec fn view(&self) -> SpawnModel {
        SpawnModel { program: self.program@, script: self.script@, cwd: self.cwd@, port: self.port }
    }
}

/// What became of one attempted spawn, reported back by the caller: the
/// process identifier on success, the error's text on failure.
pub enum SpawnOutcome {
    Started(u32),
    Failed(String),
}

/// Everything a `start` invocation decides: the diagnostic records to emit,
/// the processes to spawn, and the message returned to the caller.
pub struct StartPlan {
    pub records: Vec<LogRecord>,
    pub spawns: Vec<SpawnCommand>,
    pub message: String,
}

/// An info-severity record with the given message.
pub open spec fn info_model(message: Seq<char>) -> RecordModel {
    RecordModel { level: LogLevel::Info, message }
}

pub open spec fn base_path_message(base: Seq<char>) -> Seq<char> {
    "base path: "@ + base
}

pub open spec fn server_script_message(path: Seq<char>) -> Seq<char> {
    "server script: "@ + path
}

pub open spec fn aux_script_message(path: Seq<char>) -> Seq<char> {
    "auxiliary script: "@ + path
}

pub open spec fn base_listing_header() -> Seq<char> {
    "base path directory contents:"@
}

pub open spec fn server_listing_header() -> Seq<char> {
    "server directory contents:"@
}

pub open spec fn entry_message(entry: Seq<char>) -> Seq<char> {
    "  - "@ + entry
}

pub open spec fn server_missing_message(path: Seq<char>) -> Seq<char> {
    "server script missing: "@ + path
}

pub open spec fn aux_missing_message(path: Seq<char>) -> Seq<char> {
    "auxiliary script missing, auxiliary API unavailable: "@ + path
}

pub open spec fn start_success_message() -> Seq<char> {
    "services started"@
}

pub open spec fn stop_success_message() -> Seq<char> {
    "services stopped"@
}

pub open spec fn status_running_message() -> Seq<char> {
    "running"@
}

pub open spec fn context_missing_message() -> Seq<char> {
    "unable to determine the application's resource context"@
}

pub open spec fn spawn_ok_message(program: Seq<char>, port: u16, pid: u32) -> Seq<char> {
    program + " service started (port "@ + spec_decimal(port as nat) + ", pid "@ + spec_decimal(
        pid as nat,
    ) + ")"@
}

pub open spec fn spawn_failed_message(program: Seq<char>, err: Seq<char>) -> Seq<char> {
    program + " service failed to start: "@ + err
}

/// The views of an optional directory listing's entries.
pub open spec fn listing_view(listing: Option<Vec<String>>) -> Option<Seq<Seq<char>>> {
    match listing {
        Some(entries) => Some(entries@.map_values(|e: String| e@)),
        None => None,
    }
}

/// One info record per listing entry.
pub open spec fn listing_models(entries: Seq<Seq<char>>) -> Seq<RecordModel> {
    entries.map_values(|e: Seq<char>| info_model(entry_message(e)))
}

/// The records for an optional directory listing: nothing when the directory
/// was absent, else a header record followed by one record per entry.
pub open spec fn optional_listing_models(
    header: Seq<char>,
    listing: Option<Seq<Seq<char>>>,
) -> Seq<RecordModel> {
    match listing {
        Some(entries) => seq![info_model(header)] + listing_models(entries),
        None => seq![],
    }
}

/// An optional listing capped at the first `LISTING_CAP` entries.
pub open spec fn spec_capped(listing: Option<Seq<Seq<char>>>) -> Option<Seq<Seq<char>>> {
    match listing {
        Some(entries) => Some(
            if entries.len() <= LISTING_CAP {
                entries
            } else {
                entries.take(LISTING_CAP as int)
            },
        ),
        None => None,
    }
}

/// The error and warning records closing a start plan: an error when the
/// server script is missing, a warning when the auxiliary script is.
pub open spec fn missing_script_models(base: Seq<char>, server_exists: bool, aux_exists: bool) -> Seq<
    RecordModel,
> {
    (if server_exists {
        seq![]
    } else {
        seq![
            RecordModel {
                level: LogLevel::Error,
                message: server_missing_message(spec_server_script(base)),
            },
        ]
    }) + (if aux_exists {
        seq![]
    } else {
        seq![
            RecordModel {
                level: LogLevel::Warn,
                message: aux_missing_message(spec_aux_script(base)),
            },
        ]
    })
}

/// The three records opening every start plan: the base path and the two
/// composed script paths.
pub open spec fn head_models(base: Seq<char>) -> Seq<RecordModel> {
    seq![
        info_model(base_path_message(base)),
        info_model(server_script_message(spec_server_script(base))),
        info_model(aux_script_message(spec_aux_script(base))),
    ]
}

/// Every diagnostic record a start plan emits, in order: the paths in play,
/// the directory listings (the server's capped at `LISTING_CAP` entries),
/// then an error for a missing server script and a warning for a missing
/// auxiliary script.
pub open spec fn spec_start_records(
    base: Seq<char>,
    base_listing: Option<Seq<Seq<char>>>,
    server_listing: Option<Seq<Seq<char>>>,
    server_exists: bool,
    aux_exists: bool,
) -> Seq<RecordModel> {
    head_models(base) + optional_listing_models(base_listing_header(), base_listing)
        + optional_listing_models(server_listing_header(), spec_capped(server_listing))
        + missing_script_models(base, server_exists, aux_exists)
}

/// The processes a start plan spawns: the server script under a `node`
/// runtime in `base/server` when present, then the auxiliary script under a
/// `python` runtime in `base/scripts` when present.
pub open spec fn spec_spawns(base: Seq<char>, server_exists: bool, aux_exists: bool) -> Seq<
    SpawnModel,
> {
    (if server_exists {
        seq![
            SpawnModel {
                program: "node"@,
                script: spec_server_script(base),
                cwd: spec_join(base, "server"@),
                port: SERVER_PORT,
            },
        ]
    } else {
        seq![]
    }) + (if aux_exists {
        seq![
            SpawnModel {
                program: "python"@,
                script: spec_aux_script(base),
                cwd: spec_join(base, "scripts"@),
                port: AUX_PORT,
            },
        ]
    } else {
        seq![]
    })
}

fn listing_records(header: &str, listing: &Option<Vec<String>>, cap: bool) -> (v: Vec<LogRecord>)
    ensures
        v@.len() == optional_listing_models(
            header@,
            if cap {
                spec_capped(listing_view(*listing))
            } else {
                listing_view(*listing)
            },
        ).len(),
        forall|i: int|
            0 <= i < v@.len() ==> v@[i]@ == optional_listing_models(
                header@,
                if cap {
                    spec_capped(listing_view(*listing))
                } else {
                    listing_view(*listing)
                },
            )[i],
{
    let mut v: Vec<LogRecord> = Vec::new();
    match listing {
        None => v,
        Some(entries) => {
            v.push(LogRecord { level: LogLevel::Info, message: header.to_owned() });
            let mut n = entries.len();
            if cap && n > LISTING_CAP {
                n = LISTING_CAP;
            }
            let mut i: usize = 0;
            while i < n
                invariant
                    n <= entries@.len(),
                    i <= n,
                    v@.len() == 1 + i,
                    v@[0]@ == info_model(header@),
                    forall|j: int|
                        0 <= j < i ==> v@[j + 1]@ == info_model(entry_message(entries@[j]@)),
                decreases n - i,
            {
                let message = "  - ".to_owned().concat(entries[i].as_str());
                v.push(LogRecord { level: LogLevel::Info, message });
                i = i + 1;
            }
            v
        }
    }
}

/// Decides everything a `start` invocation does once the base path is
/// resolved: which diagnostics to emit, which processes to spawn, and the
/// success message.  `server_script_exists` and `aux_script_exists` report
/// whether the two composed script paths exist on disk; the listings are the
/// contents of the base directory and of its `server` subdirectory, `None`
/// where the directory is absent or unreadable.  A missing script never
/// fails the operation: the plan's message is always the success message.
pub fn start_backend_services(
    base_path: &str,
    base_listing: &Option<Vec<String>>,
    server_listing: &Option<Vec<String>>,
    server_script_exists: bool,
    aux_script_exists: bool,
) -> (p: StartPlan)
    ensures
        p.records@.len() == spec_start_records(
            base_path@,
            listing_view(*base_listing),
            listing_view(*server_listing),
            server_script_exists,
            aux_script_exists,
        ).len(),
        forall|i: int|
            0 <= i < p.records@.len() ==> p.records@[i]@ == spec_start_records(
                base_path@,
                listing_view(*base_listing),
                listing_view(*server_listing),
                server_script_exists,
                aux_script_exists,
            )[i],
        p.spawns@.len() == spec_spawns(base_path@, server_script_exists, aux_script_exists).len(),
        forall|i: int|
            0 <= i < p.spawns@.len() ==> p.spawns@[i]@ == spec_spawns(
                base_path@,
                server_script_exists,
                aux_script_exists,
            )[i],
        p.message@ == start_success_message(),
{
    let ghost base = base_path@;
    let server_script = server_script_path(base_path);
    let aux_script = aux_script_path(base_path);

    let mut records: Vec<LogRecord> = Vec::new();
    records.push(
        LogRecord { level: LogLevel::Info, message: "base path: ".to_owned().concat(base_path) },
    );
    records.push(
        LogRecord {
            level: LogLevel::Info,
            message: "server script: ".to_owned().concat(server_script.as_str()),
        },
    );
    records.push(
        LogRecord {
            level: LogLevel::Info,
            message: "auxiliary script: ".to_owned().concat(aux_script.as_str()),
        },
    );
    let ghost r_head = records@;
    proof {
        assert(r_head.len() == 3);
        assert(forall|i: int| 0 <= i < 3 ==> r_head[i]@ == head_models(base)[i]);
    }

    let mut bl = listing_records("base path directory contents:", base_listing, false);
    let ghost blv = bl@;
    records.append(&mut bl);
    let mut sl = listing_records("server directory contents:", server_listing, true);
    let ghost slv = sl@;
    records.append(&mut sl);
    let ghost r_mid = records@;
    let ghost blm = optional_listing_models(base_listing_header(), listing_view(*base_listing));
    let ghost slm = optional_listing_models(
        server_listing_header(),
        spec_capped(listing_view(*server_listing)),
    );
    proof {
        assert(r_mid =~= r_head + blv + slv);
        assert(r_mid.len() == 3 + blm.len() + slm.len());
        assert(forall|i: int|
            0 <= i < r_mid.len() ==> r_mid[i]@ == (head_models(base) + blm + slm)[i]);
    }

    let mut spawns: Vec<SpawnCommand> = Vec::new();
    if server_script_exists {
        spawns.push(
            SpawnCommand {
                program: "node".to_owned(),
                script: server_script.clone(),
                cwd: server_dir_path(base_path),
                port: SERVER_PORT,
            },
        );
    } else {
        records.push(
            LogRecord {
                level: LogLevel::Error,
                message: "server script missing: ".to_owned().concat(server_script.as_str()),
            },
        );
    }
    if aux_script_exists {
        spawns.push(
            SpawnCommand {
                program: "python".to_owned(),
                script: aux_script.clone(),
                cwd: scripts_dir_path(base_path),
                port: AUX_PORT,
            },
        );
    } else {
        records.push(
            LogRecord {
                level: LogLevel::Warn,
                message: "auxiliary script missing, auxiliary API unavailable: ".to_owned().concat(
                    aux_script.as_str(),
                ),
            },
        );
    }
    let message = "services started".to_owned();
    proof {
        let target = spec_start_records(
            base,
            listing_view(*base_listing),
            listing_view(*server_listing),
            server_script_exists,
            aux_script_exists,
        );
        let tail = missing_script_models(base, server_script_exists, aux_script_exists);
        assert(records@.len() == r_mid.len() + tail.len());
        assert(forall|i: int| 0 <= i < records@.len() ==> records@[i]@ == target[i]);
        let starget = spec_spawns(base, server_script_exists, aux_script_exists);
        assert(spawns@.len() == starget.len());
        assert(forall|i: int| 0 <= i < spawns@.len() ==> spawns@[i]@ == starget[i]);
    }
    StartPlan { records, spawns, message }
}

proof fn lemma_listing_models_info(header: Seq<char>, listing: Option<Seq<Seq<char>>>)
    ensures
        forall|i: int|
            0 <= i < optional_listing_models(header, listing).len() ==> optional_listing_models(
                header,
                listing,
            )[i].level == LogLevel::Info,
{
    match listing {
        None => {},
        Some(entries) => {
            assert forall|i: int|
                0 <= i < optional_listing_models(header, listing).len() implies optional_listing_models(
                header,
                listing,
            )[i].level == LogLevel::Info by {
                if i > 0 {
                    assert(optional_listing_models(header, listing)[i] == listing_models(
                        entries,
                    )[i - 1]);
                }
            }
        },
    }
}

proof fn lemma_count_singleton(m: RecordModel, level: LogLevel)
    ensures
        count_level(seq![m], level) == (if m.level == level {
            1nat
        } else {
            0nat
        }),
{
    assert(seq![m].drop_last() =~= Seq::<RecordModel>::empty());
    assert(count_level(Seq::<RecordModel>::empty(), level) == 0);
}

proof fn lemma_info_seq_counts(models: Seq<RecordModel>)
    requires
        forall|i: int| 0 <= i < models.len() ==> models[i].level == LogLevel::Info,
    ensures
        count_level(models, LogLevel::Error) == 0,
        count_level(models, LogLevel::Warn) == 0,
{
    lemma_count_level_uniform(models, LogLevel::Info, LogLevel::Error);
    lemma_count_level_uniform(models, LogLevel::Info, LogLevel::Warn);
}

/// Severity census of a start plan's diagnostics, for every base path,
/// listing and script combination: exactly one error-level record when the
/// server script is missing and none otherwise, and exactly one
/// warning-level record when the auxiliary script is missing and none
/// otherwise — a missing auxiliary script degrades, it does not fail.
pub proof fn lemma_start_record_levels(
    base: Seq<char>,
    base_listing: Option<Seq<Seq<char>>>,
    server_listing: Option<Seq<Seq<char>>>,
    server_exists: bool,
    aux_exists: bool,
)
    ensures
        count_level(
            spec_start_records(base, base_listing, server_listing, server_exists, aux_exists),
            LogLevel::Error,
        ) == (if server_exists {
            0nat
        } else {
            1nat
        }),
        count_level(
            spec_start_records(base, base_listing, server_listing, server_exists, aux_exists),
            LogLevel::Warn,
        ) == (if aux_exists {
            0nat
        } else {
            1nat
        }),
{
    let head = head_models(base);
    let b = optional_listing_models(base_listing_header(), base_listing);
    let s = optional_listing_models(server_listing_header(), spec_capped(server_listing));
    let e = (if server_exists {
        seq![]
    } else {
        seq![
            RecordModel {
                level: LogLevel::Error,
                message: server_missing_message(spec_server_script(base)),
            },
        ]
    });
    let w = (if aux_exists {
        seq![]
    } else {
        seq![
            RecordModel {
                level: LogLevel::Warn,
                message: aux_missing_message(spec_aux_script(base)),
            },
        ]
    });
    assert(missing_script_models(base, server_exists, aux_exists) == e + w);
    lemma_info_seq_counts(head);
    lemma_listing_models_info(base_listing_header(), base_listing);
    lemma_info_seq_counts(b);
    lemma_listing_models_info(server_listing_header(), spec_capped(server_listing));
    lemma_info_seq_counts(s);
    assert(count_level(e, LogLevel::Error) == (if server_exists {
        0nat
    } else {
        1nat
    })) by {
        if !server_exists {
            lemma_count_singleton(e[0], LogLevel::Error);
            assert(e =~= seq![e[0]]);
        }
    }
    assert(count_level(e, LogLevel::Warn) == 0) by {
        if !server_exists {
            lemma_count_singleton(e[0], LogLevel::Warn);
            assert(e =~= seq![e[0]]);
        }
    }
    assert(count_level(w, LogLevel::Warn) == (if aux_exists {
        0nat
    } else {
        1nat
    })) by {
        if !aux_exists {
            lemma_count_singleton(w[0], LogLevel::Warn);
            assert(w =~= seq![w[0]]);
        }
    }
    assert(count_level(w, LogLevel::Error) == 0) by {
        if !aux_exists {
            lemma_count_singleton(w[0], LogLevel::Error);
            assert(w =~= seq![w[0]]);
        }
    }
    lemma_count_level_add(head, b, LogLevel::Error);
    lemma_count_level_add(head + b, s, LogLevel::Error);
    lemma_count_level_add(e, w, LogLevel::Error);
    lemma_count_level_add(head + b + s, e + w, LogLevel::Error);
    lemma_count_level_add(head, b, LogLevel::Warn);
    lemma_count_level_add(head + b, s, LogLevel::Warn);
    lemma_count_level_add(e, w, LogLevel::Warn);
    lemma_count_level_add(head + b + s, e + w, LogLevel::Warn);
}

/// The diagnostic record for one spawn outcome the caller reports back: an
/// info record naming the expected port and the new process identifier on
/// success, an error record carrying the failure's text otherwise.
pub open spec fn spawn_record_model(cmd: SpawnModel, outcome: SpawnOutcome) -> RecordModel {
    match outcome {
        SpawnOutcome::Started(pid) => RecordModel {
            level: LogLevel::Info,
            message: spawn_ok_message(cmd.program, cmd.port, pid),
        },
        SpawnOutcome::Failed(err) => RecordModel {
            level: LogLevel::Error,
            message: spawn_failed_message(cmd.program, err@),
        },
    }
}

/// Builds the diagnostic record for the outcome of one planned spawn.
pub fn spawn_report(cmd: &SpawnCommand, outcome: &SpawnOutcome) -> (r: LogRecord)
    ensures
        r@ == spawn_record_model(cmd@, *outcome),
{
    match outcome {
        SpawnOutcome::Started(pid) => {
            let port_text = decimal_string(cmd.port as u64);
            let pid_text = decimal_string(*pid as u64);
            let message = cmd.program.clone().concat(" service started (port ").concat(
                port_text.as_str(),
            ).concat(", pid ").concat(pid_text.as_str()).concat(")");
            LogRecord { level: LogLevel::Info, message }
        }
        SpawnOutcome::Failed(err) => {
            let message = cmd.program.clone().concat(" service failed to start: ").concat(
                err.as_str(),
            );
            LogRecord { level: LogLevel::Error, message }
        }
    }
}

/// The caller-visible result of a `start` invocation: the success message
/// when the application's resource context could be determined at all — a
/// missing or failed script never fails the call — and the error message
/// exactly when it could not.
pub fn start_result(context_available: bool) -> (r: Result<String, String>)
    ensures
        r is Ok <==> context_available,
        r matches Ok(m) ==> m@ == start_success_message(),
        r matches Err(m) ==> m@ == context_missing_message(),
{
    if context_available {
        Ok("services started".to_owned())
    } else {
        Err("unable to determine the application's resource context".to_owned())
    }
}

/// Stops the backend services.  The supervisor tracks no handles across
/// calls and relies on the operating system to end child processes with the
/// application, so this always returns the fixed success message, whatever
/// came before.
pub fn stop_backend_services() -> (r: Result<String, String>)
    ensures
        r matches Ok(m) && m@ == stop_success_message(),
{
    Ok("services stopped".to_owned())
}

/// Reports the services' status.  The supervisor does not probe liveness:
/// this always returns the fixed running indicator, whatever came before.
pub fn get_service_status() -> (r: Result<String, String>)
    ensures
        r matches Ok(m) && m@ == status_running_message(),
{
    Ok("running".to_owned())
}

} // verus!
