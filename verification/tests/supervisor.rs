use lumina_supervisor::diag::{count_records_at, LogLevel, LogRecord};
use lumina_supervisor::supervisor::{
    get_service_status, spawn_report, start_backend_services, start_result,
    stop_backend_services, SpawnOutcome,
};

fn listing(entries: &[&str]) -> Option<Vec<String>> {
    Some(entries.iter().map(|e| String::from(*e)).collect())
}

#[test]
fn start_with_both_scripts_spawns_two_processes() {
    let plan = start_backend_services("/app", &None, &None, true, true);
    assert_eq!(plan.spawns.len(), 2);
    assert_eq!(plan.spawns[0].program, "node");
    assert_eq!(plan.spawns[0].script, "/app/server/index.js");
    assert_eq!(plan.spawns[0].cwd, "/app/server");
    assert_eq!(plan.spawns[0].port, 3006);
    assert_eq!(plan.spawns[1].program, "python");
    assert_eq!(plan.spawns[1].script, "/app/scripts/enhanced_sanskrit_api.py");
    assert_eq!(plan.spawns[1].cwd, "/app/scripts");
    assert_eq!(plan.spawns[1].port, 3008);
    assert_eq!(plan.message, "services started");
}

#[test]
fn start_with_both_scripts_logs_no_errors_or_warnings() {
    let plan = start_backend_services("/app", &None, &None, true, true);
    assert_eq!(count_records_at(&plan.records, LogLevel::Error), 0);
    assert_eq!(count_records_at(&plan.records, LogLevel::Warn), 0);
}

#[test]
fn start_scenario_both_present_all_info() {
    let plan = start_backend_services("/app", &listing(&["/app/server"]), &None, true, true);
    let mut records: Vec<LogRecord> = plan.records;
    for (i, cmd) in plan.spawns.iter().enumerate() {
        records.push(spawn_report(cmd, &SpawnOutcome::Started(100 + i as u32)));
    }
    assert_eq!(plan.message, "services started");
    assert_eq!(count_records_at(&records, LogLevel::Error), 0);
    assert_eq!(count_records_at(&records, LogLevel::Warn), 0);
    let spawn_lines: Vec<&LogRecord> = records
        .iter()
        .filter(|r| r.message.contains("service started"))
        .collect();
    assert_eq!(spawn_lines.len(), 2);
    assert!(spawn_lines.iter().all(|r| r.level == LogLevel::Info));
}

#[test]
fn start_scenario_server_only_warns_once() {
    let plan = start_backend_services("/app", &None, &None, true, false);
    assert_eq!(plan.message, "services started");
    assert_eq!(plan.spawns.len(), 1);
    assert_eq!(plan.spawns[0].program, "node");
    assert_eq!(count_records_at(&plan.records, LogLevel::Error), 0);
    assert_eq!(count_records_at(&plan.records, LogLevel::Warn), 1);
    let last = plan.records.last().unwrap();
    assert_eq!(last.level, LogLevel::Warn);
    assert_eq!(
        last.message,
        "auxiliary script missing, auxiliary API unavailable: /app/scripts/enhanced_sanskrit_api.py"
    );
}

#[test]
fn start_without_server_script_still_succeeds() {
    let plan = start_backend_services("/app", &None, &None, false, true);
    assert_eq!(plan.message, "services started");
    assert_eq!(count_records_at(&plan.records, LogLevel::Error), 1);
    assert_eq!(count_records_at(&plan.records, LogLevel::Warn), 0);
    assert_eq!(plan.spawns.len(), 1);
    assert_eq!(plan.spawns[0].program, "python");
    let error = plan
        .records
        .iter()
        .find(|r| r.level == LogLevel::Error)
        .unwrap();
    assert_eq!(
        error.message,
        "server script missing: /app/server/index.js"
    );
}

#[test]
fn start_with_neither_script_still_succeeds() {
    let plan = start_backend_services("/app", &None, &None, false, false);
    assert_eq!(plan.message, "services started");
    assert!(plan.spawns.is_empty());
    assert_eq!(count_records_at(&plan.records, LogLevel::Error), 1);
    assert_eq!(count_records_at(&plan.records, LogLevel::Warn), 1);
}

#[test]
fn start_head_records_name_the_paths() {
    let plan = start_backend_services("/app", &None, &None, true, true);
    assert_eq!(plan.records[0].message, "base path: /app");
    assert_eq!(plan.records[1].message, "server script: /app/server/index.js");
    assert_eq!(
        plan.records[2].message,
        "auxiliary script: /app/scripts/enhanced_sanskrit_api.py"
    );
}

#[test]
fn start_lists_base_directory_in_full() {
    let base = listing(&["/app/server", "/app/scripts", "/app/readme.txt"]);
    let plan = start_backend_services("/app", &base, &None, true, true);
    assert_eq!(plan.records.len(), 3 + 1 + 3);
    assert_eq!(plan.records[3].message, "base path directory contents:");
    assert_eq!(plan.records[4].message, "  - /app/server");
    assert_eq!(plan.records[5].message, "  - /app/scripts");
    assert_eq!(plan.records[6].message, "  - /app/readme.txt");
}

#[test]
fn start_caps_server_listing_at_ten_entries() {
    let entries: Vec<String> = (0..12).map(|i| format!("/app/server/f{}", i)).collect();
    let plan = start_backend_services("/app", &None, &Some(entries), true, true);
    assert_eq!(plan.records.len(), 3 + 1 + 10);
    assert_eq!(plan.records[3].message, "server directory contents:");
    assert_eq!(plan.records[4].message, "  - /app/server/f0");
    assert_eq!(plan.records[13].message, "  - /app/server/f9");
}

#[test]
fn missing_listings_produce_no_listing_records() {
    let plan = start_backend_services("/app", &None, &None, true, true);
    assert_eq!(plan.records.len(), 3);
}

#[test]
fn spawn_report_success_names_port_and_pid() {
    let plan = start_backend_services("/app", &None, &None, true, true);
    let r = spawn_report(&plan.spawns[0], &SpawnOutcome::Started(4242));
    assert_eq!(r.level, LogLevel::Info);
    assert_eq!(r.message, "node service started (port 3006, pid 4242)");
    let r = spawn_report(&plan.spawns[1], &SpawnOutcome::Started(7));
    assert_eq!(r.message, "python service started (port 3008, pid 7)");
}

#[test]
fn spawn_report_failure_is_an_error() {
    let plan = start_backend_services("/app", &None, &None, true, true);
    let outcome = SpawnOutcome::Failed(String::from("runtime not found"));
    let r = spawn_report(&plan.spawns[0], &outcome);
    assert_eq!(r.level, LogLevel::Error);
    assert_eq!(r.message, "node service failed to start: runtime not found");
}

#[test]
fn start_result_reflects_resource_context() {
    assert_eq!(start_result(true).unwrap(), "services started");
    assert_eq!(
        start_result(false).unwrap_err(),
        "unable to determine the application's resource context"
    );
}

#[test]
fn stop_always_returns_fixed_message() {
    assert_eq!(stop_backend_services().unwrap(), "services stopped");
    assert_eq!(stop_backend_services().unwrap(), "services stopped");
}

#[test]
fn status_always_returns_fixed_message() {
    assert_eq!(get_service_status().unwrap(), "running");
    let _ = start_result(false);
    assert_eq!(get_service_status().unwrap(), "running");
}
