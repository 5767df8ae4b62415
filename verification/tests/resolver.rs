use lumina_supervisor::resolver::{
    aux_script_path, candidate_paths, resolve_base_path, scripts_dir_path, server_dir_path,
    server_script_path, Probe, ResolveRequest,
};

fn request(resource_dir: Option<&str>, exe_dir: Option<&str>, cwd: &str) -> ResolveRequest {
    ResolveRequest {
        resource_dir: resource_dir.map(String::from),
        exe_dir: exe_dir.map(String::from),
        cwd: String::from(cwd),
    }
}

fn probes_marked(req: &ResolveRequest, marks: &[bool]) -> Vec<Probe> {
    let paths = candidate_paths(req);
    assert_eq!(paths.len(), marks.len());
    paths
        .into_iter()
        .zip(marks.iter())
        .map(|(path, &marker_found)| Probe { path, marker_found })
        .collect()
}

#[test]
fn candidates_with_both_dirs() {
    let req = request(Some("/res"), Some("/exe"), "/cwd");
    let c = candidate_paths(&req);
    assert_eq!(c, vec!["/res", "/res/resources", "/exe", "/exe/resources"]);
}

#[test]
fn candidates_without_resource_dir() {
    let req = request(None, Some("/exe"), "/cwd");
    let c = candidate_paths(&req);
    assert_eq!(c, vec!["/exe", "/exe/resources"]);
}

#[test]
fn candidates_without_exe_dir() {
    let req = request(Some("/res"), None, "/cwd");
    let c = candidate_paths(&req);
    assert_eq!(c, vec!["/res", "/res/resources"]);
}

#[test]
fn candidates_with_neither() {
    let req = request(None, None, "/cwd");
    assert!(candidate_paths(&req).is_empty());
}

#[test]
fn picks_resource_dir_first() {
    let req = request(Some("/res"), Some("/exe"), "/cwd");
    let probes = probes_marked(&req, &[true, true, true, true]);
    let r = resolve_base_path(&req, &probes);
    assert_eq!(r.base_path, "/res");
    assert_eq!(r.records.len(), 1);
    assert_eq!(r.records[0].message, "probed /res: marker found");
}

#[test]
fn picks_nested_resources_over_exe_dir() {
    let req = request(Some("/res"), Some("/exe"), "/cwd");
    let probes = probes_marked(&req, &[false, true, true, false]);
    let r = resolve_base_path(&req, &probes);
    assert_eq!(r.base_path, "/res/resources");
    assert_eq!(r.records.len(), 2);
    assert_eq!(r.records[0].message, "probed /res: marker missing");
    assert_eq!(r.records[1].message, "probed /res/resources: marker found");
}

#[test]
fn picks_exe_dir_when_resource_dir_lacks_marker() {
    let req = request(Some("/res"), Some("/exe"), "/cwd");
    let probes = probes_marked(&req, &[false, false, true, false]);
    let r = resolve_base_path(&req, &probes);
    assert_eq!(r.base_path, "/exe");
    assert_eq!(r.records.len(), 3);
}

#[test]
fn picks_exe_nested_resources_last() {
    let req = request(Some("/res"), Some("/exe"), "/cwd");
    let probes = probes_marked(&req, &[false, false, false, true]);
    let r = resolve_base_path(&req, &probes);
    assert_eq!(r.base_path, "/exe/resources");
    assert_eq!(r.records.len(), 4);
}

#[test]
fn picks_exe_dir_without_resource_dir() {
    let req = request(None, Some("/exe"), "/cwd");
    let probes = probes_marked(&req, &[true, false]);
    let r = resolve_base_path(&req, &probes);
    assert_eq!(r.base_path, "/exe");
}

#[test]
fn falls_back_to_exe_dir_when_no_marker_anywhere() {
    let req = request(Some("/res"), Some("/exe"), "/cwd");
    let probes = probes_marked(&req, &[false, false, false, false]);
    let r = resolve_base_path(&req, &probes);
    assert_eq!(r.base_path, "/exe");
    assert_eq!(r.records.len(), 5);
    assert_eq!(
        r.records[4].message,
        "no candidate holds the marker, falling back to /exe"
    );
}

#[test]
fn falls_back_to_cwd_without_exe_dir() {
    let req = request(Some("/res"), None, "/cwd");
    let probes = probes_marked(&req, &[false, false]);
    let r = resolve_base_path(&req, &probes);
    assert_eq!(r.base_path, "/cwd");
    assert_eq!(
        r.records[2].message,
        "no candidate holds the marker, falling back to /cwd"
    );
}

#[test]
fn falls_back_to_cwd_with_no_candidates() {
    let req = request(None, None, "/cwd");
    let probes: Vec<Probe> = Vec::new();
    let r = resolve_base_path(&req, &probes);
    assert_eq!(r.base_path, "/cwd");
    assert_eq!(r.records.len(), 1);
}

#[test]
fn resolution_is_deterministic() {
    let req = request(Some("/res"), Some("/exe"), "/cwd");
    let first = resolve_base_path(&req, &probes_marked(&req, &[false, false, false, false]));
    let second = resolve_base_path(&req, &probes_marked(&req, &[false, false, false, false]));
    assert_eq!(first.base_path, second.base_path);
    assert_eq!(first.records.len(), second.records.len());
}

#[test]
fn always_returns_some_path_for_every_combination() {
    for &resource in &[Some("/res"), None] {
        for &exe in &[Some("/exe"), None] {
            let req = request(resource, exe, "/cwd");
            let n = candidate_paths(&req).len();
            for mask in 0..(1u32 << n) {
                let marks: Vec<bool> = (0..n).map(|i| mask & (1 << i) != 0).collect();
                let probes = probes_marked(&req, &marks);
                let r = resolve_base_path(&req, &probes);
                assert!(!r.base_path.is_empty());
                let expected = match marks.iter().position(|&m| m) {
                    Some(i) => probes[i].path.clone(),
                    None => String::from(exe.unwrap_or("/cwd")),
                };
                assert_eq!(r.base_path, expected);
            }
        }
    }
}

#[test]
fn script_and_dir_paths() {
    assert_eq!(server_script_path("/app"), "/app/server/index.js");
    assert_eq!(
        aux_script_path("/app"),
        "/app/scripts/enhanced_sanskrit_api.py"
    );
    assert_eq!(server_dir_path("/app"), "/app/server");
    assert_eq!(scripts_dir_path("/app"), "/app/scripts");
}
