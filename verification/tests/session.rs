use hecras_bridge::command::{CommandLine, Invocation};
use hecras_bridge::envelope::PythonResult;
use hecras_bridge::operations::{calculate_froude_number, read_hdf_file_info};
use hecras_bridge::outcome::{Completion, ProcessOutput};
use hecras_bridge::session::{begin, conclude, Step, MAX_PROBES};

/// What running a session against a fixed set of existing paths came to.
struct Run {
    probes: Vec<String>,
    spawned: Vec<CommandLine>,
    result: Option<PythonResult>,
}

fn run(working_dir: &str, invocation: Invocation, on_disk: &[&str]) -> Run {
    let mut probes = Vec::new();
    let mut spawned = Vec::new();
    let mut step = begin(working_dir.to_string(), invocation);
    loop {
        match step {
            Step::Probe(session) => {
                let path = session.probed().to_string();
                let found = on_disk.contains(&path.as_str());
                probes.push(path);
                step = session.resume(found);
            }
            Step::Spawn(command) => {
                spawned.push(command);
                return Run { probes, spawned, result: None };
            }
            Step::Done(result) => {
                return Run { probes, spawned, result: Some(result) };
            }
        }
    }
}

fn info_call() -> Invocation {
    read_hdf_file_info("/data/model.hdf".to_string())
}

#[test]
fn the_first_step_asks_about_the_working_directory() {
    match begin("/proj".to_string(), info_call()) {
        Step::Probe(session) => assert_eq!(session.probed(), "/proj/src-python"),
        _ => panic!("the first step is a question"),
    }
}

#[test]
fn backend_under_the_working_directory_is_used() {
    let r = run(
        "/proj",
        info_call(),
        &["/proj/src-python", "/proj/src-python/hdf_reader.py"],
    );
    assert_eq!(
        r.probes,
        vec!["/proj/src-python", "/proj/src-python", "/proj/src-python/hdf_reader.py"]
    );
    assert_eq!(r.result, None);
    assert_eq!(
        r.spawned,
        vec![CommandLine {
            program: "uv".to_string(),
            args: vec![
                "run".to_string(),
                "python".to_string(),
                "/proj/src-python/hdf_reader.py".to_string(),
                "/data/model.hdf".to_string(),
                "info".to_string(),
            ],
            working_dir: "/proj/src-python".to_string(),
        }]
    );
}

#[test]
fn backend_beside_the_working_directory_is_used() {
    let r = run(
        "/proj/src-tauri",
        info_call(),
        &["/proj/src-python", "/proj/src-python/hdf_reader.py"],
    );
    assert_eq!(
        r.probes,
        vec![
            "/proj/src-tauri/src-python",
            "/proj/src-python",
            "/proj/src-python",
            "/proj/src-python/hdf_reader.py",
        ]
    );
    assert_eq!(r.spawned.len(), 1);
    assert_eq!(r.spawned[0].working_dir, "/proj/src-python");
    assert_eq!(r.spawned[0].args[2], "/proj/src-python/hdf_reader.py");
}

#[test]
fn the_working_directory_wins_over_the_parent() {
    let r = run(
        "/proj/src-tauri",
        info_call(),
        &[
            "/proj/src-tauri/src-python",
            "/proj/src-tauri/src-python/hdf_reader.py",
            "/proj/src-python",
            "/proj/src-python/hdf_reader.py",
        ],
    );
    assert_eq!(r.spawned.len(), 1);
    assert_eq!(r.spawned[0].working_dir, "/proj/src-tauri/src-python");
}

#[test]
fn a_missing_backend_fails_with_the_fallback_path() {
    let r = run("/proj/src-tauri", info_call(), &[]);
    assert_eq!(
        r.probes,
        vec![
            "/proj/src-tauri/src-python",
            "/proj/src-python",
            "/proj/src-tauri/../src-python",
        ]
    );
    assert!(r.spawned.is_empty());
    let result = r.result.unwrap();
    assert!(!result.success);
    assert_eq!(result.data, None);
    assert_eq!(
        result.error,
        Some("Python backend directory not found: \"/proj/src-tauri/../src-python\"".to_string())
    );
}

#[test]
fn the_fallback_is_used_where_it_exists() {
    let r = run(
        "/proj/src-tauri",
        info_call(),
        &[
            "/proj/src-tauri/../src-python",
            "/proj/src-tauri/../src-python/hdf_reader.py",
        ],
    );
    assert_eq!(r.spawned.len(), 1);
    assert_eq!(r.spawned[0].working_dir, "/proj/src-tauri/../src-python");
    assert_eq!(r.spawned[0].args[2], "/proj/src-tauri/../src-python/hdf_reader.py");
}

#[test]
fn a_working_directory_without_parent_skips_the_parent() {
    let r = run("/", info_call(), &[]);
    assert_eq!(r.probes, vec!["/src-python", "/../src-python"]);
    assert!(r.spawned.is_empty());
    assert_eq!(
        r.result.unwrap().error,
        Some("Python backend directory not found: \"/../src-python\"".to_string())
    );
}

#[test]
fn a_missing_script_fails_with_its_path() {
    let r = run("/proj", info_call(), &["/proj/src-python"]);
    assert!(r.spawned.is_empty());
    let result = r.result.unwrap();
    assert!(!result.success);
    assert_eq!(result.data, None);
    assert_eq!(
        result.error,
        Some("Python script not found: \"/proj/src-python/hdf_reader.py\"".to_string())
    );
}

#[test]
fn a_path_is_quoted_with_its_escapes() {
    let r = run("/pro\"j", info_call(), &[]);
    assert_eq!(
        r.result.unwrap().error,
        Some("Python backend directory not found: \"/pro\\\"j/../src-python\"".to_string())
    );
}

#[test]
fn a_script_in_a_subdirectory_is_joined_onto_the_backend() {
    let invocation = Invocation {
        script: "HECRAS-HDF/hecras_processor.py".to_string(),
        args: vec!["process".to_string(), "/m.hdf".to_string(), "null".to_string()],
    };
    let r = run(
        "/proj",
        invocation,
        &["/proj/src-python", "/proj/src-python/HECRAS-HDF/hecras_processor.py"],
    );
    assert_eq!(r.spawned.len(), 1);
    assert_eq!(
        r.spawned[0].args,
        vec![
            "run",
            "python",
            "/proj/src-python/HECRAS-HDF/hecras_processor.py",
            "process",
            "/m.hdf",
            "null",
        ]
    );
}

#[test]
fn no_session_asks_more_than_the_bound() {
    let disks: [&[&str]; 5] = [
        &[],
        &["/a/b/src-python"],
        &["/a/src-python"],
        &["/a/src-python", "/a/src-python/hdf_reader.py"],
        &["/a/b/../src-python", "/a/b/../src-python/hdf_reader.py"],
    ];
    for disk in disks {
        let r = run("/a/b", info_call(), disk);
        assert!(r.probes.len() <= MAX_PROBES);
        assert_eq!(r.spawned.len() + r.result.iter().count(), 1);
    }
}

#[test]
fn a_finished_process_concludes_the_call() {
    let r = run(
        "/proj",
        info_call(),
        &["/proj/src-python", "/proj/src-python/hdf_reader.py"],
    );
    assert_eq!(r.spawned.len(), 1);
    let result = conclude(Completion::Exited(ProcessOutput {
        exit_code: Some(0),
        stdout: b"{\"name\":\"model.hdf\"}".to_vec(),
        stderr: Vec::new(),
    }));
    assert!(result.success);
    assert_eq!(result.data, Some("{\"name\":\"model.hdf\"}".to_string()));
    assert_eq!(result.error, None);
}

#[test]
fn froude_number_from_request_to_envelope() {
    let velocity: f64 = 2.0;
    let depth: f64 = 1.5;
    let invocation = calculate_froude_number(velocity.to_string(), depth.to_string());
    assert_eq!(invocation.args, vec!["froude", "2", "1.5"]);
    let r = run(
        "/proj",
        invocation,
        &["/proj/src-python", "/proj/src-python/hydraulic_calc.py"],
    );
    assert_eq!(r.spawned.len(), 1);
    assert_eq!(r.spawned[0].program, "uv");
    assert_eq!(
        r.spawned[0].args,
        vec!["run", "python", "/proj/src-python/hydraulic_calc.py", "froude", "2", "1.5"]
    );
    let result = conclude(Completion::Exited(ProcessOutput {
        exit_code: Some(0),
        stdout: b"{\"froude\":1.63}".to_vec(),
        stderr: Vec::new(),
    }));
    assert!(result.success);
    assert_eq!(result.data, Some("{\"froude\":1.63}".to_string()));
    assert_eq!(result.error, None);
}
