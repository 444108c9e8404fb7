use std::collections::HashSet;
use std::path::{Component, Path};

use ryu_research::engine_payload::{
    destination_name, embedded_files, embedded_paths, install_plan, is_installed,
    materialize_embedded, payload_digest, publish, safe_embedded_path, staging_name,
    store_parts, temporary_name, valid_materialization, EmbeddedFile, Found, Materialization,
};
use ryu_research::engine_runtime::{
    copies_variable, engine_code_dir, engine_environment, ensure_engine_token, hex_of_drawn,
    plan_engine_token, python_candidates, random_hex, research_engine_token, spawn_python, Attempt, CodeSource, EngineSupervisor,
    EngineTarget, EngineValue, PythonProgram, Step, TokenFile, TokenPlan, UrlParts,
    ENGINE_TOKEN_BYTES, READY_TIMEOUT_MILLIS,
};

fn distribution() -> Vec<EmbeddedFile> {
    let contents: Vec<&'static [u8]> = embedded_paths().iter().map(|p| p.as_bytes()).collect();
    embedded_files(&contents).unwrap()
}

fn cfg_windows() -> bool {
    std::path::MAIN_SEPARATOR == '\\'
}

fn file(path: &'static str, bytes: &'static [u8]) -> EmbeddedFile {
    EmbeddedFile { path, bytes }
}

#[test]
fn embedded_inventory_is_unique_and_traversal_free() {
    let mut paths = HashSet::new();
    let files = distribution();
    assert!(!files.is_empty());
    for file in &files {
        assert!(!file.bytes.is_empty(), "{} is empty", file.path);
        assert!(safe_embedded_path(file.path, false).is_ok(), "{}", file.path);
        assert!(safe_embedded_path(file.path, true).is_ok(), "{}", file.path);
        assert!(paths.insert(file.path), "duplicate {}", file.path);
    }
    assert_eq!(files.len(), 14);
    assert!(is_installed(&files) && !is_installed(&Vec::new()));
}

#[test]
fn a_distribution_needs_every_file_with_contents() {
    let mut contents: Vec<&'static [u8]> = embedded_paths().iter().map(|p| p.as_bytes()).collect();
    contents[3] = b"";
    assert!(embedded_files(&contents).is_none());
    contents.pop();
    assert!(embedded_files(&contents).is_none());
}

#[test]
fn paths_are_safe_or_refused() {
    let parts = |p: &str| safe_embedded_path(p, false).ok();
    assert_eq!(parts("a/b.py").unwrap(), ["a", "b.py"]);
    assert_eq!(parts("a//b/./c/").unwrap(), ["a", "b", "c"]);
    assert_eq!(parts(".hidden").unwrap(), [".hidden"]);
    assert_eq!(parts("...").unwrap(), ["..."]);
    assert!(parts("").unwrap().is_empty());
    for p in ["/etc", "..", "a/../b", "./a", ".", "a/.."] {
        assert_eq!(
            safe_embedded_path(p, false).unwrap_err().message,
            format!("unsafe embedded research path: {p}")
        );
    }
}

#[test]
fn windows_paths_know_backslashes_and_drives() {
    let parts = |p: &str| safe_embedded_path(p, true).ok();
    assert_eq!(parts("a\\b/c").unwrap(), ["a", "b", "c"]);
    assert_eq!(parts("ab:c").unwrap(), ["ab:c"]);
    for p in ["..\\x", "C:x", "c:\\x", "\\x", "\\\\host\\share", "a\\..\\b", ".\\a"] {
        assert!(parts(p).is_none(), "{p}");
    }
    assert_eq!(
        safe_embedded_path("C:x", true).unwrap_err().message,
        "unsafe embedded research path: C:x"
    );
    // Elsewhere these are ordinary names.
    assert_eq!(safe_embedded_path("..\\x", false).unwrap(), ["..\\x"]);
    assert_eq!(safe_embedded_path("C:x", false).unwrap(), ["C:x"]);
}

#[test]
fn paths_agree_with_the_standard_library() {
    for p in [
        "", "a", "a/b", "a//b", "/a", "./a", "a/./b", "a/.", "..", "a/../b", ".a", "a/..b", "//", ".",
    ] {
        let path = Path::new(p);
        let safe = !path.is_absolute()
            && path.components().all(|c| matches!(c, Component::Normal(_)));
        match safe_embedded_path(p, cfg_windows()) {
            Ok(parts) => {
                assert!(safe, "{p}");
                let joined: Vec<String> = path
                    .components()
                    .map(|c| c.as_os_str().to_str().unwrap().to_owned())
                    .collect();
                assert_eq!(parts, joined, "{p}");
            }
            Err(_) => assert!(!safe, "{p}"),
        }
    }
}

#[test]
fn the_digest_is_that_of_the_framed_payload() {
    let files = vec![file("a", b"xyz"), file("b/c", b"")];
    let mut payload: Vec<u8> = Vec::new();
    for f in &files {
        payload.extend((f.path.len() as u64).to_le_bytes());
        payload.extend(f.path.as_bytes());
        payload.extend((f.bytes.len() as u64).to_le_bytes());
        payload.extend(f.bytes);
    }
    let hash = <sha2::Sha256 as sha2::Digest>::digest(&payload);
    assert_eq!(payload_digest(&files), hex::encode(hash));
    assert_eq!(
        payload_digest(&Vec::new()),
        "e3b0c44298fc1c149afbf4c8996fb92427ae41e4649b934ca495991b7852b855"
    );
}

#[test]
fn the_digest_tells_distributions_apart() {
    assert_ne!(
        payload_digest(&vec![file("ab", b"c")]),
        payload_digest(&vec![file("a", b"bc")])
    );
    assert_ne!(
        payload_digest(&vec![file("a", b"x"), file("b", b"")]),
        payload_digest(&vec![file("a", b""), file("b", b"x")])
    );
}

#[test]
fn the_plan_writes_every_file_and_the_digest() {
    let files = distribution();
    let plan = install_plan(&files, false).ok().unwrap();
    assert_eq!(plan.marker, payload_digest(&files));
    assert_eq!(plan.files.len(), files.len());
    for (planned, file) in plan.files.iter().zip(&files) {
        assert_eq!(planned.components.join("/"), file.path);
        assert_eq!(planned.path, file.path);
        assert_eq!(planned.bytes, file.bytes);
    }
}

#[test]
fn the_plan_refuses_unsafe_and_duplicate_paths() {
    let message = |files: Vec<EmbeddedFile>| install_plan(&files, false).err().unwrap().message;
    assert_eq!(
        message(vec![file("a", b"x"), file("../b", b"x")]),
        "unsafe embedded research path: ../b"
    );
    assert_eq!(
        message(vec![file("a/b", b"x"), file("a//b", b"y")]),
        "duplicate embedded research path: a//b"
    );
}

fn found(exists: bool, marker: Option<&str>, present: bool) -> Found {
    Found {
        exists,
        marker: marker.map(str::to_owned),
        present: vec![present; 14],
    }
}

#[test]
fn empty_ryu_dir_materializes_the_complete_payload_idempotently() {
    let files = distribution();
    let digest = payload_digest(&files);
    let name = destination_name(&digest);
    assert_eq!(name, format!("0.3.0-{digest}"));
    // Nothing is there yet: install.
    let nothing = found(false, None, false);
    assert!(!valid_materialization(&nothing, &files));
    let plan = match materialize_embedded(&files, &nothing, &name, false).ok().unwrap() {
        Materialization::Install(plan) => plan,
        Materialization::Adopt => panic!("there is nothing to adopt"),
    };
    assert_eq!(plan.files.len(), files.len());
    let installed = found(true, Some(&plan.marker), true);
    assert!(publish(&files, true, &installed, &name).is_ok());
    // The second time the directory is complete: adopt.
    assert!(valid_materialization(&installed, &files));
    assert!(matches!(
        materialize_embedded(&files, &installed, &name, false),
        Ok(Materialization::Adopt)
    ));
}

#[test]
fn incomplete_directories_are_never_touched() {
    let files = distribution();
    let digest = payload_digest(&files);
    let mut partial = found(true, Some(&digest), true);
    partial.present[13] = false;
    assert!(!valid_materialization(&partial, &files));
    assert!(!valid_materialization(&found(true, Some("other"), true), &files));
    let short = Found {
        present: vec![true],
        ..found(true, Some(&digest), true)
    };
    assert!(!valid_materialization(&short, &files));
    assert_eq!(
        materialize_embedded(&files, &partial, "/x", false).err().unwrap().message,
        "embedded research directory exists without its valid digest marker: /x"
    );
    let unsafe_files = vec![file("/a", b"x")];
    assert_eq!(
        materialize_embedded(&unsafe_files, &found(false, None, false), "/x", false)
            .err()
            .unwrap()
            .message,
        "unsafe embedded research path: /a"
    );
}

#[test]
fn a_lost_race_is_won_by_a_complete_directory() {
    let files = distribution();
    let digest = payload_digest(&files);
    assert!(publish(&files, false, &found(true, Some(&digest), true), "/x").is_ok());
    assert_eq!(
        publish(&files, false, &found(true, None, true), "/x")
            .unwrap_err()
            .message,
        "publishing embedded engine to /x"
    );
    assert!(publish(&files, false, &found(false, None, false), "/x").is_err());
    assert_eq!(store_parts(), ["research", "engine"]);
    assert_eq!(staging_name(42, "ab"), ".install-42-ab");
    assert_eq!(temporary_name(42, "ab"), ".write-42-ab");
}

#[test]
fn explicit_upstream_is_adopt_only_and_never_a_spawn_target() {
    let target = EngineTarget::from_env(Some("https://engine.example.test/base"), None).unwrap();
    assert!(target.adopt_only);
    assert_eq!(target.host, "engine.example.test");
    assert_eq!(target.port, 443);
    assert_eq!(target.base_url, "https://engine.example.test/base");
    let mut supervisor = EngineSupervisor::new();
    assert_eq!(
        supervisor
            .ensure_ready(&target, false, 0, false)
            .unwrap_err()
            .message,
        "the explicit research engine at https://engine.example.test/base is not authenticated and ready"
    );
    assert_eq!(
        supervisor.ensure_ready(&target, true, 0, false).unwrap(),
        Step::Ready
    );
}

#[test]
fn upstreams_are_http_endpoints_without_credentials() {
    let message = |up: &str| {
        EngineTarget::from_env(Some(up), None)
            .unwrap_err()
            .message
    };
    assert_eq!(
        message("http://u:p@host"),
        "RYU_RESEARCH_UPSTREAM must be an http(s) endpoint without credentials"
    );
    assert_eq!(
        message("http://u@host"),
        "RYU_RESEARCH_UPSTREAM must be an http(s) endpoint without credentials"
    );
    assert_eq!(
        message("http://"),
        "RYU_RESEARCH_UPSTREAM must be an http(s) URL or host:port"
    );
    let bare = EngineTarget::from_env(Some(" 10.0.0.4:9999/ "), Some("1")).unwrap();
    assert_eq!(bare.base_url, "http://10.0.0.4:9999");
    assert_eq!(bare.port, 9999);
    assert!(bare.adopt_only);
}

#[test]
fn url_parts_decide_the_target() {
    let parts = UrlParts {
        scheme: "http".to_owned(),
        host: Some("h".to_owned()),
        username: String::new(),
        password: None,
        port: Some(81),
        text: "http://h:81/".to_owned(),
    };
    assert_eq!(
        EngineTarget::from_url(&parts).unwrap().base_url,
        "http://h:81"
    );
    let ftp = UrlParts {
        scheme: "ftp".to_owned(),
        ..parts.clone()
    };
    assert!(EngineTarget::from_url(&ftp).is_err());
    let nowhere = UrlParts {
        host: None,
        ..parts.clone()
    };
    assert!(EngineTarget::from_url(&nowhere).is_err());
    let portless = UrlParts {
        port: None,
        ..parts
    };
    assert_eq!(
        EngineTarget::from_url(&portless).unwrap_err().message,
        "RYU_RESEARCH_UPSTREAM has no port"
    );
}

#[test]
fn without_an_upstream_the_engine_is_on_loopback() {
    let target = EngineTarget::from_env(Some(" "), None).unwrap();
    assert_eq!(target.base_url, "http://127.0.0.1:8087");
    assert_eq!(target.base_url, ryu_research::research_base_url(None));
    assert_eq!(target.host, "127.0.0.1");
    assert!(!target.adopt_only);
    assert_eq!(target.ready_url(), "http://127.0.0.1:8087/experiments");
    let probe = target.ready_request("tok");
    assert_eq!(probe.url, target.ready_url());
    assert_eq!(probe.bearer.as_deref(), Some("tok"));
    assert_eq!(EngineTarget::from_env(None, Some(" 9 ")).unwrap().port, 9);
    assert_eq!(
        EngineTarget::from_env(None, Some("x")).unwrap_err().message,
        "RESEARCH_PORT must be a valid TCP port"
    );
}

#[test]
fn empty_ryu_dir_starts_and_second_supervisor_adopts_when_python_exists() {
    let target = EngineTarget::from_env(None, Some("8087")).unwrap();
    let mut first = EngineSupervisor::new();
    assert_eq!(
        first.ensure_ready(&target, false, 0, false).unwrap(),
        Step::Spawn
    );
    first.spawned();
    assert!(first.owns_process);
    assert_eq!(
        first.ensure_ready(&target, false, 125, false).unwrap(),
        Step::Wait
    );
    assert_eq!(
        first.ensure_ready(&target, true, 250, false).unwrap(),
        Step::Ready
    );
    assert!(first.owns_process);

    let mut second = EngineSupervisor::default();
    assert_eq!(
        second.ensure_ready(&target, true, 0, false).unwrap(),
        Step::Ready
    );
    assert!(!second.owns_process);
}

#[test]
fn the_wait_survives_a_lost_process_and_ends_in_time() {
    let target = EngineTarget::from_env(None, None).unwrap();
    let mut supervisor = EngineSupervisor::new();
    supervisor.spawned();
    assert_eq!(
        supervisor
            .ensure_ready(&target, false, READY_TIMEOUT_MILLIS - 1, true)
            .unwrap(),
        Step::Wait
    );
    assert!(!supervisor.owns_process);
    assert_eq!(
        supervisor
            .ensure_ready(&target, false, READY_TIMEOUT_MILLIS, false)
            .unwrap_err()
            .message,
        "embedded research engine did not become authenticated and ready at http://127.0.0.1:8087 within 20s"
    );
}

#[test]
fn every_start_begins_afresh() {
    let target = EngineTarget::from_env(None, None).unwrap();
    let mut supervisor = EngineSupervisor::new();
    supervisor.spawned();
    supervisor.begin();
    assert!(supervisor.owns_process);
    assert_eq!(
        supervisor.ensure_ready(&target, false, 0, false).unwrap(),
        Step::Spawn
    );
}

#[test]
fn engines_are_started_on_loopback_only() {
    let mut target = EngineTarget::from_env(None, None).unwrap();
    for host in ["127.0.0.1", "localhost", "::1"] {
        target.host = host.to_owned();
        assert_eq!(
            EngineSupervisor::new()
                .ensure_ready(&target, false, 0, false)
                .unwrap(),
            Step::Spawn
        );
    }
    target.host = "0.0.0.0".to_owned();
    assert_eq!(
        EngineSupervisor::new()
            .ensure_ready(&target, false, 0, false)
            .unwrap_err()
            .message,
        "Research only spawns its engine on loopback"
    );
}

#[test]
fn random_texts_are_hexadecimal_and_differ() {
    let a = random_hex(32).unwrap();
    let b = random_hex(32).unwrap();
    assert_eq!(a.len(), 64);
    assert!(a.bytes().all(|c| matches!(c, b'0'..=b'9' | b'a'..=b'f')));
    assert_ne!(a, b);
    assert_eq!(random_hex(0).unwrap(), "");
    assert_eq!(
        hex_of_drawn(Some(vec![0x00, 0x9f, 0xa0])).as_deref(),
        Some("009fa0")
    );
    assert_eq!(hex_of_drawn(None), None);
}

#[test]
fn tokens_come_from_the_environment_or_the_file() {
    assert_eq!(
        research_engine_token(Some(" e "), Some("f")).as_deref(),
        Some("e")
    );
    assert_eq!(
        research_engine_token(Some(" "), Some("f\n")).as_deref(),
        Some("f")
    );
    assert_eq!(research_engine_token(None, Some(" ")), None);
    assert_eq!(research_engine_token(None, None), None);
}

#[test]
fn tokens_are_found_before_they_are_created() {
    assert_eq!(
        plan_engine_token(Some(" e "), Some("f")),
        TokenPlan::Use("e".to_owned())
    );
    assert_eq!(
        plan_engine_token(None, Some("f\n")),
        TokenPlan::Use("f".to_owned())
    );
    assert_eq!(plan_engine_token(Some(" "), Some(" ")), TokenPlan::Create);
    assert_eq!(plan_engine_token(None, None), TokenPlan::Create);
    // A created token reads back.
    let fresh = random_hex(ENGINE_TOKEN_BYTES).unwrap();
    assert_eq!(fresh.len(), 64);
    assert_eq!(
        plan_engine_token(None, Some(&fresh)),
        TokenPlan::Use(fresh.clone())
    );
}

#[test]
fn a_fresh_token_yields_to_the_first_one() {
    let fresh = || "fresh".to_owned();
    assert_eq!(
        ensure_engine_token(fresh(), "/t", &TokenFile::Created).unwrap(),
        "fresh"
    );
    let winner = TokenFile::Taken {
        winner: Some(" first\n".to_owned()),
    };
    assert_eq!(ensure_engine_token(fresh(), "/t", &winner).unwrap(), "first");
    let message = |file: TokenFile| {
        ensure_engine_token("fresh".to_owned(), "/t", &file)
            .unwrap_err()
            .message
    };
    assert_eq!(
        message(TokenFile::Taken {
            winner: Some(" ".to_owned())
        }),
        "concurrently-created research engine token is empty"
    );
    assert_eq!(
        message(TokenFile::Taken { winner: None }),
        "reading concurrently-created token /t"
    );
    assert_eq!(message(TokenFile::Failed), "creating /t");
}

#[test]
fn code_comes_from_a_complete_override_or_the_payload() {
    assert_eq!(
        engine_code_dir(None, false, false).unwrap(),
        CodeSource::Embedded
    );
    assert_eq!(
        engine_code_dir(Some(""), true, true).unwrap(),
        CodeSource::Embedded
    );
    assert_eq!(
        engine_code_dir(Some("/d"), true, true).unwrap(),
        CodeSource::Override
    );
    assert_eq!(
        engine_code_dir(Some("/d"), true, false).unwrap_err().message,
        "RESEARCH_DIR must contain ryu_research/ and experiments/: /d"
    );
}

#[test]
fn interpreters_are_tried_in_order() {
    assert_eq!(
        python_candidates(true, true, false),
        [PythonProgram::Override]
    );
    assert_eq!(
        python_candidates(false, true, false),
        [
            PythonProgram::Venv,
            PythonProgram::Python3,
            PythonProgram::Python
        ]
    );
    assert_eq!(
        python_candidates(false, false, true),
        [PythonProgram::Python]
    );
}

#[test]
fn starting_goes_on_only_past_missing_interpreters() {
    assert!(spawn_python(Attempt::Started, "p", false).unwrap());
    assert!(!spawn_python(Attempt::NotFound, "p", true).unwrap());
    assert_eq!(
        spawn_python(Attempt::NotFound, "p", false)
            .unwrap_err()
            .message,
        "spawning the embedded research engine; set RESEARCH_PYTHON to Python 3"
    );
    assert_eq!(
        spawn_python(Attempt::Failed, "p", true).unwrap_err().message,
        "spawning p -m ryu_research"
    );
}

#[test]
fn the_engine_inherits_benign_variables_only() {
    for name in ["PATH", "Path", "home", "ProgramFiles(x86)", "LD_LIBRARY_PATH"] {
        assert!(copies_variable(name), "{name}");
    }
    for name in [
        "RYU_EXT_TOKEN",
        "ryu_research_engine_token",
        "RESEARCH_DIR",
        "AWS_SECRET_ACCESS_KEY",
        "PATH ",
        "",
    ] {
        assert!(!copies_variable(name), "{name}");
    }
}

#[test]
fn the_engine_gets_its_own_variables() {
    let target = EngineTarget::from_env(None, Some("9")).unwrap();
    let variables = engine_environment(&target, "tok");
    let get = |name: &str| {
        variables
            .iter()
            .find(|v| v.name == name)
            .unwrap()
            .value
            .clone()
    };
    assert_eq!(variables.len(), 7);
    assert_eq!(get("PYTHONPATH"), EngineValue::CodeDir);
    assert_eq!(get("RESEARCH_HOST"), EngineValue::Text("127.0.0.1".to_owned()));
    assert_eq!(get("RESEARCH_PORT"), EngineValue::Text("9".to_owned()));
    assert_eq!(get("RESEARCH_EXPERIMENTS"), EngineValue::ExperimentsDir);
    assert_eq!(get("RESEARCH_WORKSPACES"), EngineValue::WorkspacesDir);
    assert_eq!(
        get("RYU_RESEARCH_ENGINE_TOKEN"),
        EngineValue::Text("tok".to_owned())
    );
    assert_eq!(
        get("PYTHONDONTWRITEBYTECODE"),
        EngineValue::Text("1".to_owned())
    );
}
