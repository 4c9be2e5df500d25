use fingerprint_fetch::{
    is_local_source, is_success_status, manifest_from_fields, manifest_location,
    normalize_base_url, on_response, on_stored, parse_manifest, plan, resolve_manifest, start,
    strip_quotes_of, Batch, BatchStep, FetchFailure, FetchOutcome, Gate, Manifest, ManifestError,
    ManifestLocation, Response, StoreResult, WorkerStep,
};

fn manifest_of(sha: &str, names: &[&str]) -> Manifest {
    Manifest {
        content_id: sha.to_string(),
        files: names.iter().map(|n| n.to_string()).collect(),
    }
}

#[test]
fn plan_scenario_url_and_path() {
    let p = plan("https://cdn.example/", "abc123", "a.bin");
    assert_eq!(p.url, "https://cdn.example/abc123/a.bin");
    assert_eq!(p.path, "abc123/a.bin");
}

#[test]
fn plan_keeps_subdirectories() {
    let p = plan("http://h/", "c0ffee", "sfx/ui/click.ogg");
    assert_eq!(p.url, "http://h/c0ffee/sfx/ui/click.ogg");
    assert_eq!(p.path, "c0ffee/sfx/ui/click.ogg");
}

#[test]
fn plan_is_deterministic() {
    let a = plan("https://cdn.example/", "abc123", "a.bin");
    let b = plan("https://cdn.example/", "abc123", "a.bin");
    assert_eq!(a.url, b.url);
    assert_eq!(a.path, b.path);
}

#[test]
fn base_url_gets_trailing_slash() {
    assert_eq!(normalize_base_url("https://cdn.example"), "https://cdn.example/");
    assert_eq!(normalize_base_url("https://cdn.example/"), "https://cdn.example/");
    assert_eq!(normalize_base_url(""), "/");
}

#[test]
fn local_source_has_a_dot() {
    assert!(is_local_source("fingerprint.json"));
    assert!(!is_local_source("026b98730aac824ae292238be1176a927e139da8"));
    assert!(!is_local_source(""));
}

#[test]
fn manifest_location_local_file() {
    match manifest_location("fingerprint.json", "https://cdn.example/") {
        ManifestLocation::LocalFile(p) => assert_eq!(p, "fingerprint.json"),
        ManifestLocation::Remote(u) => panic!("fetched remotely from {}", u),
    }
}

#[test]
fn manifest_location_remote() {
    match manifest_location("abc123", "https://cdn.example/") {
        ManifestLocation::Remote(u) => assert_eq!(u, "https://cdn.example/abc123/fingerprint.json"),
        ManifestLocation::LocalFile(p) => panic!("read locally from {}", p),
    }
}

#[test]
fn strip_quotes_removes_surrounding_quotes() {
    assert_eq!(strip_quotes_of("\"abc\""), "abc");
    assert_eq!(strip_quotes_of("\"\"x\"y\"\""), "x\"y");
    assert_eq!(strip_quotes_of("plain"), "plain");
    assert_eq!(strip_quotes_of("\"\"\""), "");
    assert_eq!(strip_quotes_of(""), "");
}

#[test]
fn parse_manifest_scenario() {
    let m = parse_manifest("{\"sha\":\"abc123\",\"files\":[{\"file\":\"a.bin\"}]}").unwrap();
    assert_eq!(m.content_id, "abc123");
    assert_eq!(m.files, vec!["a.bin".to_string()]);
}

#[test]
fn parse_manifest_ignores_other_fields_and_keeps_order() {
    let text = "{\"version\":3,\"sha\":\"x1\",\"files\":[{\"file\":\"b/c.png\",\"sha\":\"q\"},{\"file\":\"a.csv\"}]}";
    let m = parse_manifest(text).unwrap();
    assert_eq!(m.content_id, "x1");
    assert_eq!(m.files, vec!["b/c.png".to_string(), "a.csv".to_string()]);
}

#[test]
fn parse_manifest_empty_file_list() {
    let m = parse_manifest("{\"sha\":\"abc\",\"files\":[]}").unwrap();
    assert_eq!(m.content_id, "abc");
    assert!(m.files.is_empty());
}

#[test]
fn parse_manifest_strips_embedded_quotes() {
    let m = parse_manifest("{\"sha\":\"\\\"abc\\\"\",\"files\":[{\"file\":\"\\\"a.bin\\\"\"}]}").unwrap();
    assert_eq!(m.content_id, "abc");
    assert_eq!(m.files, vec!["a.bin".to_string()]);
}

fn is_malformed(r: Result<Manifest, ManifestError>) -> bool {
    matches!(r, Err(ManifestError::Malformed))
}

#[test]
fn parse_manifest_rejects_bad_documents() {
    assert!(is_malformed(parse_manifest("not json")));
    assert!(is_malformed(parse_manifest("{\"files\":[]}")));
    assert!(is_malformed(parse_manifest("{\"sha\":\"abc\"}")));
    assert!(is_malformed(parse_manifest("{\"sha\":7,\"files\":[]}")));
    assert!(is_malformed(parse_manifest("{\"sha\":\"abc\",\"files\":{}}")));
    assert!(is_malformed(parse_manifest("{\"sha\":\"abc\",\"files\":[{\"name\":\"a\"}]}")));
    assert!(is_malformed(parse_manifest("{\"sha\":\"\",\"files\":[]}")));
    assert!(is_malformed(parse_manifest("{\"sha\":\"abc\",\"files\":[{\"file\":\"\"}]}")));
}

#[test]
fn parse_manifest_rejects_duplicate_names() {
    let text = "{\"sha\":\"abc\",\"files\":[{\"file\":\"a\"},{\"file\":\"b\"},{\"file\":\"a\"}]}";
    assert!(is_malformed(parse_manifest(text)));
}

#[test]
fn manifest_from_fields_cases() {
    let ok = manifest_from_fields(
        Some("\"s\"".to_string()),
        Some(vec![Some("x".to_string()), Some("y".to_string())]),
    )
    .unwrap();
    assert_eq!(ok.content_id, "s");
    assert_eq!(ok.files, vec!["x".to_string(), "y".to_string()]);
    assert!(is_malformed(manifest_from_fields(None, Some(vec![]))));
    assert!(is_malformed(manifest_from_fields(Some("s".to_string()), None)));
    assert!(is_malformed(manifest_from_fields(
        Some("s".to_string()),
        Some(vec![Some("x".to_string()), None])
    )));
}

#[test]
fn resolve_manifest_unavailable() {
    match resolve_manifest(Err("no such file".to_string())) {
        Err(ManifestError::Unavailable(e)) => assert_eq!(e, "no such file"),
        other => panic!("unexpected {:?}", other),
    }
}

#[test]
fn resolve_manifest_reads_text() {
    let m = resolve_manifest(Ok("{\"sha\":\"abc123\",\"files\":[{\"file\":\"a.bin\"}]}".to_string()))
        .unwrap();
    assert_eq!(m.content_id, "abc123");
    assert!(is_malformed(resolve_manifest(Ok("[1,2]".to_string()))));
}

#[test]
fn worker_skips_existing_destination() {
    assert!(matches!(start(true), WorkerStep::Finish(FetchOutcome::Skipped)));
    assert!(matches!(start(false), WorkerStep::Request));
}

#[test]
fn worker_classifies_responses() {
    assert!(matches!(on_response(Response::Status(200)), WorkerStep::Store));
    assert!(matches!(on_response(Response::Status(204)), WorkerStep::Store));
    assert!(matches!(
        on_response(Response::Status(404)),
        WorkerStep::Finish(FetchOutcome::Failed(FetchFailure::Http(404)))
    ));
    assert!(matches!(
        on_response(Response::Status(302)),
        WorkerStep::Finish(FetchOutcome::Failed(FetchFailure::Http(302)))
    ));
    match on_response(Response::TransportError("dns".to_string())) {
        WorkerStep::Finish(FetchOutcome::Failed(FetchFailure::Transport(e))) => assert_eq!(e, "dns"),
        other => panic!("unexpected {:?}", other),
    }
}

#[test]
fn success_status_range() {
    assert!(!is_success_status(199));
    assert!(is_success_status(200));
    assert!(is_success_status(299));
    assert!(!is_success_status(300));
    assert!(!is_success_status(500));
}

#[test]
fn worker_store_results() {
    assert!(matches!(on_stored(StoreResult::Written), FetchOutcome::Succeeded));
    match on_stored(StoreResult::WriteError("disk full".to_string())) {
        FetchOutcome::Failed(FetchFailure::Storage(e)) => assert_eq!(e, "disk full"),
        other => panic!("unexpected {:?}", other),
    }
    match on_stored(StoreResult::BodyError("reset".to_string())) {
        FetchOutcome::Failed(FetchFailure::Transport(e)) => assert_eq!(e, "reset"),
        other => panic!("unexpected {:?}", other),
    }
}

#[test]
fn gate_bounds_slots() {
    let mut g = Gate::new(2);
    assert!(g.try_acquire());
    assert!(g.try_acquire());
    assert!(!g.try_acquire());
    assert_eq!(g.in_use(), 2);
    g.release();
    assert!(g.try_acquire());
    assert_eq!(g.capacity(), 2);
}

#[test]
fn batch_plans_every_file() {
    let m = manifest_of("abc123", &["a.bin", "d/b.bin"]);
    let b = Batch::new("https://cdn.example/", &m, 10);
    assert_eq!(b.len(), 2);
    assert_eq!(b.plan(0).url, "https://cdn.example/abc123/a.bin");
    assert_eq!(b.plan(1).path, "abc123/d/b.bin");
}

#[test]
fn batch_empty_manifest_is_done_at_once() {
    let m = manifest_of("abc", &[]);
    let mut b = Batch::new("http://h/", &m, 10);
    assert_eq!(b.next_step(), BatchStep::Done);
}

#[test]
fn batch_concurrency_two_with_five_files() {
    let m = manifest_of("sha", &["1", "2", "3", "4", "5"]);
    let mut b = Batch::new("http://h/", &m, 2);
    let mut running: Vec<usize> = Vec::new();
    let mut dispatched = 0;
    let mut max_live = 0;
    loop {
        match b.next_step() {
            BatchStep::Dispatch(i) => {
                running.push(i);
                dispatched += 1;
                max_live = max_live.max(b.live());
                assert!(b.live() <= 2);
            }
            BatchStep::Wait => {
                assert!(running.len() == 2 || dispatched == 5);
                let i = running.remove(0);
                b.complete(i, FetchOutcome::Succeeded);
            }
            BatchStep::Done => break,
        }
    }
    assert_eq!(dispatched, 5);
    assert_eq!(max_live, 2);
    for i in 0..5 {
        assert!(matches!(b.outcome(i), Some(FetchOutcome::Succeeded)));
    }
}

#[test]
fn batch_failure_is_isolated() {
    let m = manifest_of("abc", &["missing.bin", "ok.bin"]);
    let mut b = Batch::new("http://h/", &m, 10);
    assert_eq!(b.next_step(), BatchStep::Dispatch(0));
    assert_eq!(b.next_step(), BatchStep::Dispatch(1));
    assert_eq!(b.next_step(), BatchStep::Wait);
    let failed = match on_response(Response::Status(404)) {
        WorkerStep::Finish(o) => o,
        other => panic!("unexpected {:?}", other),
    };
    b.complete(0, failed);
    assert!(b.is_running(1));
    assert!(b.outcome(1).is_none());
    assert_eq!(b.next_step(), BatchStep::Wait);
    assert!(matches!(on_response(Response::Status(200)), WorkerStep::Store));
    b.complete(1, on_stored(StoreResult::Written));
    assert_eq!(b.next_step(), BatchStep::Done);
    assert!(matches!(
        b.outcome(0),
        Some(FetchOutcome::Failed(FetchFailure::Http(404)))
    ));
    assert!(matches!(b.outcome(1), Some(FetchOutcome::Succeeded)));
}

#[test]
fn batch_second_run_requests_nothing() {
    let m = manifest_of("abc123", &["a.bin", "b.bin"]);
    let mut b = Batch::new("https://cdn.example/", &m, 10);
    let mut requests = 0;
    loop {
        match b.next_step() {
            BatchStep::Dispatch(i) => {
                let step = start(true);
                if matches!(step, WorkerStep::Request) {
                    requests += 1;
                }
                match step {
                    WorkerStep::Finish(o) => b.complete(i, o),
                    other => panic!("unexpected {:?}", other),
                }
            }
            BatchStep::Wait => panic!("nothing should be running"),
            BatchStep::Done => break,
        }
    }
    assert_eq!(requests, 0);
    assert_eq!(b.dispatched(), 2);
    assert!(matches!(b.outcome(0), Some(FetchOutcome::Skipped)));
    assert!(matches!(b.outcome(1), Some(FetchOutcome::Skipped)));
}

#[test]
fn parse_manifest_reads_top_level_string_members_only() {
    assert!(is_malformed(parse_manifest("{\"meta\":{\"sha\":\"abc\"},\"files\":[]}")));
    assert!(is_malformed(parse_manifest("{\"sha\":\"abc\",\"files\":[{\"file\":5}]}")));
    assert!(is_malformed(parse_manifest("{\"sha\":\"abc\",\"files\":[\"a.bin\"]}")));
    let m = parse_manifest("{\"files\":[{\"file\":\"z\"},{\"file\":\"y\"}],\"sha\":\"r\",\"x\":null}").unwrap();
    assert_eq!(m.content_id, "r");
    assert_eq!(m.files, vec!["z".to_string(), "y".to_string()]);
}
