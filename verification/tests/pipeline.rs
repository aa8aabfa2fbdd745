use benchmarking_platform::bot_fleet::{BotAction, BotSession};
use benchmarking_platform::builder::{
    dockerfile_content, image_build_plan, plan_zip_entry, BuildAction, BuildSession, EntryAction,
    ExtractAction, ExtractPhase, ExtractSession,
};
use benchmarking_platform::handlers::{PipelineAction, SubmissionPipeline};
use benchmarking_platform::errors::SubmissionError;
use benchmarking_platform::orchestrator::{
    container_plan, mapped_host_port, port_from_parse, PortEntry, RunAction, RunSession,
};
use benchmarking_platform::paths::{join_path, submission_dir};

const BASE: &str = "/tmp/benchmarking_platform/submissions";

const EXPECTED_DOCKERFILE: &str = r#"
FROM ubuntu:24.04
ENV DEBIAN_FRONTEND=noninteractive
RUN apt-get update && apt-get install -y \
    build-essential \
    golang \
    rustc \
    cargo \
    && rm -rf /var/lib/apt/lists/*
COPY . /app
WORKDIR /app
RUN chmod +x build.sh run.sh
RUN ./build.sh
ENTRYPOINT ["./run.sh"]
"#;

#[test]
fn join_agrees_with_std_paths() {
    let cases = [
        ("/tmp", "etc"),
        ("/tmp/", "etc"),
        ("/tmp", "/etc"),
        ("", "a/b"),
        ("base", ""),
        ("/x", "a/b/"),
        ("/x", "../y"),
    ];
    for (base, rel) in cases {
        let expected = std::path::Path::new(base).join(rel);
        assert_eq!(join_path(base, rel), expected.to_str().unwrap(), "{} + {}", base, rel);
    }
    assert_eq!(submission_dir("abc"), format!("{}/abc", BASE));
}

#[test]
fn dockerfile_is_the_fixed_contract() {
    assert_eq!(dockerfile_content(), EXPECTED_DOCKERFILE);
}

#[test]
fn zip_entries_are_planned() {
    match plan_zip_entry("/x", Ok("src/".into())) {
        Ok(EntryAction::CreateDir { path }) => assert_eq!(path, "/x/src/"),
        _ => panic!("expected a directory"),
    }
    match plan_zip_entry("/x", Ok("src/main.go".into())) {
        Ok(EntryAction::WriteFile { parent, path }) => {
            assert_eq!(path, "/x/src/main.go");
            assert_eq!(parent.as_deref(), Some("/x/src"));
        }
        _ => panic!("expected a file"),
    }
    match plan_zip_entry("/x", Ok("run.sh".into())) {
        Ok(EntryAction::WriteFile { parent, path }) => {
            assert_eq!(path, "/x/run.sh");
            assert_eq!(parent.as_deref(), Some("/x"));
        }
        _ => panic!("expected a file"),
    }
    match plan_zip_entry("/x", Err("not utf-8".into())) {
        Err(e) => assert_eq!(e, SubmissionError::BuildError("not utf-8".into())),
        _ => panic!("expected an error"),
    }
}

#[test]
fn build_runs_through_its_stages() {
    let (mut s, a) = BuildSession::start("id1");
    match a {
        BuildAction::Extract { zip_file, extract_to } => {
            assert_eq!(zip_file, format!("{}/id1/submission.zip", BASE));
            assert_eq!(extract_to, format!("{}/id1", BASE));
        }
        _ => panic!("expected extraction"),
    }
    match s.on_extracted(Ok(())) {
        BuildAction::WriteDockerfile { path, content } => {
            assert_eq!(path, format!("{}/id1/Dockerfile", BASE));
            assert_eq!(content, EXPECTED_DOCKERFILE);
        }
        _ => panic!("expected the Dockerfile"),
    }
    match s.on_dockerfile_written(Ok(())) {
        BuildAction::PackContext { dir } => assert_eq!(dir, format!("{}/id1", BASE)),
        _ => panic!("expected packing"),
    }
    assert!(matches!(s.on_context_packed(Ok(())), BuildAction::ConnectDocker));
    match s.on_docker_connected(Ok(())) {
        BuildAction::BuildImage { plan } => {
            assert_eq!(plan.tag, "iicpc_submission:id1");
            assert_eq!(plan.dockerfile, "Dockerfile");
            assert_eq!(plan.platform, "linux/amd64");
            assert!(plan.remove_intermediate);
        }
        _ => panic!("expected the image build"),
    }
    assert!(matches!(s.on_progress(Some(Ok(None))), BuildAction::AwaitProgress));
    assert!(matches!(s.on_progress(None), BuildAction::Finish { outcome: Ok(()) }));
}

#[test]
fn build_failures_end_the_build() {
    let (mut s, _) = BuildSession::start("id2");
    match s.on_extracted(Err(SubmissionError::IoError("gone".into()))) {
        BuildAction::Finish { outcome: Err(e) } => assert_eq!(e, SubmissionError::IoError("gone".into())),
        _ => panic!("expected failure"),
    }
    let (mut s, _) = BuildSession::start("id3");
    s.on_extracted(Ok(()));
    s.on_dockerfile_written(Ok(()));
    s.on_context_packed(Ok(()));
    match s.on_docker_connected(Err("no socket".into())) {
        BuildAction::Finish { outcome: Err(e) } => {
            assert_eq!(e, SubmissionError::BuildError("Docker connection failed: no socket".into()))
        }
        _ => panic!("expected failure"),
    }
    let (mut s, _) = BuildSession::start("id4");
    s.on_extracted(Ok(()));
    s.on_dockerfile_written(Ok(()));
    s.on_context_packed(Ok(()));
    s.on_docker_connected(Ok(()));
    match s.on_progress(Some(Ok(Some("missing build.sh".into())))) {
        BuildAction::Finish { outcome: Err(e) } => {
            assert_eq!(e, SubmissionError::BuildError("Compiler Error: missing build.sh".into()))
        }
        _ => panic!("expected failure"),
    }
    let (mut s, _) = BuildSession::start("id5");
    s.on_extracted(Ok(()));
    s.on_dockerfile_written(Ok(()));
    s.on_context_packed(Ok(()));
    s.on_docker_connected(Ok(()));
    match s.on_progress(Some(Err("hangup".into()))) {
        BuildAction::Finish { outcome: Err(e) } => {
            assert_eq!(e, SubmissionError::BuildError("Build stream error: hangup".into()))
        }
        _ => panic!("expected failure"),
    }
}

#[test]
fn image_plan_tags_by_submission() {
    let plan = image_build_plan("abc");
    assert_eq!(plan.tag, "iicpc_submission:abc");
}

#[test]
fn container_plan_caps_resources() {
    let plan = container_plan("abc");
    assert_eq!(plan.image, "iicpc_submission:abc");
    assert_eq!(plan.image, image_build_plan("abc").tag);
    assert_eq!(plan.name, "run_abc");
    assert_eq!(plan.container_port, "9000/tcp");
    assert_eq!(plan.host_ip, "127.0.0.1");
    assert_eq!(plan.host_port, "0");
    assert_eq!(plan.cpu_quota, 100000);
    assert_eq!(plan.cpu_period, 100000);
    assert_eq!(plan.memory, 536870912);
    assert!(plan.auto_remove && plan.attach_stdout && plan.attach_stderr);
}

fn ports(host: Option<&str>) -> Option<Vec<PortEntry>> {
    Some(vec![
        PortEntry { port: "22/tcp".into(), host_ports: Some(vec![Some("2222".into())]) },
        PortEntry { port: "9000/tcp".into(), host_ports: Some(vec![host.map(str::to_owned)]) },
    ])
}

#[test]
fn host_port_lookup() {
    assert_eq!(mapped_host_port(&ports(Some("49153"))), Ok(49153));
    assert_eq!(mapped_host_port(&ports(Some("+80"))), Ok(80));
    let missing = SubmissionError::BuildError("Failed to find mapped port for 9000/tcp".into());
    assert_eq!(mapped_host_port(&None), Err(missing.clone()));
    assert_eq!(mapped_host_port(&ports(None)), Err(missing.clone()));
    assert_eq!(mapped_host_port(&Some(vec![])), Err(missing.clone()));
    assert_eq!(
        mapped_host_port(&Some(vec![PortEntry { port: "9000/tcp".into(), host_ports: Some(vec![]) }])),
        Err(missing.clone())
    );
    assert_eq!(
        mapped_host_port(&Some(vec![PortEntry { port: "9000/tcp".into(), host_ports: None }])),
        Err(missing)
    );
}

#[test]
fn bad_host_ports_are_reported() {
    assert_eq!(
        mapped_host_port(&ports(Some("abc"))),
        Err(SubmissionError::BuildError("Invalid port mapping: invalid digit found in string".into()))
    );
    assert_eq!(
        mapped_host_port(&ports(Some("70000"))),
        Err(SubmissionError::BuildError(
            "Invalid port mapping: number too large to fit in target type".into()
        ))
    );
    assert_eq!(
        mapped_host_port(&ports(Some(""))),
        Err(SubmissionError::BuildError(
            "Invalid port mapping: cannot parse integer from empty string".into()
        ))
    );
    assert_eq!(port_from_parse(Ok(5)), Ok(5));
    assert_eq!(
        port_from_parse(Err("x".into())),
        Err(SubmissionError::BuildError("Invalid port mapping: x".into()))
    );
}

#[test]
fn run_goes_from_connect_to_exit() {
    let (mut s, a) = RunSession::start("abc");
    assert!(matches!(a, RunAction::ConnectDocker));
    match s.on_docker_connected(Ok(())) {
        RunAction::CreateContainer { plan } => assert_eq!(plan, container_plan("abc")),
        _ => panic!("expected creation"),
    }
    match s.on_created(Ok(())) {
        RunAction::StartContainer { name } => assert_eq!(name, "run_abc"),
        _ => panic!("expected start"),
    }
    match s.on_started(Ok(())) {
        RunAction::InspectContainer { name } => assert_eq!(name, "run_abc"),
        _ => panic!("expected inspection"),
    }
    match s.on_inspected(Ok(ports(Some("32768")))) {
        RunAction::LaunchFleetAndFollowLogs { host_port, name } => {
            assert_eq!(host_port, 32768);
            assert_eq!(name, "run_abc");
        }
        _ => panic!("expected the fleet"),
    }
    match s.on_logs_ended() {
        RunAction::WaitForExit { name, condition } => {
            assert_eq!(name, "run_abc");
            assert_eq!(condition, "not-running");
        }
        _ => panic!("expected waiting"),
    }
    assert!(matches!(s.on_exited(), RunAction::Finish { outcome: Ok(()) }));
}

#[test]
fn run_failures_end_the_run() {
    let (mut s, _) = RunSession::start("abc");
    match s.on_docker_connected(Err("no socket".into())) {
        RunAction::Finish { outcome: Err(e) } => {
            assert_eq!(e, SubmissionError::BuildError("Docker connection failed: no socket".into()))
        }
        _ => panic!("expected failure"),
    }
    let (mut s, _) = RunSession::start("abc");
    s.on_docker_connected(Ok(()));
    match s.on_created(Err("conflict".into())) {
        RunAction::Finish { outcome: Err(e) } => {
            assert_eq!(e, SubmissionError::BuildError("Container creation failed: conflict".into()))
        }
        _ => panic!("expected failure"),
    }
    let (mut s, _) = RunSession::start("abc");
    s.on_docker_connected(Ok(()));
    s.on_created(Ok(()));
    match s.on_started(Err("oom".into())) {
        RunAction::Finish { outcome: Err(e) } => {
            assert_eq!(e, SubmissionError::BuildError("Container start failed: oom".into()))
        }
        _ => panic!("expected failure"),
    }
    let (mut s, _) = RunSession::start("abc");
    s.on_docker_connected(Ok(()));
    s.on_created(Ok(()));
    s.on_started(Ok(()));
    match s.on_inspected(Err("gone".into())) {
        RunAction::Finish { outcome: Err(e) } => {
            assert_eq!(e, SubmissionError::BuildError("Inspect failed: gone".into()))
        }
        _ => panic!("expected failure"),
    }
    let (mut s, _) = RunSession::start("abc");
    s.on_docker_connected(Ok(()));
    s.on_created(Ok(()));
    s.on_started(Ok(()));
    match s.on_inspected(Ok(None)) {
        RunAction::Finish { outcome: Err(e) } => assert_eq!(
            e,
            SubmissionError::BuildError("Failed to find mapped port for 9000/tcp".into())
        ),
        _ => panic!("expected failure"),
    }
}

#[test]
fn bot_address_port_reads_back() {
    for port in [0u16, 7, 9000, 65535] {
        let (_, a) = BotSession::new(0, "127.0.0.1", port, 1);
        match a {
            BotAction::Connect { address, .. } => {
                let text = address.rsplit(':').next().unwrap().to_string();
                assert_eq!(
                    mapped_host_port(&Some(vec![PortEntry {
                        port: "9000/tcp".into(),
                        host_ports: Some(vec![Some(text)]),
                    }])),
                    Ok(port)
                );
            }
            _ => panic!("expected connect"),
        }
    }
}

#[test]
fn extraction_unpacks_every_entry_in_order() {
    let (mut s, a) = ExtractSession::start("/x/submission.zip", "/x");
    match a {
        ExtractAction::OpenArchive { zip_file } => assert_eq!(zip_file, "/x/submission.zip"),
        _ => panic!("expected opening"),
    }
    assert!(matches!(s.on_opened(Ok(2)), ExtractAction::ReadEntryName { index: 0 }));
    match s.on_entry_name(Ok("src/".into())) {
        ExtractAction::Unpack { index: 0, entry: EntryAction::CreateDir { path } } => {
            assert_eq!(path, "/x/src/")
        }
        _ => panic!("expected a directory"),
    }
    assert!(matches!(s.on_unpacked(Ok(())), ExtractAction::ReadEntryName { index: 1 }));
    match s.on_entry_name(Ok("src/a/main.go".into())) {
        ExtractAction::Unpack { index: 1, entry: EntryAction::WriteFile { parent, path } } => {
            assert_eq!(path, "/x/src/a/main.go");
            assert_eq!(parent.as_deref(), Some("/x/src/a"));
        }
        _ => panic!("expected a file"),
    }
    assert!(matches!(s.on_unpacked(Ok(())), ExtractAction::Finish { outcome: Ok(()) }));
    assert_eq!(s.phase, ExtractPhase::Done);
}

#[test]
fn extraction_stops_at_the_first_failure() {
    let (mut s, _) = ExtractSession::start("/x/submission.zip", "/x");
    s.on_opened(Ok(3));
    s.on_entry_name(Ok("a.txt".into()));
    match s.on_unpacked(Err(SubmissionError::IoError("disk full".into()))) {
        ExtractAction::Finish { outcome: Err(e) } => {
            assert_eq!(e, SubmissionError::IoError("disk full".into()))
        }
        _ => panic!("expected failure"),
    }
    assert_eq!(s.index, 0);

    let (mut s, _) = ExtractSession::start("/x/submission.zip", "/x");
    s.on_opened(Ok(1));
    match s.on_entry_name(Err("not utf-8".into())) {
        ExtractAction::Finish { outcome: Err(e) } => {
            assert_eq!(e, SubmissionError::BuildError("not utf-8".into()))
        }
        _ => panic!("expected failure"),
    }

    let (mut s, _) = ExtractSession::start("/x/submission.zip", "/x");
    assert!(matches!(s.on_opened(Ok(0)), ExtractAction::Finish { outcome: Ok(()) }));
    let (mut s, _) = ExtractSession::start("/x/submission.zip", "/x");
    match s.on_opened(Err(SubmissionError::BuildError("Zip error: bad".into()))) {
        ExtractAction::Finish { outcome: Err(e) } => {
            assert_eq!(e, SubmissionError::BuildError("Zip error: bad".into()))
        }
        _ => panic!("expected failure"),
    }
}

#[test]
fn parent_of_plain_entry_is_below_the_directory() {
    for name in ["f", "a/f", "a/b/c/f", "a//f"] {
        match plan_zip_entry("/tmp/dir", Ok(name.to_string())) {
            Ok(EntryAction::WriteFile { parent: Some(p), path }) => {
                assert!(path.starts_with(&p));
                assert!(p == "/tmp/dir" || p.starts_with("/tmp/dir/"), "{}", p);
            }
            _ => panic!("expected a file"),
        }
    }
}

#[test]
fn only_a_successful_build_is_run() {
    let (mut p, a) = SubmissionPipeline::start("s1");
    match a {
        PipelineAction::Build { submission_id } => assert_eq!(submission_id, "s1"),
        _ => panic!("expected a build"),
    }
    match p.on_built(Ok(())) {
        PipelineAction::Run { submission_id } => assert_eq!(submission_id, "s1"),
        _ => panic!("expected a run"),
    }
    assert!(matches!(p.on_run(Ok(())), PipelineAction::Finished));

    let (mut p, _) = SubmissionPipeline::start("s2");
    match p.on_built(Err(SubmissionError::BuildError("Compiler Error: x".into()))) {
        PipelineAction::BuildFailed { error } => {
            assert_eq!(error, SubmissionError::BuildError("Compiler Error: x".into()))
        }
        _ => panic!("expected a failed build"),
    }

    let (mut p, _) = SubmissionPipeline::start("s3");
    p.on_built(Ok(()));
    match p.on_run(Err(SubmissionError::BuildError("Container start failed: x".into()))) {
        PipelineAction::RunFailed { error } => {
            assert_eq!(error, SubmissionError::BuildError("Container start failed: x".into()))
        }
        _ => panic!("expected a failed run"),
    }
}
