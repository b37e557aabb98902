use rediacc_bridge::probe::{distro_description, tool_present, version_from_outcome, EnvironmentInfo};
use rediacc_bridge::resolver::{Attempt, Resolver};
use rediacc_bridge::CommandResult;

fn ok_result(success: bool, output: &str, error: &str) -> CommandResult {
    CommandResult::from_capture(success, output.to_string(), error.to_string())
}

#[test]
fn from_capture_mirrors_exit_status_and_streams() {
    let r = ok_result(true, "all good\n", "");
    assert!(r.success);
    assert_eq!(r.output, "all good\n");
    assert_eq!(r.error, "");

    let r = ok_result(false, "", "boom");
    assert!(!r.success);
    assert_eq!(r.output, "");
    assert_eq!(r.error, "boom");
}

#[test]
fn resolver_falls_back_only_on_spawn_failure() {
    // Candidate A is absent, candidate B spawns and succeeds: the result is
    // B's CommandResult.
    let mut res = Resolver::new(vec!["a".to_string(), "b".to_string()]);
    assert_eq!(res.current().unwrap().as_str(), "a");
    let step = res.record(Attempt::Failed("a: not found".to_string()));
    assert!(step.is_none());
    assert_eq!(res.current().unwrap().as_str(), "b");
    let verdict = res.record(Attempt::Spawned(ok_result(true, "from b", "")));
    let out = verdict.unwrap().unwrap();
    assert!(out.success);
    assert_eq!(out.output, "from b");
    assert!(res.current().is_none());
}

#[test]
fn resolver_keeps_nonzero_exit_without_fallback() {
    // The only candidate spawns but exits non-zero: that CommandResult comes
    // back at once; the failure is execution, not invocation.
    let mut res = Resolver::new(vec!["a".to_string()]);
    let verdict = res.record(Attempt::Spawned(ok_result(false, "", "exit 2")));
    let out = verdict.unwrap().unwrap();
    assert!(!out.success);
    assert_eq!(out.error, "exit 2");
}

#[test]
fn resolver_reports_the_last_spawn_failure() {
    let mut res = Resolver::new(vec!["a".to_string(), "b".to_string()]);
    assert!(res.record(Attempt::Failed("a missing".to_string())).is_none());
    let verdict = res.record(Attempt::Failed("b missing".to_string()));
    let err = verdict.unwrap().unwrap_err();
    assert_eq!(err, "b missing");
}

#[test]
fn presence_collapses_every_failure_to_false() {
    assert!(tool_present(&Ok(ok_result(true, "Python 3.11.2", ""))));
    assert!(!tool_present(&Ok(ok_result(false, "", "usage"))));
    assert!(!tool_present(&Err("no such file or directory".to_string())));
}

#[test]
fn version_is_trimmed_or_explicit_not_found() {
    let v = version_from_outcome(Ok(ok_result(true, "  Python 3.11.2\n", "")));
    assert_eq!(v.unwrap(), "Python 3.11.2");

    let v = version_from_outcome(Err("no such file".to_string()));
    assert_eq!(v.unwrap_err(), "Python not found: no such file");
}

#[test]
fn distro_prefers_the_descriptor_tool() {
    let d = distro_description(
        Some(ok_result(true, "Description:\tUbuntu 22.04 LTS\n", "")),
        Some("PRETTY_NAME=\"ignored\"".to_string()),
    );
    assert_eq!(d, "Description:\tUbuntu 22.04 LTS");
}

#[test]
fn distro_falls_back_to_the_descriptor_file() {
    // The tool is unavailable; the descriptor file answers.
    let content = "NAME=\"Test OS\"\nPRETTY_NAME=\"Test OS 1.0\"\nID=test\n";
    let d = distro_description(None, Some(content.to_string()));
    assert_eq!(d, "Test OS 1.0");

    // The tool spawned but failed; the file still answers.
    let d = distro_description(
        Some(ok_result(false, "", "lsb_release: error")),
        Some(content.to_string()),
    );
    assert_eq!(d, "Test OS 1.0");
}

#[test]
fn distro_yields_the_unknown_sentinel_never_an_error() {
    assert_eq!(distro_description(None, None), "Unknown Linux");
    let no_field = "NAME=\"Test OS\"\nID=test\n";
    assert_eq!(distro_description(None, Some(no_field.to_string())), "Unknown Linux");
    let failed = distro_description(Some(ok_result(false, "", "err")), None);
    assert_eq!(failed, "Unknown Linux");
}

#[test]
fn read_only_checks_are_idempotent() {
    let outcome: Result<CommandResult, String> = Ok(ok_result(true, "Python 3.11.2", ""));
    assert_eq!(tool_present(&outcome), tool_present(&outcome));

    let a = version_from_outcome(Ok(ok_result(true, "Python 3.11.2\n", "")));
    let b = version_from_outcome(Ok(ok_result(true, "Python 3.11.2\n", "")));
    assert_eq!(a, b);

    let content = "PRETTY_NAME=\"Test OS 1.0\"".to_string();
    let d1 = distro_description(None, Some(content.clone()));
    let d2 = distro_description(None, Some(content));
    assert_eq!(d1, d2);

    let e1 = EnvironmentInfo::new("linux".to_string(), "x86_64".to_string(), "unix".to_string());
    let e2 = EnvironmentInfo::new("linux".to_string(), "x86_64".to_string(), "unix".to_string());
    assert_eq!(e1.platform, e2.platform);
    assert_eq!(e1.architecture, e2.architecture);
    assert_eq!(e1.family, e2.family);
}

#[test]
fn environment_info_holds_the_given_strings() {
    let e = EnvironmentInfo::new("linux".to_string(), "aarch64".to_string(), "unix".to_string());
    assert_eq!(e.platform, "linux");
    assert_eq!(e.architecture, "aarch64");
    assert_eq!(e.family, "unix");
}
