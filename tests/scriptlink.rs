use chrono::TimeZone;
use scriptlink::report::{
    processing_line, result_file_name, result_file_name_now, saved_notice, status_label,
    summary_line, watching_line,
};
use scriptlink::script::{plan_event, plan_named, quote, script_kind, ScriptKind, ScriptResult, Status};
use scriptlink::stamp::Timestamp;

fn at(year: i32, month: u32, day: u32, hour: u32, minute: u32, second: u32) -> Timestamp {
    Timestamp { year, month, day, hour, minute, second }
}

#[test]
fn kind_by_extension() {
    assert_eq!(script_kind("build.sh"), Some(ScriptKind::Shell));
    assert_eq!(script_kind("deploy.ps1"), Some(ScriptKind::PowerShell));
    assert_eq!(script_kind("a.b.sh"), Some(ScriptKind::Shell));
    assert_eq!(script_kind("notes.txt"), None);
    assert_eq!(script_kind("Makefile"), None);
    assert_eq!(script_kind("sh"), None);
    assert_eq!(script_kind(""), None);
}

#[test]
fn extension_is_case_sensitive() {
    assert_eq!(script_kind("build.SH"), None);
    assert_eq!(script_kind("deploy.PS1"), None);
    assert_eq!(script_kind("x.Sh"), None);
}

#[test]
fn hidden_file_without_other_dot_has_no_extension() {
    assert_eq!(script_kind(".sh"), None);
    assert_eq!(script_kind(".profile.sh"), Some(ScriptKind::Shell));
    assert_eq!(script_kind("run.sh."), None);
    assert_eq!(script_kind("run.shx"), None);
}

#[test]
fn only_scripts_are_planned() {
    let job = plan_event("/home/dev/project/run me.sh").unwrap();
    assert_eq!(job.kind, ScriptKind::Shell);
    assert_eq!(job.name, "run me.sh");
    assert_eq!(job.path, "/home/dev/project/run me.sh");
    let job = plan_event("scripts/setup.ps1").unwrap();
    assert_eq!(job.kind, ScriptKind::PowerShell);
    assert_eq!(job.name, "setup.ps1");
    assert!(plan_event("/home/dev/project/readme.md").is_none());
    assert!(plan_event("/home/dev/project/sh").is_none());
    assert!(plan_event("/").is_none());
    assert!(plan_named("a/b.sh", "b.sh").is_some());
    assert!(plan_named("a/b.py", "b.py").is_none());
}

#[test]
fn shell_invocation() {
    let job = plan_event("/tmp/w/hello.sh").unwrap();
    let inv = job.invocation();
    assert_eq!(inv.program, "bash");
    assert_eq!(inv.args, vec!["/tmp/w/hello.sh".to_string()]);
}

#[test]
fn powershell_invocation() {
    let job = plan_event("/tmp/my dir/hello.ps1").unwrap();
    let inv = job.invocation();
    assert_eq!(inv.program, "powershell");
    assert_eq!(
        inv.args,
        vec![
            "-NoProfile".to_string(),
            "-ExecutionPolicy".to_string(),
            "Bypass".to_string(),
            "-Command".to_string(),
            "& \"/tmp/my dir/hello.ps1\"".to_string(),
        ]
    );
}

#[test]
fn quoting() {
    assert_eq!(quote("/a b/c.sh"), "\"/a b/c.sh\"");
    assert_eq!(quote(""), "\"\"");
}

#[test]
fn exit_zero_keeps_stdout() {
    let r = ScriptResult::settle(Some(0), b"hello", b"warn");
    assert_eq!(r.status, Status::Success);
    assert_eq!(r.output, "hello");
}

#[test]
fn exit_nonzero_keeps_stderr() {
    let r = ScriptResult::settle(Some(1), b"partial", b"boom");
    assert_eq!(r.status, Status::Failure);
    assert_eq!(r.output, "boom");
    let r = ScriptResult::settle(Some(-3), b"", b"");
    assert_eq!(r.status, Status::Failure);
    assert_eq!(r.output, "");
}

#[test]
fn killed_by_signal_is_failure() {
    let r = ScriptResult::settle(None, b"out", b"killed");
    assert_eq!(r.status, Status::Failure);
    assert_eq!(r.output, "killed");
}

#[test]
fn invalid_bytes_are_replaced() {
    let r = ScriptResult::settle(Some(0), &[b'a', 0xff, b'b'], b"");
    assert_eq!(r.output, "a\u{FFFD}b");
}

#[test]
fn timestamp_text() {
    assert_eq!(at(2024, 3, 5, 7, 8, 9).to_text(), "2024-03-05T07-08-09");
    assert_eq!(at(1999, 12, 31, 23, 59, 59).to_text(), "1999-12-31T23-59-59");
    assert_eq!(at(7, 1, 1, 0, 0, 0).to_text(), "0007-01-01T00-00-00");
    assert_eq!(at(12345, 6, 1, 0, 0, 0).to_text(), "+12345-06-01T00-00-00");
    assert_eq!(at(-5, 6, 1, 0, 0, 0).to_text(), "-0005-06-01T00-00-00");
    assert_eq!(at(-262144, 1, 1, 0, 0, 0).to_text(), "-262144-01-01T00-00-00");
}

#[test]
fn timestamp_text_agrees_with_chrono() {
    for &(y, mo, d, h, mi, s) in &[(2023, 11, 2, 14, 5, 0), (10000, 2, 29, 1, 2, 3), (-44, 3, 15, 12, 0, 30)] {
        let c = chrono::Utc.with_ymd_and_hms(y, mo, d, h, mi, s).unwrap();
        let expected = c.format("%Y-%m-%dT%H-%M-%S").to_string();
        assert_eq!(at(y, mo, d, h, mi, s).to_text(), expected);
    }
}

#[test]
fn result_file_names() {
    let t = at(2024, 3, 5, 7, 8, 9);
    assert_eq!(
        result_file_name("hello.sh", &t, Status::Success),
        "results/hello.sh_2024-03-05T07-08-09_OK.txt"
    );
    assert_eq!(
        result_file_name("fail.ps1", &t, Status::Failure),
        "results/fail.ps1_2024-03-05T07-08-09_ERR.txt"
    );
    assert_eq!(status_label(Status::Success), "OK");
    assert_eq!(status_label(Status::Failure), "ERR");
}

#[test]
fn result_file_name_now_has_pattern() {
    let n = result_file_name_now("job.sh", Status::Failure);
    assert!(n.starts_with("results/job.sh_"));
    assert!(n.ends_with("_ERR.txt"));
    let stamp = &n["results/job.sh_".len()..n.len() - "_ERR.txt".len()];
    assert_eq!(stamp.len(), 19);
    for (i, c) in stamp.chars().enumerate() {
        match i {
            4 | 7 | 13 | 16 => assert_eq!(c, '-'),
            10 => assert_eq!(c, 'T'),
            _ => assert!(c.is_ascii_digit()),
        }
    }
}

#[test]
fn hello_script_result() {
    let r = ScriptResult::settle(Some(0), b"hello", b"");
    let name = result_file_name_now("hello.sh", r.status);
    assert_eq!(r.output, "hello");
    assert!(name.ends_with("_OK.txt"));
}

#[test]
fn boom_script_result() {
    let r = ScriptResult::settle(Some(1), b"", b"boom");
    let name = result_file_name_now("boom.sh", r.status);
    assert_eq!(r.output, "boom");
    assert!(name.ends_with("_ERR.txt"));
}

#[test]
fn console_lines() {
    let r = ScriptResult::settle(Some(0), b"hi\n", b"");
    assert_eq!(summary_line(&r, "a.sh"), "OK: a.sh: hi\n");
    let n = saved_notice(Status::Success, "results/a.txt");
    assert_eq!(n.text, "Results saved in results/a.txt");
    assert!(!n.alert);
    let n = saved_notice(Status::Failure, "results/b.txt");
    assert_eq!(n.text, "Error executing script, results saved in results/b.txt");
    assert!(n.alert);
    assert_eq!(watching_line("."), "Watching for changes in .");
    assert_eq!(processing_line("/x/y.sh"), "Processing file: \"/x/y.sh\"");
}
