use spotifyd_rest::environment::Environment;
use spotifyd_rest::error::{Cause, Error, SubprocessError};
use spotifyd_rest::player_event::PlayerEvent;
use spotifyd_rest::process::{
    run_program, run_program_result, spawn_program, spawn_program_on_event, spawn_program_result,
    Child, ChildStep, OutputEvent, OutputStep, Pipes, ProgramOutput,
};

fn output(success: bool, stdout: &[u8], stderr: &[u8]) -> Result<ProgramOutput, String> {
    Ok(ProgramOutput { success, stdout: stdout.to_vec(), stderr: stderr.to_vec() })
}

fn error(cause: Cause<String, Vec<u8>, String>) -> SubprocessError<String> {
    Error { shell: "sh".to_string(), cmd: "ls".to_string(), cause }
}

#[test]
fn programs_run_in_the_shell() {
    let line = run_program("/bin/sh", "echo hi");
    assert_eq!(line.program, "/bin/sh");
    assert_eq!(line.args, vec!["-c".to_string(), "echo hi".to_string()]);
    assert_eq!(line.env.entries().len(), 0);
    assert!(!line.piped);
}

#[test]
fn spawned_programs_get_variables_and_pipes() {
    let mut env = Environment::new();
    env.insert("A", "1".to_string());
    let line = spawn_program("sh", "ls", env);
    assert_eq!(line.program, "sh");
    assert_eq!(line.args, vec!["-c".to_string(), "ls".to_string()]);
    assert_eq!(line.env.get("A"), Some("1".to_string()));
    assert!(line.piped);
}

#[test]
fn programs_on_events_get_the_event() {
    let line = spawn_program_on_event("sh", "ls", PlayerEvent::VolumeSet { volume: 3 });
    assert_eq!(line.env.get("PLAYER_EVENT"), Some("volumeset".to_string()));
    assert_eq!(line.env.get("VOLUME"), Some("3".to_string()));
    assert_eq!(line.env.entries().len(), 2);
    assert!(line.piped);
}

#[test]
fn output_of_a_good_run_is_returned() {
    assert_eq!(
        run_program_result("sh", "ls", output(true, "caf\u{e9}\n".as_bytes(), b"noise")),
        Ok("caf\u{e9}\n".to_string())
    );
}

#[test]
fn output_that_is_no_text_is_an_error() {
    assert_eq!(
        run_program_result("sh", "ls", output(true, &[0xff], b"")),
        Err(error(Cause::Unknown))
    );
}

#[test]
fn failed_run_tells_what_the_program_said() {
    assert_eq!(
        run_program_result("sh", "ls", output(false, b"out", b"no such file")),
        Err(error(Cause::Message("no such file".to_string())))
    );
}

#[test]
fn failed_run_with_unreadable_message() {
    assert_eq!(
        run_program_result("sh", "ls", output(false, b"out", &[0xc3, 0x28])),
        Err(error(Cause::Unknown))
    );
}

#[test]
fn program_that_cannot_be_run() {
    assert_eq!(
        run_program_result("sh", "ls", Err("no shell".to_string())),
        Err(error(Cause::Source("no shell".to_string())))
    );
}

fn child() -> Child<String, u32> {
    Child::new("ls".to_string(), 17, "sh".to_string())
}

type Step = ChildStep<String>;

const BOTH: Pipes = Pipes { stdout: true, stderr: true };

#[test]
fn started_program_is_handed_over() {
    let started: Result<u32, String> = Ok(17);
    assert_eq!(spawn_program_result("sh", "ls", started), Ok(child()));
    let child = child();
    assert_eq!((child.cmd, child.inner, child.shell), ("ls".to_string(), 17, "sh".to_string()));
}

#[test]
fn program_that_cannot_be_started() {
    let started: Result<u32, String> = Err("no shell".to_string());
    assert_eq!(
        spawn_program_result("sh", "ls", started),
        Err(error(Cause::Source("no shell".to_string())))
    );
}

#[test]
fn good_child_is_copied_and_flushed() {
    let child = child();
    let step: Step = child.wait(Ok(true), BOTH);
    assert_eq!(step, OutputStep::CopyStdout);
    let step: Step = child.resume_output(OutputEvent::Copied(Ok(12)));
    assert_eq!(step, OutputStep::FlushStdout);
    let step: Step = child.resume_output(OutputEvent::Flushed(Ok(())));
    assert_eq!(step, OutputStep::Finished(Ok(())));
}

#[test]
fn failed_child_reports_its_stderr() {
    let child = child();
    let step: Step = child.wait(Ok(false), BOTH);
    assert_eq!(step, OutputStep::ReadStderr);
    let step: Step = child.resume_output(OutputEvent::StderrRead(Ok(b"oops".to_vec())));
    assert_eq!(step, OutputStep::Finished(Err(error(Cause::Message("oops".to_string())))));
}

#[test]
fn failed_child_reports_text_of_any_script() {
    let bytes = "caf\u{e9}".as_bytes().to_vec();
    let step: Step = child().resume_output(OutputEvent::StderrRead(Ok(bytes)));
    assert_eq!(step, OutputStep::Finished(Err(error(Cause::Message("caf\u{e9}".to_string())))));
    let step: Step = child().resume_output(OutputEvent::StderrRead(Ok(Vec::new())));
    assert_eq!(step, OutputStep::Finished(Err(error(Cause::Message(String::new())))));
}

#[test]
fn failed_child_reports_stderr_that_is_no_text() {
    let bytes = vec![b'o', 0xff, b'o'];
    let step: Step = child().resume_output(OutputEvent::StderrRead(Ok(bytes.clone())));
    assert_eq!(step, OutputStep::Finished(Err(error(Cause::Output(bytes)))));
}

#[test]
fn errors_of_the_system_are_reported() {
    let child = child();
    let failed = || OutputStep::Finished(Err(error(Cause::Source("io".to_string()))));
    let io = || "io".to_string();
    let none = Pipes { stdout: false, stderr: false };
    assert_eq!(child.wait(Err(io()), none), failed());
    assert_eq!(child.try_wait(Err(io()), none), Some(failed()));
    assert_eq!(child.resume_output(OutputEvent::Copied(Err(io()))), failed());
    assert_eq!(child.resume_output(OutputEvent::Flushed(Err(io()))), failed());
    assert_eq!(child.resume_output(OutputEvent::StderrRead(Err(io()))), failed());
}

#[test]
fn running_child_is_left_alone() {
    let child = child();
    let step: Option<Step> = child.try_wait(Ok(None), Pipes { stdout: false, stderr: false });
    assert_eq!(step, None);
    let step: Option<Step> = child.try_wait(Ok(Some(true)), BOTH);
    assert_eq!(step, Some(OutputStep::CopyStdout));
    let step: Option<Step> = child.try_wait(Ok(Some(false)), BOTH);
    assert_eq!(step, Some(OutputStep::ReadStderr));
    let step: Step = child.write_output(true, BOTH);
    assert_eq!(step, OutputStep::CopyStdout);
}

#[test]
fn error_constructors() {
    let e: SubprocessError<String> = Error::subprocess("sh", "ls");
    assert_eq!(e, error(Cause::Unknown));
    let e: SubprocessError<String> = Error::subprocess_with_str("sh", "ls", "m");
    assert_eq!(e, error(Cause::Message("m".to_string())));
    let e: SubprocessError<String> = Error::subprocess_with_output("sh", "ls", vec![0xff]);
    assert_eq!(e, error(Cause::Output(vec![0xff])));
    assert_eq!(
        Error::subprocess_with_err("sh", "ls", "e".to_string()),
        error(Cause::Source("e".to_string()))
    );
}

#[test]
fn one_pipe_is_enough() {
    let out = Pipes { stdout: true, stderr: false };
    let err = Pipes { stdout: false, stderr: true };
    assert!(out.can_serve(true) && !out.can_serve(false));
    assert!(!err.can_serve(true) && err.can_serve(false));
    let step: Step = child().write_output(true, out);
    assert_eq!(step, OutputStep::CopyStdout);
    let step: Step = child().write_output(false, err);
    assert_eq!(step, OutputStep::ReadStderr);
}

#[test]
fn process_is_given_back() {
    assert_eq!(child().into_inner(), 17);
}
