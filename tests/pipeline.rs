use errorpal::error::Error;
use errorpal::executable::{advance, kind_of_extension, Executable, ExecutableType, ProcessOutput, Stage, Step};
use errorpal::outcome::{case_message, classify, diffable, failure_message, Message};

fn out(success: bool, stdout: &str, stderr: &str) -> ProcessOutput {
    ProcessOutput { success, stdout: stdout.to_string(), stderr: stderr.to_string() }
}

/// Drives the stage decisions over the given invocation results, returning
/// the run's result and the stages invoked.
fn drive(outputs: &[ProcessOutput]) -> (Result<String, Error>, Vec<Stage>) {
    let mut stages = Vec::new();
    let mut step = Step::Invoke(Stage::Compile);
    let mut next = 0;
    loop {
        match step {
            Step::Invoke(stage) => {
                stages.push(stage);
                step = advance(stage, outputs[next].clone());
                next += 1;
            }
            Step::Finished(r) => return (r, stages),
        }
    }
}

fn staged_case(outputs: &[ProcessOutput], expected: &str) -> Message {
    case_message(Ok(()), Some(drive(outputs).0), expected)
}

#[test]
fn accepted_when_output_matches() {
    assert_eq!(classify("42\n".to_string(), "42\n"), Message::Accepted);
}

#[test]
fn wrong_answer_carries_output() {
    assert_eq!(classify("43\n".to_string(), "42\n"), Message::WrongAnswer("43\n".to_string()));
}

#[test]
fn classify_same_text_is_accepted() {
    for x in ["", "1\n2\n3\n", "a b  c\n\n", "no newline"] {
        assert_eq!(classify(x.to_string(), x), Message::Accepted);
    }
}

#[test]
fn classify_differing_lines_is_wrong() {
    assert_eq!(classify("1\n2\n".to_string(), "1\n3\n"), Message::WrongAnswer("1\n2\n".to_string()));
    assert_eq!(classify("1\n".to_string(), "1\n2\n"), Message::WrongAnswer("1\n".to_string()));
    assert_eq!(classify("".to_string(), "x\n"), Message::WrongAnswer("".to_string()));
    assert_eq!(classify("1 \n".to_string(), "1\n"), Message::WrongAnswer("1 \n".to_string()));
}

#[test]
fn classify_ignores_line_terminators() {
    assert_eq!(classify("42".to_string(), "42\n"), Message::Accepted);
    assert_eq!(classify("a\r\nb\r\n".to_string(), "a\nb\n"), Message::Accepted);
}

#[test]
fn compile_failure_stops_the_run() {
    let (r, stages) = drive(&[out(false, "", "syntax error")]);
    assert_eq!(stages, vec![Stage::Compile]);
    assert_eq!(r, Err(Error::RuntimeError("".to_string(), "syntax error".to_string())));
    let m = failure_message(r.unwrap_err());
    assert!(matches!(m, Message::RuntimeError(_, ref e) if e == "syntax error"));
}

#[test]
fn link_failure_is_link_error() {
    let (r, stages) = drive(&[out(true, "c", ""), out(false, "l", "undefined")]);
    assert_eq!(stages, vec![Stage::Compile, Stage::Link]);
    assert_eq!(r, Err(Error::LinkError("l".to_string(), "undefined".to_string())));
    assert_eq!(failure_message(r.unwrap_err()), Message::LinkError("l".to_string(), "undefined".to_string()));
}

#[test]
fn execution_failure_is_object_error() {
    let (r, stages) = drive(&[out(true, "", ""), out(true, "", ""), out(false, "partial", "segfault")]);
    assert_eq!(stages, vec![Stage::Compile, Stage::Link, Stage::Execute]);
    assert_eq!(r, Err(Error::ObjectError("partial".to_string(), "segfault".to_string())));
    assert_eq!(
        failure_message(r.unwrap_err()),
        Message::ObjectError("partial".to_string(), "segfault".to_string())
    );
}

#[test]
fn successful_run_returns_interpreter_output() {
    let (r, stages) = drive(&[out(true, "compiled", ""), out(true, "linked", ""), out(true, "42\n", "")]);
    assert_eq!(stages, vec![Stage::Compile, Stage::Link, Stage::Execute]);
    assert_eq!(r, Ok("42\n".to_string()));
}

#[test]
fn same_run_twice_gives_same_outcome() {
    let runs: Vec<Vec<ProcessOutput>> = vec![
        vec![out(false, "", "syntax error")],
        vec![out(true, "", ""), out(false, "", "x")],
        vec![out(true, "", ""), out(true, "", ""), out(true, "43\n", "")],
        vec![out(true, "", ""), out(true, "", ""), out(true, "42\n", "")],
    ];
    for outputs in &runs {
        assert_eq!(staged_case(outputs, "42\n"), staged_case(outputs, "42\n"));
    }
}

#[test]
fn other_failures_are_reported_by_text() {
    assert_eq!(failure_message(Error::IoError("missing".to_string())), Message::OtherError("io error".to_string()));
    assert_eq!(failure_message(Error::InvalidPath), Message::OtherError("wrong path".to_string()));
    assert_eq!(failure_message(Error::Unknown), Message::OtherError("unknown data store error".to_string()));
}

#[test]
fn error_texts() {
    assert_eq!(Error::IoError("x".to_string()).message(), "io error");
    assert_eq!(Error::ObjectError("".to_string(), "".to_string()).message(), "object error");
    assert_eq!(Error::LinkError("".to_string(), "".to_string()).message(), "link error");
    assert_eq!(Error::RuntimeError("".to_string(), "".to_string()).message(), "runtime error");
    assert_eq!(Error::InvalidPath.message(), "wrong path");
    assert_eq!(Error::Unknown.message(), "unknown data store error");
}

#[test]
fn kinds_by_extension() {
    assert_eq!(kind_of_extension(None), Ok(ExecutableType::Exe));
    assert_eq!(kind_of_extension(Some("exe".to_string())), Ok(ExecutableType::Exe));
    assert_eq!(kind_of_extension(Some("jar".to_string())), Ok(ExecutableType::Jar));
    assert_eq!(kind_of_extension(Some("EXE".to_string())).unwrap_err(), Error::InvalidPath);
}

#[test]
fn executable_from_path() {
    let x = Executable::new("build/compiler.jar".to_string()).unwrap();
    assert_eq!(x.kind(), ExecutableType::Jar);
    assert_eq!(x.path(), "build/compiler.jar");
    assert_eq!(Executable::new("build/compiler.exe".to_string()).unwrap().kind(), ExecutableType::Exe);
    assert_eq!(Executable::new("build/compiler".to_string()).unwrap().kind(), ExecutableType::Exe);
    assert_eq!(Executable::new("build/compiler.py".to_string()).unwrap_err(), Error::InvalidPath);
}

#[test]
fn native_run_starts_with_compiler() {
    let x = Executable::new("compiler".to_string()).unwrap();
    assert!(matches!(x.first_step(), Step::Invoke(Stage::Compile)));
}

#[test]
fn case_with_matching_output_is_accepted() {
    let outputs = [out(true, "", ""), out(true, "", ""), out(true, "42\n", "")];
    assert_eq!(staged_case(&outputs, "42\n"), Message::Accepted);
}

#[test]
fn case_with_other_output_is_wrong_answer() {
    let outputs = [out(true, "", ""), out(true, "", ""), out(true, "43\n", "")];
    assert_eq!(staged_case(&outputs, "42\n"), Message::WrongAnswer("43\n".to_string()));
}

#[test]
fn case_with_failing_compiler_is_runtime_error() {
    let outputs = [out(false, "", "syntax error")];
    assert_eq!(
        staged_case(&outputs, "42\n"),
        Message::RuntimeError("".to_string(), "syntax error".to_string())
    );
}

#[test]
fn case_failures_keep_their_stage() {
    let link = [out(true, "", ""), out(false, "o", "e")];
    assert_eq!(staged_case(&link, ""), Message::LinkError("o".to_string(), "e".to_string()));
    let exec = [out(true, "", ""), out(true, "", ""), out(false, "o", "e")];
    assert_eq!(staged_case(&exec, ""), Message::ObjectError("o".to_string(), "e".to_string()));
}

#[test]
fn staging_failure_is_other_error() {
    let m = case_message(Err(Error::IoError("no such file".to_string())), None, "");
    assert_eq!(m, Message::OtherError("io error".to_string()));
}

#[test]
fn line_counts_within_limit() {
    assert!(diffable(""));
    assert!(diffable("1\n2\n3"));
    assert!(diffable(&"\n".repeat(1000)));
}
