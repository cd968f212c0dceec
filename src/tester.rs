use vstd::prelude::*;
use crate::discover::{ListedFile, TestPoint, discover, points_of};
use crate::error::Error;
use crate::executable::{Executable, ProcessOutput, Stage, path_extension, kind_for, run_from, lemma_stage_failure_mapping};
use crate::outcome::{Message, classification, case_events_ok, case_message, case_message_is};

verus! {

/// The harness: where the cases come from, the working directory they are
/// run in, the cases found, and the compiler under test.
pub struct Tester {
    test_source_folder: String,
    cwd: String,
    test_points: Vec<TestPoint>,
    executable: Executable,
}

/// The report on one finished case: its 1-based position, where its program
/// source lies, and its outcome.
#[derive(Debug)]
pub struct Info {
    percentage: i32,
    folder: String,
    testfile: String,
    message: Message,
}

/// A run over the cases of a tester, reporting them one at a time in order.
pub struct Session {
    cwd: String,
    test_points: Vec<TestPoint>,
    executable: Executable,
    done: usize,
}

impl Tester {
    pub closed spec fn spec_points(&self) -> Seq<TestPoint> {
        self.test_points@
    }

    pub closed spec fn spec_executable(&self) -> Executable {
        self.executable
    }

    pub closed spec fn spec_cwd(&self) -> Seq<char> {
        self.cwd@
    }

    pub closed spec fn spec_source_folder(&self) -> Seq<char> {
        self.test_source_folder@
    }

    /// The cases found, in walk order.
    pub fn test_points(&self) -> (r: &Vec<TestPoint>)
        ensures
            r@ == self.spec_points(),
    {
        &self.test_points
    }

    /// The folder the cases were found in.
    pub fn test_source_folder(&self) -> (r: &str)
        ensures
            r@ == self.spec_source_folder(),
    {
        self.test_source_folder.as_str()
    }

    /// Adds the cases that a walk of the test tree describes, in walk order.
    pub fn load_test_points(&mut self, files: &Vec<ListedFile>)
        ensures
            final(self).spec_points().take(old(self).spec_points().len() as int) == old(self).spec_points(),
            points_of(final(self).spec_points().skip(old(self).spec_points().len() as int), files@),
            final(self).spec_executable() == old(self).spec_executable(),
            final(self).spec_cwd() == old(self).spec_cwd(),
            final(self).spec_source_folder() == old(self).spec_source_folder(),
    {
        let ghost before = self.test_points@;
        let mut found = discover(files);
        let ghost added = found@;
        self.test_points.append(&mut found);
        assert(self.test_points@.take(before.len() as int) == before);
        assert(self.test_points@.skip(before.len() as int) == added);
    }

    /// A tester over the cases that `files`, a walk of `test_source_folder`,
    /// describes, run in `cwd` against the compiler at `executable`; fails
    /// with `InvalidPath` when the compiler's extension is not supported.
    pub fn new(test_source_folder: String, cwd: String, executable: String, files: &Vec<ListedFile>) -> (r: Result<Self, Error>)
        ensures
            match kind_for(path_extension(executable@)) {
                Ok(t) => r matches Ok(x) && x.spec_executable().spec_kind() == t
                    && x.spec_executable().spec_path() == executable@
                    && x.spec_cwd() == cwd@
                    && x.spec_source_folder() == test_source_folder@
                    && points_of(x.spec_points(), files@),
                Err(e) => r == Err::<Self, Error>(e),
            },
    {
        let executable = match Executable::new(executable) {
            Ok(x) => x,
            Err(e) => return Err(e),
        };
        let mut result = Tester { test_source_folder, cwd, test_points: Vec::new(), executable };
        result.load_test_points(files);
        assert(result.test_points@.skip(0) == result.test_points@);
        Ok(result)
    }

    /// Starts a run over all cases: the number of cases, and the session that
    /// reports them in order.
    pub fn start(self) -> (r: (i32, Session))
        requires
            self.spec_points().len() <= i32::MAX,
        ensures
            r.0 == self.spec_points().len(),
            r.1.spec_points() == self.spec_points(),
            r.1.spec_done() == 0,
            r.1.spec_cwd() == self.spec_cwd(),
            r.1.spec_executable() == self.spec_executable(),
            r.1.wf(),
    {
        let total = self.test_points.len() as i32;
        let Tester { test_source_folder: _, cwd, test_points, executable } = self;
        (total, Session { cwd, test_points, executable, done: 0 })
    }
}

/// `info` reports case `k` of `points`, which ended with `m`.
pub open spec fn is_report(info: Info, points: Seq<TestPoint>, k: int, m: Message) -> bool {
    &&& info.spec_percentage() == k + 1
    &&& info.spec_folder() == points[k].folder@
    &&& info.spec_testfile() == points[k].testfile@
    &&& info.spec_message() == m
}

/// Reporting `m` took session `before` to `after` and gave `info`.
pub open spec fn reported(before: Session, m: Message, after: Session, info: Info) -> bool {
    &&& before.spec_done() < before.spec_points().len()
    &&& after.spec_points() == before.spec_points()
    &&& after.spec_done() == before.spec_done() + 1
    &&& after.wf()
    &&& is_report(info, before.spec_points(), before.spec_done() as int, m)
}

impl Session {
    pub closed spec fn spec_points(&self) -> Seq<TestPoint> {
        self.test_points@
    }

    pub closed spec fn spec_done(&self) -> nat {
        self.done as nat
    }

    pub closed spec fn spec_cwd(&self) -> Seq<char> {
        self.cwd@
    }

    pub closed spec fn spec_executable(&self) -> Executable {
        self.executable
    }

    /// No more cases were reported than there are, and their count fits the
    /// reports' position field.
    pub closed spec fn wf(&self) -> bool {
        self.done <= self.test_points@.len() <= i32::MAX
    }

    /// Every case has been reported.
    pub open spec fn exhausted(&self) -> bool {
        self.spec_done() == self.spec_points().len()
    }

    /// The case to run next, if any is left.
    pub fn current(&self) -> (r: Option<&TestPoint>)
        requires
            self.wf(),
        ensures
            self.exhausted() ==> r is None,
            !self.exhausted() ==> r == Some(&self.spec_points()[self.spec_done() as int]),
    {
        if self.done < self.test_points.len() {
            Some(&self.test_points[self.done])
        } else {
            None
        }
    }

    /// Whether every case has been reported.
    pub fn is_done(&self) -> (r: bool)
        requires
            self.wf(),
        ensures
            r == self.exhausted(),
    {
        self.done >= self.test_points.len()
    }

    /// The working directory the cases are staged in.
    pub fn cwd(&self) -> (r: &str)
        ensures
            r@ == self.spec_cwd(),
    {
        self.cwd.as_str()
    }

    /// The compiler under test.
    pub fn executable(&self) -> (r: &Executable)
        ensures
            *r == self.spec_executable(),
    {
        &self.executable
    }

    /// Decides the current case's outcome from its own events (how staging
    /// went, how the run went if there was one, the expected output) and
    /// reports it, moving on to the next case whatever the outcome.
    pub fn report_case(&mut self, staged: Result<(), Error>, run: Option<Result<String, Error>>, expected: &str) -> (r: Info)
        requires
            old(self).wf(),
            !old(self).exhausted(),
            case_events_ok(staged, run, expected@),
        ensures
            reported(*old(self), r.spec_message(), *final(self), r),
            case_message_is(staged, run, expected@, r.spec_message()),
            final(self).spec_cwd() == old(self).spec_cwd(),
            final(self).spec_executable() == old(self).spec_executable(),
    {
        let message = case_message(staged, run, expected);
        self.report(message)
    }

    /// Records that the current case ended with `message` and moves on to the
    /// next: the report carries the case's 1-based position and file.
    pub fn report(&mut self, message: Message) -> (r: Info)
        requires
            old(self).wf(),
            !old(self).exhausted(),
        ensures
            reported(*old(self), message, *final(self), r),
            final(self).spec_cwd() == old(self).spec_cwd(),
            final(self).spec_executable() == old(self).spec_executable(),
    {
        let p = &self.test_points[self.done];
        let info = Info {
            percentage: (self.done + 1) as i32,
            folder: p.folder.clone(),
            testfile: p.testfile.clone(),
            message,
        };
        self.done = self.done + 1;
        info
    }
}

impl Info {
    pub closed spec fn spec_percentage(&self) -> int {
        self.percentage as int
    }

    pub closed spec fn spec_folder(&self) -> Seq<char> {
        self.folder@
    }

    pub closed spec fn spec_testfile(&self) -> Seq<char> {
        self.testfile@
    }

    pub closed spec fn spec_message(&self) -> Message {
        self.message
    }

    /// The 1-based position of the case in the run.
    pub fn percentage(&self) -> (r: i32)
        ensures
            r == self.spec_percentage(),
    {
        self.percentage
    }

    /// The folder of the case's program source.
    pub fn folder(&self) -> (r: &str)
        ensures
            r@ == self.spec_folder(),
    {
        self.folder.as_str()
    }

    /// The file name of the case's program source.
    pub fn testfile(&self) -> (r: &str)
        ensures
            r@ == self.spec_testfile(),
    {
        self.testfile.as_str()
    }

    /// The outcome of the case.
    pub fn message(&self) -> (r: &Message)
        ensures
            *r == self.spec_message(),
    {
        &self.message
    }
}

proof fn lemma_sessions_advance(sessions: Seq<Session>, messages: Seq<Message>, infos: Seq<Info>, k: int)
    requires
        sessions.len() == infos.len() + 1,
        messages.len() == infos.len(),
        sessions[0].spec_done() == 0,
        forall|j: int| 0 <= j < infos.len() ==> reported(sessions[j], messages[j], sessions[j + 1], #[trigger] infos[j]),
        0 <= k < sessions.len(),
    ensures
        sessions[k].spec_points() == sessions[0].spec_points(),
        sessions[k].spec_done() == k,
    decreases k,
{
    if k > 0 {
        lemma_sessions_advance(sessions, messages, infos, k - 1);
        assert(reported(sessions[k - 1], messages[k - 1], sessions[k], infos[k - 1]));
    }
}

/// A run reports every case exactly once and in order: from the fresh
/// session that `start` returned with `total`, reporting one case after
/// another until the session is exhausted gives exactly `total` reports, the
/// k-th of them on the k-th case with position k + 1.
pub proof fn lemma_reports_cover_cases(sessions: Seq<Session>, messages: Seq<Message>, infos: Seq<Info>, total: int)
    requires
        sessions.len() == infos.len() + 1,
        messages.len() == infos.len(),
        sessions[0].wf(),
        sessions[0].spec_done() == 0,
        total == sessions[0].spec_points().len(),
        forall|k: int| 0 <= k < infos.len() ==> reported(sessions[k], messages[k], sessions[k + 1], #[trigger] infos[k]),
        sessions.last().exhausted(),
    ensures
        infos.len() == total,
        forall|k: int| 0 <= k < infos.len() ==> is_report(#[trigger] infos[k], sessions[0].spec_points(), k, messages[k]),
{
    lemma_sessions_advance(sessions, messages, infos, infos.len() as int);
    assert forall|k: int| 0 <= k < infos.len() implies is_report(#[trigger] infos[k], sessions[0].spec_points(), k, messages[k]) by {
        lemma_sessions_advance(sessions, messages, infos, k);
        assert(reported(sessions[k], messages[k], sessions[k + 1], infos[k]));
    }
}

/// `m` is the outcome of a staged case whose invocations gave `outs` in
/// turn, and whose expected output is `expected`.
pub open spec fn case_outcome(outs: Seq<ProcessOutput>, expected: Seq<char>, m: Message) -> bool {
    match run_from(Stage::Compile, outs) {
        Some((r, _)) => case_message_is(Ok(()), Some(r), expected, m),
        None => false,
    }
}

proof fn lemma_run_errors(stage: Stage, outs: Seq<ProcessOutput>)
    ensures
        run_from(stage, outs) matches Some((Err(e), _)) ==> (e is RuntimeError || e is LinkError || e is ObjectError),
    decreases outs.len(),
{
    if outs.len() > 0 {
        lemma_run_errors(Stage::Link, outs.drop_first());
        lemma_run_errors(Stage::Execute, outs.drop_first());
    }
}

/// Running a case twice against tools that behave the same both times gives
/// the same outcome.
pub proof fn lemma_outcome_deterministic(outs: Seq<ProcessOutput>, expected: Seq<char>, m1: Message, m2: Message)
    requires
        case_outcome(outs, expected, m1),
        case_outcome(outs, expected, m2),
    ensures
        m1 == m2,
{
    lemma_run_errors(Stage::Compile, outs);
}

/// The outcome of a staged case follows the first stage that fails: a
/// failing compiler gives `RuntimeError` with its output, a failing linker
/// `LinkError`, a failing interpreter `ObjectError`; when all succeed the
/// interpreter's output is classified against the expected one.
pub proof fn lemma_case_stage_mapping(outs: Seq<ProcessOutput>, expected: Seq<char>, m: Message)
    requires
        outs.len() == 3,
        case_outcome(outs, expected, m),
    ensures
        !outs[0].success ==> m == Message::RuntimeError(outs[0].stdout, outs[0].stderr),
        outs[0].success && !outs[1].success ==> m == Message::LinkError(outs[1].stdout, outs[1].stderr),
        outs[0].success && outs[1].success && !outs[2].success ==> m == Message::ObjectError(
            outs[2].stdout,
            outs[2].stderr,
        ),
        outs[0].success && outs[1].success && outs[2].success ==> m == classification(outs[2].stdout, expected),
{
    lemma_stage_failure_mapping(outs);
}

} // verus!
