use vstd::prelude::*;
use imara_diff::intern::InternedInput;
use imara_diff::sink::Counter;
use imara_diff::{diff, Algorithm};
use crate::error::{Error, error_text};
use vstd::std_specs::iter::IteratorSpec;

verus! {

/// The classification of one test case's run.
#[derive(Debug, Clone, PartialEq, Eq)]
pub enum Message {
    Accepted,
    /// The compiler under test failed: its stdout and stderr.
    RuntimeError(String, String),
    /// The linker failed: its stdout and stderr.
    LinkError(String, String),
    /// The compiled program failed when run: its stdout and stderr.
    ObjectError(String, String),
    /// The pipeline succeeded but produced this different output.
    WrongAnswer(String),
    /// Staging or the environment failed before a verdict could be reached.
    OtherError(String),
}

/// `line` without one trailing carriage return, if it ends with one.
pub open spec fn strip_cr(line: Seq<char>) -> Seq<char> {
    if line.len() > 0 && line.last() == '\r' {
        line.drop_last()
    } else {
        line
    }
}

/// The lines of `s` after the partial line `cur`: each line ends at a `\n`,
/// which is dropped together with a `\r` just before it; a last line
/// without `\n` counts only when it is not empty.
pub open spec fn split_lines(s: Seq<char>, cur: Seq<char>) -> Seq<Seq<char>>
    decreases s.len(),
{
    if s.len() == 0 {
        if cur.len() == 0 {
            seq![]
        } else {
            seq![cur]
        }
    } else if s[0] == '\n' {
        seq![strip_cr(cur)] + split_lines(s.drop_first(), seq![])
    } else {
        split_lines(s.drop_first(), cur.push(s[0]))
    }
}

/// The lines that two outputs are compared by.
pub open spec fn line_tokens(s: Seq<char>) -> Seq<Seq<char>> {
    split_lines(s, seq![])
}

proof fn lemma_split_lines_len_pending(s: Seq<char>, a: Seq<char>, b: Seq<char>)
    requires
        (a.len() == 0) == (b.len() == 0),
    ensures
        split_lines(s, a).len() == split_lines(s, b).len(),
    decreases s.len(),
{
    if s.len() > 0 {
        if s[0] == '\n' {
        } else {
            lemma_split_lines_len_pending(s.drop_first(), a.push(s[0]), b.push(s[0]));
        }
    }
}

/// The pending partial line of a scan: empty, or some non-empty text.
spec fn pending_line(pending: bool) -> Seq<char> {
    if pending {
        seq!['x']
    } else {
        seq![]
    }
}

/// Whether `s` has few enough lines to be compared: fewer than i32::MAX.
pub fn diffable(s: &str) -> (r: bool)
    ensures
        r == (line_tokens(s@).len() < i32::MAX),
{
    broadcast use vstd::string::axiom_spec_iter, vstd::string::next_postcondition;
    let mut chars = s.chars();
    let mut count: usize = 0;
    let mut pending = false;
    loop
        invariant
            chars.obeys_prophetic_iter_laws(),
            chars.decrease() is Some,
            count < i32::MAX,
            count + split_lines(chars.remaining(), pending_line(pending)).len() == line_tokens(s@).len(),
        decreases chars.decrease()->0,
    {
        let ghost rest = chars.remaining();
        match chars.next() {
            None => {
                return count + (if pending { 1usize } else { 0usize }) < i32::MAX as usize;
            },
            Some(c) => {
                assert(rest.len() > 0 && c == rest[0]);
                if c == '\n' {
                    count = count + 1;
                    pending = false;
                    if count >= i32::MAX as usize {
                        return false;
                    }
                } else {
                    proof {
                        lemma_split_lines_len_pending(rest.drop_first(), pending_line(pending).push(c), seq!['x']);
                    }
                    pending = true;
                }
            },
        }
    }
}

/// Relies on imara_diff::diff with the histogram algorithm, the `&str` line
/// token source and a Counter sink: it returns the numbers of removed and of
/// inserted lines of an edit script from `before` to `after`, so both are zero
/// exactly when the two texts have the same lines. It asserts that each side
/// has fewer than i32::MAX lines.
#[verifier::external_body]
fn line_diff_counts(before: &str, after: &str) -> (r: (u32, u32))
    requires
        line_tokens(before@).len() < i32::MAX,
        line_tokens(after@).len() < i32::MAX,
    ensures
        (r.0 == 0 && r.1 == 0) <==> line_tokens(before@) == line_tokens(after@),
{
    let input = InternedInput::new(before, after);
    let changes = diff(Algorithm::Histogram, &input, Counter::default());
    (changes.removals, changes.insertions)
}

/// The verdict on `produced` output against the `expected` output.
pub open spec fn classification(produced: String, expected: Seq<char>) -> Message {
    if line_tokens(produced@) == line_tokens(expected) {
        Message::Accepted
    } else {
        Message::WrongAnswer(produced)
    }
}

/// Compares the produced output with the expected one line by line: equal
/// lines are accepted, anything else is a wrong answer carrying the output.
pub fn classify(produced: String, expected: &str) -> (r: Message)
    requires
        line_tokens(produced@).len() < i32::MAX,
        line_tokens(expected@).len() < i32::MAX,
    ensures
        r == classification(produced, expected@),
{
    let (removals, insertions) = line_diff_counts(expected, produced.as_str());
    if removals == 0 && insertions == 0 {
        Message::Accepted
    } else {
        Message::WrongAnswer(produced)
    }
}

/// The message that reports a pipeline or staging failure `e`.
pub open spec fn failure_outcome(e: Error, m: Message) -> bool {
    match e {
        Error::RuntimeError(out, err) => m == Message::RuntimeError(out, err),
        Error::LinkError(out, err) => m == Message::LinkError(out, err),
        Error::ObjectError(out, err) => m == Message::ObjectError(out, err),
        _ => m matches Message::OtherError(t) && t@ == error_text(e),
    }
}

/// Turns a failure into the message reported for the case: each pipeline
/// stage keeps its own category and captured output, anything else is
/// reported by its description.
pub fn failure_message(e: Error) -> (r: Message)
    ensures
        failure_outcome(e, r),
{
    match e {
        Error::RuntimeError(out, err) => Message::RuntimeError(out, err),
        Error::LinkError(out, err) => Message::LinkError(out, err),
        Error::ObjectError(out, err) => Message::ObjectError(out, err),
        other => Message::OtherError(other.message()),
    }
}

/// An output compared with itself is accepted; one whose lines differ from
/// the expected ones is a wrong answer carrying that output.
pub proof fn lemma_classify_exact(x: String, y: String)
    ensures
        classification(x, x@) == Message::Accepted,
        line_tokens(x@) != line_tokens(y@) ==> classification(x, y@) == Message::WrongAnswer(x),
{
}

/// The events of one case suit `case_message`: the run happened exactly when
/// staging succeeded, and a produced output and the expected one can be
/// compared.
pub open spec fn case_events_ok(staged: Result<(), Error>, run: Option<Result<String, Error>>, expected: Seq<char>) -> bool {
    &&& (staged is Ok <==> run is Some)
    &&& (run matches Some(Ok(x)) ==> line_tokens(x@).len() < i32::MAX && line_tokens(expected).len() < i32::MAX)
}

/// `m` is the outcome of a case from its own events: how staging went, how
/// the run went if there was one, and the expected output.
pub open spec fn case_message_is(staged: Result<(), Error>, run: Option<Result<String, Error>>, expected: Seq<char>, m: Message) -> bool {
    match staged {
        Err(e) => failure_outcome(e, m),
        Ok(_) => match run {
            Some(Err(e)) => failure_outcome(e, m),
            Some(Ok(produced)) => m == classification(produced, expected),
            None => false,
        },
    }
}

/// Decides a case's outcome: a staging failure or a failed run is reported
/// as that failure, a completed run is classified against the expected
/// output.
pub fn case_message(staged: Result<(), Error>, run: Option<Result<String, Error>>, expected: &str) -> (r: Message)
    requires
        case_events_ok(staged, run, expected@),
    ensures
        case_message_is(staged, run, expected@, r),
{
    match staged {
        Err(e) => failure_message(e),
        Ok(_) => match run {
            Some(Err(e)) => failure_message(e),
            Some(Ok(produced)) => classify(produced, expected),
            None => Message::OtherError(String::new()),
        },
    }
}

/// Two messages report the same outcome: equal, or both other errors with
/// the same text.
pub open spec fn same_outcome(m1: Message, m2: Message) -> bool {
    m1 == m2 || (m1 matches Message::OtherError(a) && m2 matches Message::OtherError(b) && a@ == b@)
}

/// A case's outcome follows from its own events alone: the same events give
/// the same outcome, whichever cases ran before it.
pub proof fn lemma_case_message_deterministic(
    staged: Result<(), Error>,
    run: Option<Result<String, Error>>,
    expected: Seq<char>,
    m1: Message,
    m2: Message,
)
    requires
        case_message_is(staged, run, expected, m1),
        case_message_is(staged, run, expected, m2),
    ensures
        same_outcome(m1, m2),
{
}

/// A completed run whose output has the expected lines is accepted; one
/// whose lines differ is a wrong answer carrying the output; a failed
/// staging or run is never either.
pub proof fn lemma_case_classification(
    staged: Result<(), Error>,
    run: Option<Result<String, Error>>,
    expected: Seq<char>,
    produced: String,
    m: Message,
)
    requires
        case_message_is(staged, run, expected, m),
    ensures
        staged is Ok && run == Some(Ok::<String, Error>(produced)) && line_tokens(produced@) == line_tokens(expected)
            ==> m == Message::Accepted,
        staged is Ok && run == Some(Ok::<String, Error>(produced)) && line_tokens(produced@) != line_tokens(expected)
            ==> m == Message::WrongAnswer(produced),
        (staged is Err || (run matches Some(Err(_)))) ==> !(m is Accepted || m is WrongAnswer),
{
}

} // verus!
