use vstd::prelude::*;
use crate::discover::opt_view;
use crate::error::Error;

verus! {

/// How the compiler under test is invoked, chosen by its file extension.
#[derive(Debug, Clone, Copy, PartialEq, Eq, Structural)]
pub enum ExecutableType {
    /// A native program, run directly.
    Exe,
    /// A packaged application for a managed runtime.
    Jar,
}

/// The compiler under test: its path and how it is invoked.
#[derive(Debug, Clone)]
pub struct Executable {
    executable: String,
    ty: ExecutableType,
}

/// The extension of the last component of path `p` on the target platform.
pub uninterp spec fn path_extension(p: Seq<char>) -> Option<Seq<char>>;

/// Relies on std::path::Path::extension: the text after the last `.` of the
/// path's file name, or none when the file name has no `.` but a leading one.
#[verifier::external_body]
fn extension_of(path: &str) -> (r: Option<String>)
    ensures
        opt_view(r) == path_extension(path@),
{
    std::path::Path::new(path).extension().map(|e| e.to_string_lossy().into_owned())
}

/// The kind of executable that a path with extension `ext` names.
pub open spec fn kind_for(ext: Option<Seq<char>>) -> Result<ExecutableType, Error> {
    match ext {
        None => Ok(ExecutableType::Exe),
        Some(e) => if e == "exe"@ {
            Ok(ExecutableType::Exe)
        } else if e == "jar"@ {
            Ok(ExecutableType::Jar)
        } else {
            Err(Error::InvalidPath)
        },
    }
}

/// Chooses the invocation kind from an extension: none or `exe` is a native
/// program, `jar` a managed one, anything else is refused.
pub fn kind_of_extension(ext: Option<String>) -> (r: Result<ExecutableType, Error>)
    ensures
        r == kind_for(opt_view(ext)),
{
    match ext {
        None => Ok(ExecutableType::Exe),
        Some(e) => {
            if e == String::from_str("exe") {
                Ok(ExecutableType::Exe)
            } else if e == String::from_str("jar") {
                Ok(ExecutableType::Jar)
            } else {
                Err(Error::InvalidPath)
            }
        },
    }
}

impl Executable {
    /// The compiler at `executable`; fails with `InvalidPath` when its
    /// extension is neither absent, `exe` nor `jar`.
    pub fn new(executable: String) -> (r: Result<Self, Error>)
        ensures
            match kind_for(path_extension(executable@)) {
                Ok(t) => r matches Ok(x) && x.spec_kind() == t && x.spec_path() == executable@,
                Err(e) => r == Err::<Self, Error>(e),
            },
    {
        let ext = extension_of(executable.as_str());
        match kind_of_extension(ext) {
            Ok(ty) => Ok(Executable { executable, ty }),
            Err(e) => Err(e),
        }
    }

    pub closed spec fn spec_path(&self) -> Seq<char> {
        self.executable@
    }

    pub closed spec fn spec_kind(&self) -> ExecutableType {
        self.ty
    }

    /// The path of the compiler.
    pub fn path(&self) -> (r: &str)
        ensures
            r@ == self.spec_path(),
    {
        self.executable.as_str()
    }

    /// How the compiler is invoked.
    pub fn kind(&self) -> (r: ExecutableType)
        ensures
            r == self.spec_kind(),
    {
        self.ty
    }

    /// The first stage of a run: the compiler itself. Only native programs
    /// have a pipeline.
    pub fn first_step(&self) -> (r: Step)
        requires
            self.spec_kind() == ExecutableType::Exe,
        ensures
            r == Step::Invoke(Stage::Compile),
    {
        Step::Invoke(Stage::Compile)
    }
}

/// The external invocations of a run, in order.
#[derive(Debug, Clone, Copy, PartialEq, Eq, Structural)]
pub enum Stage {
    /// The compiler under test, which emits intermediate code.
    Compile,
    /// The linker, which joins that code with the runtime support module.
    Link,
    /// The interpreter, which runs the linked program on the case's input.
    Execute,
}

/// What an external invocation gave back.
#[derive(Debug, Clone)]
pub struct ProcessOutput {
    pub success: bool,
    pub stdout: String,
    pub stderr: String,
}

/// What a run does next.
#[derive(Debug)]
pub enum Step {
    Invoke(Stage),
    /// The run is over: the program's output, or the failure that ended it.
    Finished(Result<String, Error>),
}

/// The step after `stage` gave `out`.
pub open spec fn next_step(stage: Stage, out: ProcessOutput) -> Step {
    match stage {
        Stage::Compile => if out.success {
            Step::Invoke(Stage::Link)
        } else {
            Step::Finished(Err(Error::RuntimeError(out.stdout, out.stderr)))
        },
        Stage::Link => if out.success {
            Step::Invoke(Stage::Execute)
        } else {
            Step::Finished(Err(Error::LinkError(out.stdout, out.stderr)))
        },
        Stage::Execute => if out.success {
            Step::Finished(Ok(out.stdout))
        } else {
            Step::Finished(Err(Error::ObjectError(out.stdout, out.stderr)))
        },
    }
}

/// Decides what follows a stage: a failure ends the run with that stage's
/// own error and captured output, a success moves to the next stage, and
/// the interpreter's output is the run's result.
pub fn advance(stage: Stage, out: ProcessOutput) -> (r: Step)
    ensures
        r == next_step(stage, out),
{
    match stage {
        Stage::Compile => if out.success {
            Step::Invoke(Stage::Link)
        } else {
            Step::Finished(Err(Error::RuntimeError(out.stdout, out.stderr)))
        },
        Stage::Link => if out.success {
            Step::Invoke(Stage::Execute)
        } else {
            Step::Finished(Err(Error::LinkError(out.stdout, out.stderr)))
        },
        Stage::Execute => if out.success {
            Step::Finished(Ok(out.stdout))
        } else {
            Step::Finished(Err(Error::ObjectError(out.stdout, out.stderr)))
        },
    }
}

/// A run from `stage` on, each invoked stage giving the next output of
/// `outs`: its result and the number of stages invoked, or none when `outs`
/// runs out before the run ends.
pub open spec fn run_from(stage: Stage, outs: Seq<ProcessOutput>) -> Option<(Result<String, Error>, nat)>
    decreases outs.len(),
{
    if outs.len() == 0 {
        None
    } else {
        match next_step(stage, outs[0]) {
            Step::Finished(r) => Some((r, 1nat)),
            Step::Invoke(s) => match run_from(s, outs.drop_first()) {
                Some((r, n)) => Some((r, n + 1)),
                None => None,
            },
        }
    }
}

/// A failing stage ends the run with its own category: a failing compiler
/// gives `RuntimeError` and nothing else is invoked, a failing linker gives
/// `LinkError`, a failing interpreter `ObjectError`; when all succeed the
/// interpreter's output is the result.
pub proof fn lemma_stage_failure_mapping(outs: Seq<ProcessOutput>)
    requires
        outs.len() == 3,
    ensures
        !outs[0].success ==> run_from(Stage::Compile, outs) == Some(
            (Err::<String, Error>(Error::RuntimeError(outs[0].stdout, outs[0].stderr)), 1nat),
        ),
        outs[0].success && !outs[1].success ==> run_from(Stage::Compile, outs) == Some(
            (Err::<String, Error>(Error::LinkError(outs[1].stdout, outs[1].stderr)), 2nat),
        ),
        outs[0].success && outs[1].success && !outs[2].success ==> run_from(Stage::Compile, outs)
            == Some((Err::<String, Error>(Error::ObjectError(outs[2].stdout, outs[2].stderr)), 3nat)),
        outs[0].success && outs[1].success && outs[2].success ==> run_from(Stage::Compile, outs)
            == Some((Ok::<String, Error>(outs[2].stdout), 3nat)),
{
    let o1 = outs.drop_first();
    let o2 = o1.drop_first();
    let o3 = o2.drop_first();
    assert(o3.len() == 0);
    assert(o1[0] == outs[1]);
    assert(o2[0] == outs[2]);
    reveal_with_fuel(run_from, 4);
}

} // verus!
