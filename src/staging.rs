use vstd::prelude::*;
use crate::discover::TestPoint;

verus! {

/// A change to the shared working directory.
#[derive(Debug, Clone)]
pub enum FileOp {
    /// Delete the named file, if it is there.
    Remove(String),
    /// Copy file `from` of the case's folder to the named file.
    Copy { from: String, to: String },
}

/// `op` removes the file named `name`.
pub open spec fn removes(op: FileOp, name: Seq<char>) -> bool {
    op matches FileOp::Remove(f) && f@ == name
}

/// `op` copies `from` to the file named `to`.
pub open spec fn copies(op: FileOp, from: Seq<char>, to: Seq<char>) -> bool {
    op matches FileOp::Copy { from: f, to: t } && f@ == from && t@ == to
}

/// The files that a run leaves behind: compiler output and error log, the
/// intermediate code, the linked program and the produced output.
pub open spec fn run_artifacts() -> Seq<Seq<char>> {
    seq!["output.txt"@, "error.txt"@, "llvm_ir.txt"@, "out.ll"@, "out.txt"@]
}

/// The names of the files that a run leaves behind, to be cleared before the
/// next case is staged and before the compiler is invoked.
pub fn stale_artifacts() -> (r: Vec<String>)
    ensures
        r@.len() == run_artifacts().len(),
        forall|i: int| 0 <= i < r@.len() ==> #[trigger] r@[i]@ == run_artifacts()[i],
{
    let r = vec![
        String::from_str("output.txt"),
        String::from_str("error.txt"),
        String::from_str("llvm_ir.txt"),
        String::from_str("out.ll"),
        String::from_str("out.txt"),
    ];
    assert(r@[0]@ == run_artifacts()[0]);
    assert(r@[4]@ == run_artifacts()[4]);
    r
}

/// The files of a staged case: its input, its program source under both the
/// names the tools read, and its expected output.
pub open spec fn staged_copies(p: TestPoint) -> Seq<(Seq<char>, Seq<char>)> {
    seq![
        (p.input@, "input.txt"@),
        (p.testfile@, "testfile.txt"@),
        (p.testfile@, "testfile.c"@),
        (p.output@, "std.txt"@),
    ]
}

/// `ops` stages case `p`: it removes every run artifact, then makes the
/// staged copies in order.
pub open spec fn is_staging_plan(ops: Seq<FileOp>, p: TestPoint) -> bool {
    let n = run_artifacts().len();
    let c = staged_copies(p);
    &&& ops.len() == n + c.len()
    &&& forall|i: int| 0 <= i < n ==> removes(#[trigger] ops[i], run_artifacts()[i])
    &&& forall|j: int| 0 <= j < c.len() ==> copies(#[trigger] ops[n + j], c[j].0, c[j].1)
}

/// The names in a directory holding `dir` after `ops`.
pub open spec fn apply_ops(ops: Seq<FileOp>, dir: Set<Seq<char>>) -> Set<Seq<char>>
    decreases ops.len(),
{
    if ops.len() == 0 {
        dir
    } else {
        let before = apply_ops(ops.drop_last(), dir);
        match ops.last() {
            FileOp::Remove(f) => before.remove(f@),
            FileOp::Copy { from, to } => before.insert(to@),
        }
    }
}

fn copy_op(from: &String, to: &str) -> (r: FileOp)
    ensures
        copies(r, from@, to@),
{
    FileOp::Copy { from: from.clone(), to: String::from_str(to) }
}

/// The changes that stage case `p` into the working directory: what a
/// previous run left is removed first, then the case's files are copied in
/// under the names the tools expect.
pub fn staging_plan(p: &TestPoint) -> (r: Vec<FileOp>)
    ensures
        is_staging_plan(r@, *p),
{
    let names = stale_artifacts();
    let mut r: Vec<FileOp> = Vec::new();
    let mut i: usize = 0;
    while i < names.len()
        invariant
            i <= names.len(),
            names@.len() == run_artifacts().len(),
            forall|k: int| 0 <= k < names@.len() ==> #[trigger] names@[k]@ == run_artifacts()[k],
            r@.len() == i,
            forall|k: int| 0 <= k < i ==> removes(#[trigger] r@[k], run_artifacts()[k]),
        decreases names.len() - i,
    {
        r.push(FileOp::Remove(names[i].clone()));
        i = i + 1;
    }
    r.push(copy_op(&p.input, "input.txt"));
    r.push(copy_op(&p.testfile, "testfile.txt"));
    r.push(copy_op(&p.testfile, "testfile.c"));
    r.push(copy_op(&p.output, "std.txt"));
    r
}

proof fn lemma_plan_prefix(ops: Seq<FileOp>, p: TestPoint, dir: Set<Seq<char>>, k: int)
    requires
        is_staging_plan(ops, p),
        0 <= k <= ops.len(),
    ensures
        forall|i: int|
            0 <= i < run_artifacts().len() && i < k ==> !apply_ops(ops.take(k), dir).contains(
                #[trigger] run_artifacts()[i],
            ),
    decreases k,
{
    let n = run_artifacts().len();
    let c = staged_copies(p);
    if k > 0 {
        lemma_plan_prefix(ops, p, dir, k - 1);
        let cur = ops.take(k);
        assert(cur.drop_last() == ops.take(k - 1));
        assert(cur.last() == ops[k - 1]);
        if k - 1 >= n {
            let j = k - 1 - n;
            assert(copies(ops[n + j], c[j].0, c[j].1));
            reveal_strlit("output.txt");
            reveal_strlit("error.txt");
            reveal_strlit("llvm_ir.txt");
            reveal_strlit("out.ll");
            reveal_strlit("out.txt");
            reveal_strlit("input.txt");
            reveal_strlit("testfile.txt");
            reveal_strlit("testfile.c");
            reveal_strlit("std.txt");
            assert forall|i: int| 0 <= i < n implies run_artifacts()[i] != c[j].1 by {
                if run_artifacts()[i] == c[j].1 {
                    assert(run_artifacts()[i].len() == c[j].1.len());
                    assert(run_artifacts()[i][0] == c[j].1[0]);
                    assert(run_artifacts()[i][1] == c[j].1[1]);
                    assert(run_artifacts()[i][3] == c[j].1[3]);
                }
            }
        } else {
            assert(removes(ops[k - 1], run_artifacts()[k - 1]));
        }
    }
}

/// Staging a case leaves none of the files that the previous run produced,
/// whatever the directory held before.
pub proof fn lemma_staging_clears_artifacts(ops: Seq<FileOp>, p: TestPoint, dir: Set<Seq<char>>)
    requires
        is_staging_plan(ops, p),
    ensures
        forall|i: int| 0 <= i < run_artifacts().len() ==> !apply_ops(ops, dir).contains(#[trigger] run_artifacts()[i]),
{
    lemma_plan_prefix(ops, p, dir, ops.len() as int);
    assert(ops.take(ops.len() as int) == ops);
}

} // verus!
