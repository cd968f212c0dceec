use vstd::prelude::*;

verus! {

/// One fixture: the folder it lies in and the names of its program source,
/// its input and its expected output within that folder.
#[derive(Debug, Clone)]
pub struct TestPoint {
    pub folder: String,
    pub testfile: String,
    pub input: String,
    pub output: String,
}

/// A file met while walking the test tree: its folder and its name.
#[derive(Debug, Clone)]
pub struct ListedFile {
    pub folder: String,
    pub name: String,
}

/// The pattern a program source's file name contains; its group `id`, a
/// possibly empty run of letters and digits, names the case.
pub const TEST_FILE_PATTERN: &'static str = "testfile(?P<id>[0-9A-Za-z]*)\\.txt";

/// The name of the capture group that holds a case's id.
pub const ID_GROUP: &'static str = "id";

/// The text of group `group` in the leftmost match of regular expression
/// `pattern` in `text`.
pub uninterp spec fn regex_capture(pattern: Seq<char>, group: Seq<char>, text: Seq<char>) -> Option<Seq<char>>;

pub open spec fn opt_view(o: Option<String>) -> Option<Seq<char>> {
    match o {
        Some(s) => Some(s@),
        None => None,
    }
}

/// Relies on regex::Regex::new and regex::Regex::captures: the text of the
/// named group in the leftmost-first match of `pattern` in `text`, or none
/// when the pattern does not compile, does not match, or the group took no
/// part in the match.
#[verifier::external_body]
fn capture_group(pattern: &str, group: &str, text: &str) -> (r: Option<String>)
    ensures
        opt_view(r) == regex_capture(pattern@, group@, text@),
{
    let re = match regex::Regex::new(pattern) {
        Ok(re) => re,
        Err(_) => return None,
    };
    let caps = re.captures(text)?;
    caps.name(group).map(|m| m.as_str().to_string())
}

/// The id a file name gives a case, if it names a program source.
pub open spec fn case_id(name: Seq<char>) -> Option<Seq<char>> {
    regex_capture(TEST_FILE_PATTERN@, ID_GROUP@, name)
}

/// `p` is the case of id `id` whose program source is `name` in `folder`.
pub open spec fn is_point(p: TestPoint, folder: Seq<char>, name: Seq<char>, id: Seq<char>) -> bool {
    &&& p.folder@ == folder
    &&& p.testfile@ == name
    &&& p.input@ == "input"@ + id + ".txt"@
    &&& p.output@ == "output"@ + id + ".txt"@
}

/// The case described by file `name` in `folder`, given the id its name
/// yields: its input and expected output are the files of the same id.
pub fn test_point_from_id(folder: &str, name: &str, id: Option<String>) -> (r: Option<TestPoint>)
    ensures
        match id {
            None => r is None,
            Some(id) => r matches Some(p) && is_point(p, folder@, name@, id@),
        },
{
    match id {
        None => None,
        Some(id) => {
            let mut input = String::from_str("input");
            input.append(id.as_str());
            input.append(".txt");
            let mut output = String::from_str("output");
            output.append(id.as_str());
            output.append(".txt");
            Some(TestPoint {
                folder: String::from_str(folder),
                testfile: String::from_str(name),
                input,
                output,
            })
        },
    }
}

/// The case that file `name` in `folder` describes, if its name matches the
/// program source pattern.
pub fn test_point_of(folder: &str, name: &str) -> (r: Option<TestPoint>)
    ensures
        match case_id(name@) {
            None => r is None,
            Some(id) => r matches Some(p) && is_point(p, folder@, name@, id),
        },
{
    let id = capture_group(TEST_FILE_PATTERN, ID_GROUP, name);
    test_point_from_id(folder, name, id)
}

/// The files of `files` that name program sources, in order, each with its id.
pub open spec fn discovered(files: Seq<ListedFile>) -> Seq<(ListedFile, Seq<char>)>
    decreases files.len(),
{
    if files.len() == 0 {
        seq![]
    } else {
        let prev = discovered(files.drop_last());
        match case_id(files.last().name@) {
            Some(id) => prev.push((files.last(), id)),
            None => prev,
        }
    }
}

/// `points` are the cases that `files` describe, in the order of `files`.
pub open spec fn points_of(points: Seq<TestPoint>, files: Seq<ListedFile>) -> bool {
    let d = discovered(files);
    &&& points.len() == d.len()
    &&& forall|i: int|
        0 <= i < d.len() ==> is_point(#[trigger] points[i], d[i].0.folder@, d[i].0.name@, d[i].1)
}

/// The cases that a walk of the test tree describes, in walk order.
pub fn discover(files: &Vec<ListedFile>) -> (r: Vec<TestPoint>)
    ensures
        points_of(r@, files@),
{
    let mut r: Vec<TestPoint> = Vec::new();
    let mut i: usize = 0;
    while i < files.len()
        invariant
            i <= files.len(),
            points_of(r@, files@.take(i as int)),
        decreases files.len() - i,
    {
        let f = &files[i];
        assert(files@.take(i as int + 1).drop_last() == files@.take(i as int));
        match test_point_of(f.folder.as_str(), f.name.as_str()) {
            Some(p) => r.push(p),
            None => {},
        }
        i = i + 1;
    }
    assert(files@.take(files.len() as int) == files@);
    r
}

} // verus!
