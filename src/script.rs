use vstd::prelude::*;
use vstd::string::*;

verus! {

/// The two kinds of script that are run.
#[derive(Clone, Copy, Debug, PartialEq, Eq, Structural)]
pub enum ScriptKind {
    Shell,
    PowerShell,
}

/// Index of the last `.` among the first `k` characters of `n`, or -1.
pub open spec fn last_dot_before(n: Seq<char>, k: int) -> int
    decreases k,
{
    if k <= 0 {
        -1
    } else if n[k - 1] == '.' {
        k - 1
    } else {
        last_dot_before(n, k - 1)
    }
}

/// The extension of a file name: what follows its last `.`, unless that `.`
/// is missing or is the name's first character.
pub open spec fn extension_of(n: Seq<char>) -> Option<Seq<char>> {
    let d = last_dot_before(n, n.len() as int);
    if d <= 0 {
        None
    } else {
        Some(n.subrange(d + 1, n.len() as int))
    }
}

/// Extensions are matched case-sensitively.
pub open spec fn kind_of_extension(e: Seq<char>) -> Option<ScriptKind> {
    if e == seq!['s', 'h'] {
        Some(ScriptKind::Shell)
    } else if e == seq!['p', 's', '1'] {
        Some(ScriptKind::PowerShell)
    } else {
        None
    }
}

pub open spec fn kind_of_name(n: Seq<char>) -> Option<ScriptKind> {
    match extension_of(n) {
        Some(e) => kind_of_extension(e),
        None => None,
    }
}

/// A file is dispatched exactly when its extension is `sh` or `ps1`, and
/// always to one interpreter.
pub proof fn lemma_dispatch_only_scripts(name: Seq<char>)
    ensures
        kind_of_name(name).is_some() <==> (extension_of(name) == Some(seq!['s', 'h'])
            || extension_of(name) == Some(seq!['p', 's', '1'])),
        extension_of(name) == Some(seq!['s', 'h']) ==> kind_of_name(name) == Some(ScriptKind::Shell),
        extension_of(name) == Some(seq!['p', 's', '1']) ==> kind_of_name(name) == Some(
            ScriptKind::PowerShell,
        ),
{
}

proof fn lemma_last_dot_range(n: Seq<char>, k: int)
    requires
        0 <= k <= n.len(),
    ensures
        -1 <= last_dot_before(n, k) < k,
        last_dot_before(n, k) >= 0 ==> n[last_dot_before(n, k)] == '.',
    decreases k,
{
    if k > 0 {
        lemma_last_dot_range(n, k - 1);
    }
}

/// The kind of script that a file of this name is, by its extension.
pub fn script_kind(name: &str) -> (r: Option<ScriptKind>)
    ensures
        r == kind_of_name(name@),
{
    let len = name.unicode_len();
    let mut k: usize = len;
    while k > 0 && name.get_char(k - 1) != '.'
        invariant
            k <= len,
            len == name@.len(),
            last_dot_before(name@, len as int) == last_dot_before(name@, k as int),
        decreases k,
    {
        k = k - 1;
    }
    proof {
        lemma_last_dot_range(name@, len as int);
    }
    if k <= 1 {
        return None;
    }
    let rest = len - k;
    let e = Ghost(name@.subrange(k as int, len as int));
    if rest == 2 && name.get_char(k) == 's' && name.get_char(k + 1) == 'h' {
        assert(e@ =~= seq!['s', 'h']);
        Some(ScriptKind::Shell)
    } else if rest == 3 && name.get_char(k) == 'p' && name.get_char(k + 1) == 's'
        && name.get_char(k + 2) == '1' {
        assert(e@ =~= seq!['p', 's', '1']);
        Some(ScriptKind::PowerShell)
    } else {
        assert(e@ != seq!['s', 'h'] && e@ != seq!['p', 's', '1']) by {
            if rest == 2 {
                assert(e@[0] == name@[k as int] && e@[1] == name@[k + 1]);
            }
            if rest == 3 {
                assert(e@[0] == name@[k as int] && e@[1] == name@[k + 1] && e@[2] == name@[k + 2]);
            }
            if rest != 2 { assert(e@.len() != 2); }
            if rest != 3 { assert(e@.len() != 3); }
        }
        None
    }
}


/// A script to run, planned from one change event.
pub struct Job {
    pub kind: ScriptKind,
    /// The path of the script, as the event gave it.
    pub path: String,
    /// The script's file name, which names its result files.
    pub name: String,
}

/// Index of the last `/` among the first `k` characters of `p`, or -1.
pub open spec fn last_slash_before(p: Seq<char>, k: int) -> int
    decreases k,
{
    if k <= 0 {
        -1
    } else if p[k - 1] == '/' {
        k - 1
    } else {
        last_slash_before(p, k - 1)
    }
}

/// The text after the last `/` of a path (the whole path if it has none).
pub open spec fn last_segment(p: Seq<char>) -> Seq<char> {
    p.subrange(last_slash_before(p, p.len() as int) + 1, p.len() as int)
}

/// `n` is an ordinary name (not empty, `.` or `..`) ending a path that holds
/// no `\`, no `:` and does not start with `//`: a path that every platform
/// splits only at `/`.
pub open spec fn plain_segment(n: Seq<char>, p: Seq<char>) -> bool {
    &&& n.len() > 0
    &&& n != seq!['.']
    &&& n != seq!['.', '.']
    &&& !p.contains('\\')
    &&& !p.contains(':')
    &&& !(p.len() >= 2 && p[0] == '/' && p[1] == '/')
}

/// Relies on std's `Path::file_name` (then `OsStr::to_str`, lossless on text
/// that came from a `str`): the last component of the path. Where the path
/// is split only at `/` and ends in an ordinary name, that name is it.
#[verifier::external_body]
fn file_name(path: &str) -> (r: Option<String>)
    ensures
        plain_segment(last_segment(path@), path@) ==> (r.is_some() && r.unwrap()@ == last_segment(
            path@,
        )),
{
    std::path::Path::new(path).file_name().and_then(|n| n.to_str()).map(|n| n.to_string())
}

/// The job for a path whose file name is `name`: one exactly when the name
/// ends in a script extension.
pub fn plan_named(path: &str, name: &str) -> (r: Option<Job>)
    ensures
        r.is_some() <==> kind_of_name(name@).is_some(),
        r matches Some(j) ==> j.path@ == path@ && j.name@ == name@ && Some(j.kind) == kind_of_name(name@),
{
    match script_kind(name) {
        Some(kind) => Some(Job { kind, path: String::from_str(path), name: String::from_str(name) }),
        None => None,
    }
}

/// The job for one change event, if the changed file is a script. For a
/// path split only at `/`, there is a job exactly when its last segment has
/// a script extension, and that segment names the job.
pub fn plan_event(path: &str) -> (r: Option<Job>)
    ensures
        r matches Some(j) ==> j.path@ == path@ && Some(j.kind) == kind_of_name(j.name@),
        plain_segment(last_segment(path@), path@) ==> (r.is_some() <==> kind_of_name(
            last_segment(path@),
        ).is_some()),
        plain_segment(last_segment(path@), path@) ==> (r matches Some(j) ==> j.name@
            == last_segment(path@)),
{
    match file_name(path) {
        Some(name) => plan_named(path, name.as_str()),
        None => None,
    }
}

/// `"` + `p` + `"`.
pub open spec fn quoted(p: Seq<char>) -> Seq<char> {
    seq!['"'] + p + seq!['"']
}

/// The path between double quotes, as it is shown and handed to PowerShell.
pub fn quote(path: &str) -> (r: String)
    ensures
        r@ == quoted(path@),
{
    proof {
        reveal_strlit("\"");
    }
    let mut r = String::from_str("\"");
    r.append(path);
    r.append("\"");
    r
}

/// How a script is started: a program and its arguments.
pub struct Invocation {
    pub program: String,
    pub args: Vec<String>,
}

pub open spec fn texts(v: Seq<String>) -> Seq<Seq<char>> {
    v.map_values(|s: String| s@)
}

pub open spec fn program_of(kind: ScriptKind) -> Seq<char> {
    match kind {
        ScriptKind::Shell => "bash"@,
        ScriptKind::PowerShell => "powershell"@,
    }
}

/// A shell script is the shell's sole argument; a PowerShell script is run as
/// the inline command `& "<path>"`, without profile and execution policy.
pub open spec fn args_of(kind: ScriptKind, path: Seq<char>) -> Seq<Seq<char>> {
    match kind {
        ScriptKind::Shell => seq![path],
        ScriptKind::PowerShell => seq![
            "-NoProfile"@,
            "-ExecutionPolicy"@,
            "Bypass"@,
            "-Command"@,
            "& "@ + quoted(path),
        ],
    }
}

impl Job {
    /// The interpreter command that runs this job's script.
    pub fn invocation(&self) -> (r: Invocation)
        ensures
            r.program@ == program_of(self.kind),
            texts(r.args@) == args_of(self.kind, self.path@),
    {
        let mut args: Vec<String> = Vec::new();
        match self.kind {
            ScriptKind::Shell => {
                args.push(self.path.clone());
                proof {
                    reveal_strlit("bash");
                }
                let r = Invocation { program: String::from_str("bash"), args };
                assert(texts(r.args@) =~= args_of(self.kind, self.path@));
                r
            },
            ScriptKind::PowerShell => {
                proof {
                    reveal_strlit("powershell");
                    reveal_strlit("-NoProfile");
                    reveal_strlit("-ExecutionPolicy");
                    reveal_strlit("Bypass");
                    reveal_strlit("-Command");
                    reveal_strlit("& ");
                }
                args.push(String::from_str("-NoProfile"));
                args.push(String::from_str("-ExecutionPolicy"));
                args.push(String::from_str("Bypass"));
                args.push(String::from_str("-Command"));
                let mut c = String::from_str("& ");
                let q = quote(self.path.as_str());
                c.append(q.as_str());
                args.push(c);
                let r = Invocation { program: String::from_str("powershell"), args };
                assert(texts(r.args@) =~= args_of(self.kind, self.path@));
                r
            },
        }
    }
}

/// Whether a run succeeded.
#[derive(Clone, Copy, Debug, PartialEq, Eq, Structural)]
pub enum Status {
    Success,
    Failure,
}

/// A run succeeded exactly when the script exited with code zero; a script
/// ended by a signal has no code.
pub open spec fn status_of(code: Option<i32>) -> Status {
    if code == Some(0i32) {
        Status::Success
    } else {
        Status::Failure
    }
}

/// Every byte is ASCII.
pub open spec fn is_ascii(b: Seq<u8>) -> bool {
    forall|i: int| 0 <= i < b.len() ==> #[trigger] b[i] < 128
}

/// ASCII bytes read as the characters of the same code.
pub open spec fn ascii_chars(b: Seq<u8>) -> Seq<char> {
    b.map_values(|x: u8| x as char)
}

/// The text that `String::from_utf8_lossy` makes of these bytes.
pub uninterp spec fn lossy_text(b: Seq<u8>) -> Seq<char>;

/// Relies on std's `String::from_utf8_lossy`: text from bytes, with each
/// invalid sequence replaced; the result depends on the bytes alone, and
/// bytes that are valid UTF-8 (ASCII among them) are kept as they are.
#[verifier::external_body]
fn decode_lossy(b: &[u8]) -> (r: String)
    ensures
        r@ == lossy_text(b@),
        is_ascii(b@) ==> r@ == ascii_chars(b@),
{
    String::from_utf8_lossy(b).into_owned()
}

/// The outcome of one run: its status and the output that is kept.
pub struct ScriptResult {
    pub status: Status,
    pub output: String,
}

impl ScriptResult {
    /// Classifies a finished run: on success its standard output is kept,
    /// on failure its standard error.
    pub fn settle(code: Option<i32>, stdout: &[u8], stderr: &[u8]) -> (r: ScriptResult)
        ensures
            r.status == status_of(code),
            r.status == Status::Success ==> r.output@ == lossy_text(stdout@),
            r.status == Status::Failure ==> r.output@ == lossy_text(stderr@),
            r.status == Status::Success && is_ascii(stdout@) ==> r.output@ == ascii_chars(stdout@),
            r.status == Status::Failure && is_ascii(stderr@) ==> r.output@ == ascii_chars(stderr@),
    {
        let ok = match code {
            Some(c) => c == 0,
            None => false,
        };
        if ok {
            ScriptResult { status: Status::Success, output: decode_lossy(stdout) }
        } else {
            ScriptResult { status: Status::Failure, output: decode_lossy(stderr) }
        }
    }
}

} // verus!
