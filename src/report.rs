use vstd::prelude::*;
use vstd::string::*;

use crate::script::{quoted, ScriptResult, Status};
use crate::stamp::{now_utc, Timestamp};

verus! {

pub open spec fn status_text(s: Status) -> Seq<char> {
    match s {
        Status::Success => "OK"@,
        Status::Failure => "ERR"@,
    }
}

/// `results/<name>_<timestamp>_<OK|ERR>.txt`
pub open spec fn result_path(name: Seq<char>, t: Timestamp, s: Status) -> Seq<char> {
    "results/"@ + name + "_"@ + t.text() + "_"@ + status_text(s) + ".txt"@
}

/// The status as it is written in file names and on the console.
pub fn status_label(s: Status) -> (r: &'static str)
    ensures
        r@ == status_text(s),
{
    proof {
        reveal_strlit("OK");
        reveal_strlit("ERR");
    }
    match s {
        Status::Success => "OK",
        Status::Failure => "ERR",
    }
}

/// Where the result of a run of script `name` at `t` is written.
pub fn result_file_name(name: &str, t: &Timestamp, s: Status) -> (r: String)
    requires
        t.wf(),
    ensures
        r@ == result_path(name@, *t, s),
{
    proof {
        reveal_strlit("results/");
        reveal_strlit("_");
        reveal_strlit(".txt");
    }
    let mut r = String::from_str("results/");
    r.append(name);
    r.append("_");
    let stamp = t.to_text();
    r.append(stamp.as_str());
    r.append("_");
    r.append(status_label(s));
    r.append(".txt");
    r
}

/// Where the result of a run of script `name` that ends now is written.
pub fn result_file_name_now(name: &str, s: Status) -> (r: String)
    ensures
        exists|t: Timestamp| t.wf() && r@ == result_path(name@, t, s),
{
    let t = now_utc();
    result_file_name(name, &t, s)
}

pub open spec fn is_digit(c: char) -> bool {
    '0' <= c <= '9'
}

/// Four digits, `-`, two digits, `-`, two digits, `T`, then three pairs of
/// digits parted by `-`.
pub open spec fn stamp_shaped(x: Seq<char>) -> bool {
    &&& x.len() == 19
    &&& x[4] == '-' && x[7] == '-' && x[10] == 'T' && x[13] == '-' && x[16] == '-'
    &&& forall|i: int|
        0 <= i < 19 && i != 4 && i != 7 && i != 10 && i != 13 && i != 16 ==> is_digit(
            #[trigger] x[i],
        )
}

proof fn lemma_fixed_digits(n: nat, w: nat)
    ensures
        crate::stamp::fixed(n, w).len() == w,
        forall|i: int| 0 <= i < w ==> is_digit(#[trigger] crate::stamp::fixed(n, w)[i]),
    decreases w,
{
    reveal_strlit("0123456789");
    if w > 0 {
        lemma_fixed_digits(n / 10, (w - 1) as nat);
        let d = (n % 10) as int;
        assert(is_digit(crate::stamp::digit(d)));
    }
}

/// Every result file is `results/<name>_<YYYY-MM-DDTHH-MM-SS>_<OK|ERR>.txt`,
/// for every year that has four digits.
pub proof fn lemma_result_path_shape(name: Seq<char>, t: Timestamp, s: Status)
    requires
        t.wf(),
        0 <= t.year <= 9999,
    ensures
        stamp_shaped(t.text()),
        status_text(s) == "OK"@ || status_text(s) == "ERR"@,
{
    lemma_fixed_digits(t.year as nat, 4);
    lemma_fixed_digits(t.month as nat, 2);
    lemma_fixed_digits(t.day as nat, 2);
    lemma_fixed_digits(t.hour as nat, 2);
    lemma_fixed_digits(t.minute as nat, 2);
    lemma_fixed_digits(t.second as nat, 2);
    let x = t.text();
    assert forall|i: int|
        0 <= i < 19 && i != 4 && i != 7 && i != 10 && i != 13 && i != 16 implies is_digit(
            #[trigger] x[i],
        ) by {
        if i < 4 {
            assert(x[i] == crate::stamp::fixed(t.year as nat, 4)[i]);
        } else if i < 7 {
            assert(x[i] == crate::stamp::fixed(t.month as nat, 2)[i - 5]);
        } else if i < 10 {
            assert(x[i] == crate::stamp::fixed(t.day as nat, 2)[i - 8]);
        } else if i < 13 {
            assert(x[i] == crate::stamp::fixed(t.hour as nat, 2)[i - 11]);
        } else if i < 16 {
            assert(x[i] == crate::stamp::fixed(t.minute as nat, 2)[i - 14]);
        } else {
            assert(x[i] == crate::stamp::fixed(t.second as nat, 2)[i - 17]);
        }
    }
}

/// `<OK|ERR>: <name>: <output>`
pub open spec fn summary_text(s: Status, name: Seq<char>, output: Seq<char>) -> Seq<char> {
    status_text(s) + ": "@ + name + ": "@ + output
}

/// The console line that reports a finished run.
pub fn summary_line(r: &ScriptResult, name: &str) -> (line: String)
    ensures
        line@ == summary_text(r.status, name@, r.output@),
{
    proof {
        reveal_strlit(": ");
    }
    let mut line = String::from_str(status_label(r.status));
    line.append(": ");
    line.append(name);
    line.append(": ");
    line.append(r.output.as_str());
    line
}

/// A console line, and whether it reports a failure.
pub struct Notice {
    pub text: String,
    pub alert: bool,
}

pub open spec fn saved_text(s: Status, file: Seq<char>) -> Seq<char> {
    match s {
        Status::Success => "Results saved in "@ + file,
        Status::Failure => "Error executing script, results saved in "@ + file,
    }
}

/// The console line that says where a result was written; a failed run's
/// line is an alert.
pub fn saved_notice(s: Status, file: &str) -> (n: Notice)
    ensures
        n.text@ == saved_text(s, file@),
        n.alert == (s == Status::Failure),
{
    proof {
        reveal_strlit("Results saved in ");
        reveal_strlit("Error executing script, results saved in ");
    }
    let mut text = match s {
        Status::Success => String::from_str("Results saved in "),
        Status::Failure => String::from_str("Error executing script, results saved in "),
    };
    text.append(file);
    Notice { text, alert: s == Status::Failure }
}

/// The console line shown when watching starts.
pub fn watching_line(root: &str) -> (line: String)
    ensures
        line@ == "Watching for changes in "@ + root@,
{
    proof {
        reveal_strlit("Watching for changes in ");
    }
    let mut line = String::from_str("Watching for changes in ");
    line.append(root);
    line
}

/// The console line shown before a script runs.
pub fn processing_line(path: &str) -> (line: String)
    ensures
        line@ == "Processing file: "@ + quoted(path@),
{
    proof {
        reveal_strlit("Processing file: ");
    }
    let mut line = String::from_str("Processing file: ");
    let q = crate::script::quote(path);
    line.append(q.as_str());
    line
}

} // verus!
