//! What the watchdog puts into words.

use crate::span::nanos;
use std::time::Duration;
use vstd::prelude::*;
use vstd::string::StringExecFns;

verus! {

/// How `std` shows a duration of that many nanoseconds in its `Debug` format.
pub uninterp spec fn shown(length: nat) -> Seq<char>;

/// `Duration`'s `Debug` format, through `format!`. Claims only that the text depends on nothing
/// but the length of the duration.
#[verifier::external_body]
pub(crate) fn show(d: Duration) -> (text: String)
    ensures
        text@ == shown(nanos(d)),
{
    format!("{:?}", d)
}

/// The words with which a watchdog panics.
pub open spec fn panic_report(
    thread_name: Seq<char>,
    elapsed: Seq<char>,
    timeout: Seq<char>,
    exe_name: Seq<char>,
) -> Seq<char> {
    thread_name + " panicked: "@ + elapsed + " since last heartbeat > "@ + timeout + ", exe = "@
        + exe_name
}

/// The words with which a watchdog panics, given how long ago the last heartbeat was, how long it
/// may be ago, and the name of the program.
pub fn panic_message(thread_name: &str, elapsed: &str, timeout: &str, exe_name: &str) -> (message:
    String)
    ensures
        message@ == panic_report(thread_name@, elapsed@, timeout@, exe_name@),
{
    let mut message = thread_name.to_owned();
    message.append(" panicked: ");
    message.append(elapsed);
    message.append(" since last heartbeat > ");
    message.append(timeout);
    message.append(", exe = ");
    message.append(exe_name);
    message
}

/// The name under which the program is reported: its own where it is known, else a question
/// mark.
pub fn exe_label(exe_name: Option<String>) -> (label: String)
    ensures
        label@ == match exe_name {
            Some(name) => name@,
            None => "?"@,
        },
{
    match exe_name {
        Some(name) => name,
        None => "?".to_owned(),
    }
}

/// What a watchdog says when it panics names, in this order, its thread, the time since the last
/// heartbeat, the timeout, and the program, each in full and each after the words that tell what it
/// is.
pub proof fn the_panic_report_names_what_was_missed(
    thread_name: Seq<char>,
    elapsed: Seq<char>,
    timeout: Seq<char>,
    exe_name: Seq<char>,
)
    ensures
        ({
            let report = panic_report(thread_name, elapsed, timeout, exe_name);
            let a = thread_name.len() as int;
            let b = a + 11;
            let c = b + elapsed.len();
            let d = c + 24;
            let e = d + timeout.len();
            let f = e + 8;
            &&& report.len() == f + exe_name.len()
            &&& report.subrange(0, a) == thread_name
            &&& report.subrange(a, b) == " panicked: "@
            &&& report.subrange(b, c) == elapsed
            &&& report.subrange(c, d) == " since last heartbeat > "@
            &&& report.subrange(d, e) == timeout
            &&& report.subrange(e, f) == ", exe = "@
            &&& report.subrange(f, report.len() as int) == exe_name
        }),
{
    reveal_strlit(" panicked: ");
    reveal_strlit(" since last heartbeat > ");
    reveal_strlit(", exe = ");
    let report = panic_report(thread_name, elapsed, timeout, exe_name);
    let a = thread_name.len() as int;
    let b = a + 11;
    let c = b + elapsed.len();
    let d = c + 24;
    let e = d + timeout.len();
    let f = e + 8;
    assert(report.subrange(0, a) =~= thread_name);
    assert(report.subrange(a, b) =~= " panicked: "@);
    assert(report.subrange(b, c) =~= elapsed);
    assert(report.subrange(c, d) =~= " since last heartbeat > "@);
    assert(report.subrange(d, e) =~= timeout);
    assert(report.subrange(e, f) =~= ", exe = "@);
    assert(report.subrange(f, report.len() as int) =~= exe_name);
}

} // verus!
