//! Starting and stopping the server in the background.

use vstd::prelude::*;
use vstd::string::*;

use crate::text::{chars_of, join2, join3, signed_decimal, signed_text, trim, trimmed};

verus! {

/// Whether a character is a decimal digit.
pub open spec fn is_digit(c: char) -> bool {
    '0' <= c <= '9'
}

/// The number that decimal digits stand for.
pub open spec fn digits_value(digits: Seq<char>) -> int
    decreases digits.len(),
{
    if digits.len() == 0 {
        0
    } else {
        10 * digits_value(digits.drop_last()) + (digits.last() as int - '0' as int)
    }
}

/// Whether a text is one or more decimal digits.
pub open spec fn all_digits(digits: Seq<char>) -> bool {
    digits.len() > 0 && forall|i: int| 0 <= i < digits.len() ==> is_digit(#[trigger] digits[i])
}

/// Whether a text has a sign in front.
pub open spec fn has_sign(text: Seq<char>) -> bool {
    text.len() > 0 && (text[0] == '-' || text[0] == '+')
}

/// The digits of a number with or without a sign.
pub open spec fn digits_of(text: Seq<char>) -> Seq<char> {
    if has_sign(text) {
        text.skip(1)
    } else {
        text
    }
}

/// The integer that a text stands for: decimal digits, with or without a sign in front.
pub open spec fn integer_of(text: Seq<char>) -> Option<int> {
    if all_digits(digits_of(text)) {
        if text[0] == '-' {
            Some(-digits_value(digits_of(text)))
        } else {
            Some(digits_value(digits_of(text)))
        }
    } else {
        None
    }
}

/// The process id that a file holds: an integer that fits, with blanks around it or not.
pub open spec fn pid_of(content: Seq<char>) -> Option<i32> {
    match integer_of(trimmed(content)) {
        Some(n) => if i32::MIN <= n <= i32::MAX {
            Some(n as i32)
        } else {
            None
        },
        None => None,
    }
}

/// More digits stand for a larger number.
proof fn lemma_digits_grow(digits: Seq<char>, n: int)
    requires
        0 <= n <= digits.len(),
        forall|i: int| 0 <= i < digits.len() ==> is_digit(#[trigger] digits[i]),
    ensures
        0 <= digits_value(digits.take(n)) <= digits_value(digits),
    decreases digits.len(),
{
    if n == digits.len() {
        assert(digits.take(n) == digits);
        if n > 0 {
            lemma_digits_grow(digits.drop_last(), n - 1);
        }
    } else {
        lemma_digits_grow(digits.drop_last(), n);
        assert(digits.drop_last().take(n) == digits.take(n));
        assert(is_digit(digits[digits.len() - 1]));
    }
}

/// Reads the process id that a file holds.
pub fn read_pid(content: &str) -> (r: Option<i32>)
    ensures
        r == pid_of(content@),
{
    let text = trim(content);
    let chars = chars_of(text.as_str());
    let ghost whole = chars@;
    if chars.len() == 0 {
        return None;
    }
    let negative = chars[0] == '-';
    let start: usize = if negative || chars[0] == '+' {
        1
    } else {
        0
    };
    let ghost digits = digits_of(whole);
    assert(digits == whole.skip(start as int));
    if chars.len() == start {
        return None;
    }
    let limit: i64 = 2147483648;
    let mut value: i64 = 0;
    let mut i: usize = start;
    while i < chars.len()
        invariant
            start <= i <= chars.len(),
            start <= 1,
            chars@ == whole,
            whole == trimmed(content@),
            digits == whole.skip(start as int),
            digits == digits_of(whole),
            limit == 2147483648,
            negative == (whole[0] == '-'),
            0 <= value <= limit,
            value == digits_value(digits.take(i - start)),
            forall|k: int| 0 <= k < i - start ==> is_digit(#[trigger] digits[k]),
        decreases chars.len() - i,
    {
        let c = chars[i];
        assert(digits[i - start] == c);
        if c < '0' || c > '9' {
            assert(!is_digit(digits[i - start]));
            return None;
        }
        proof {
            assert(digits.take(i - start + 1).drop_last() == digits.take(i - start));
        }
        let next: i64 = 10 * value + (c as i64 - '0' as i64);
        if next > limit {
            proof {
                if all_digits(digits) {
                    lemma_digits_grow(digits, i - start + 1);
                }
            }
            return None;
        }
        value = next;
        i = i + 1;
    }
    assert(digits.take(digits.len() as int) == digits);
    if negative {
        Some((-value) as i32)
    } else if value < limit {
        Some(value as i32)
    } else {
        None
    }
}

/// What is found where the process id of the server in the background is kept.
#[derive(Debug)]
pub enum PidFile {
    Absent,
    Unreadable,
    Holds(String),
}

/// The process to ask for before the server is started.
pub open spec fn probed(file: PidFile) -> Option<i32> {
    match file {
        PidFile::Holds(content) => pid_of(content@),
        _ => None,
    }
}

/// The process to ask for before the server is started.
pub fn process_to_probe(file: &PidFile) -> (r: Option<i32>)
    ensures
        r == probed(*file),
{
    match file {
        PidFile::Holds(content) => read_pid(content.as_str()),
        _ => None,
    }
}

/// How the server is started in the background.
#[derive(Debug)]
pub enum Start {
    Go,
    /// Remove the file that an earlier server left behind first.
    CleanUp,
    /// Do not: the message says why.
    Refuse(String),
}

/// Whether this is how the server is started, given whether the process that was asked for
/// is running.
pub open spec fn starts(file: PidFile, running: bool, start: Start) -> bool {
    match probed(file) {
        Some(pid) if running => start matches Start::Refuse(message) && message@
            == "Daemon already running with PID "@ + signed_decimal(pid as int)
            + ". Use 'signal-mcp stop' to stop it."@,
        _ => if file is Absent {
            start is Go
        } else {
            start is CleanUp
        },
    }
}

/// Decides how the server is started in the background, given whether the process that
/// was asked for is running.
pub fn daemonize(file: &PidFile, running: bool) -> (r: Start)
    ensures
        starts(*file, running, r),
{
    if let Some(pid) = process_to_probe(file) {
        if running {
            let number = signed_text(pid);
            return Start::Refuse(
                join3(
                    "Daemon already running with PID ",
                    number.as_str(),
                    ". Use 'signal-mcp stop' to stop it.",
                ),
            );
        }
    }
    match file {
        PidFile::Absent => Start::Go,
        _ => Start::CleanUp,
    }
}

/// How often a process that was asked to end is looked for.
pub const STOP_POLLS: u32 = 50;

/// How long to wait before each look.
pub const STOP_POLL_MILLIS: u64 = 100;

/// What to do next while stopping the server in the background.
#[derive(Debug)]
pub enum StopAction {
    /// Find out whether the process is running.
    Probe,
    /// Say so, and ask the process to end.
    Terminate { say: String },
    /// Wait a moment, then find out whether the process is running.
    Poll,
    /// Say so, remove the file if that is asked for, and end.
    Finish { say: String, remove_file: bool },
    /// End with an error.
    Fail { message: String },
}

/// What to do next while stopping the server, in words.
pub enum StopView {
    Probe,
    Terminate { say: Seq<char> },
    Poll,
    Finish { say: Seq<char>, remove_file: bool },
    Fail { message: Seq<char> },
}

impl View for StopAction {
    type V = StopView;

    open spec fn view(&self) -> StopView {
        match *self {
            StopAction::Probe => StopView::Probe,
            StopAction::Terminate { say } => StopView::Terminate { say: say@ },
            StopAction::Poll => StopView::Poll,
            StopAction::Finish { say, remove_file } => StopView::Finish { say: say@, remove_file },
            StopAction::Fail { message } => StopView::Fail { message: message@ },
        }
    }
}

/// The server in the background while it is being stopped.
#[derive(Debug, Clone, Copy)]
pub struct Stopping {
    pub pid: i32,
    /// How often the process was still running after it was asked to end.
    pub polls: u32,
}

/// How stopping the server begins, given what its file holds, if it is there.
pub open spec fn stop_begins(content: Option<Seq<char>>) -> (Option<Stopping>, StopView) {
    match content {
        None => (
            None,
            StopView::Finish {
                say: "No daemon running (PID file not found)"@,
                remove_file: false,
            },
        ),
        Some(text) => match pid_of(text) {
            Some(pid) => (Some(Stopping { pid, polls: 0 }), StopView::Probe),
            None => (None, StopView::Fail { message: "Invalid PID in file: "@ + text }),
        },
    }
}

/// How stopping the server begins, given what its file holds, if it is there.
pub fn stop_daemon(content: Option<String>) -> (r: (Option<Stopping>, StopAction))
    ensures
        (r.0, r.1@) == stop_begins(content.deep_view()),
{
    match content {
        None => (
            None,
            StopAction::Finish {
                say: "No daemon running (PID file not found)".to_owned(),
                remove_file: false,
            },
        ),
        Some(text) => match read_pid(text.as_str()) {
            Some(pid) => (Some(Stopping { pid, polls: 0 }), StopAction::Probe),
            None => (
                None,
                StopAction::Fail { message: join2("Invalid PID in file: ", text.as_str()) },
            ),
        },
    }
}

/// What to do once it is known whether the process is running.
pub open spec fn after_probe(pid: i32, running: bool) -> StopView {
    if running {
        StopView::Terminate {
            say: "Sending SIGTERM to daemon (PID "@ + signed_decimal(pid as int) + ")"@,
        }
    } else {
        StopView::Finish {
            say: "Daemon not running (stale PID file), cleaning up"@,
            remove_file: true,
        }
    }
}

/// What to do once the process was asked to end, or could not be.
pub open spec fn after_signal(pid: i32, sent: bool) -> StopView {
    if sent {
        StopView::Poll
    } else {
        StopView::Fail {
            message: "Failed to send SIGTERM to PID "@ + signed_decimal(pid as int),
        }
    }
}

/// What to do once the process was looked for, after it was found running the given
/// number of times.
pub open spec fn after_poll(polls: u32, running: bool) -> StopView {
    if !running {
        StopView::Finish { say: "Daemon stopped"@, remove_file: true }
    } else if polls + 1 < STOP_POLLS {
        StopView::Poll
    } else {
        StopView::Finish {
            say: "Daemon did not stop within 5 seconds, you may need to kill it manually"@,
            remove_file: false,
        }
    }
}

impl Stopping {
    /// What to do once it is known whether the process is running.
    pub fn probed(&self, running: bool) -> (r: StopAction)
        ensures
            r@ == after_probe(self.pid, running),
    {
        if running {
            let number = signed_text(self.pid);
            StopAction::Terminate {
                say: join3("Sending SIGTERM to daemon (PID ", number.as_str(), ")"),
            }
        } else {
            StopAction::Finish {
                say: "Daemon not running (stale PID file), cleaning up".to_owned(),
                remove_file: true,
            }
        }
    }

    /// What to do once the process was asked to end, or could not be.
    pub fn signalled(&self, sent: bool) -> (r: StopAction)
        ensures
            r@ == after_signal(self.pid, sent),
    {
        if sent {
            StopAction::Poll
        } else {
            let number = signed_text(self.pid);
            StopAction::Fail { message: join2("Failed to send SIGTERM to PID ", number.as_str()) }
        }
    }

    /// What to do once the process was looked for.
    pub fn polled(&mut self, running: bool) -> (r: StopAction)
        requires
            old(self).polls < STOP_POLLS,
        ensures
            final(self).pid == old(self).pid,
            final(self).polls == old(self).polls + if running {
                1int
            } else {
                0int
            },
            r@ == after_poll(old(self).polls, running),
            r@ is Poll ==> final(self).polls < STOP_POLLS,
    {
        if !running {
            return StopAction::Finish { say: "Daemon stopped".to_owned(), remove_file: true };
        }
        self.polls = self.polls + 1;
        if self.polls < STOP_POLLS {
            StopAction::Poll
        } else {
            StopAction::Finish {
                say:
                    "Daemon did not stop within 5 seconds, you may need to kill it manually".to_owned(),
                remove_file: false,
            }
        }
    }
}

/// A process that keeps running is looked for until five seconds were waited, and no
/// longer.
pub proof fn stopping_takes_five_seconds(polls: u32)
    requires
        polls < STOP_POLLS,
    ensures
        after_poll(polls, true) is Poll <==> (polls + 1) * STOP_POLL_MILLIS < 5000,
        STOP_POLLS * STOP_POLL_MILLIS == 5000,
{
}

/// The file is removed if and only if the process is known not to run.
pub proof fn file_goes_with_the_process(pid: i32, polls: u32, running: bool)
    ensures
        after_probe(pid, running) matches StopView::Finish { remove_file, .. } ==> remove_file
            == !running,
        after_poll(polls, running) matches StopView::Finish { remove_file, .. } ==> remove_file
            == !running,
{
}

} // verus!
