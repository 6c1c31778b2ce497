//! What numbers look like in decimal, and what blanks mean.

use vstd::prelude::*;

use crate::daemon::{
    after_poll, after_probe, after_signal, all_digits, digits_of, digits_value, integer_of,
    is_digit, pid_of, probed, starts, stop_begins, PidFile, Start, StopView, Stopping,
};
use crate::text::{
    decimal, digit, is_space, padded, signed_decimal, trim_end, trim_start, trimmed,
};

verus! {

/// The ten digits stand in their order, each for its own number.
pub proof fn digits_are_in_order(d: int, c: char)
    requires
        0 <= d < 10,
    ensures
        digit(d) as int == '0' as int + d,
        is_digit(digit(d)),
        is_digit(c) <==> '0' as int <= c as int <= '9' as int,
{
}

/// A digit behind others counts one, and those before it count ten times as much.
pub proof fn digits_count_by_tens(digits: Seq<char>, c: char)
    ensures
        digits_value(Seq::empty()) == 0,
        digits_value(digits.push(c)) == 10 * digits_value(digits) + (c as int - '0' as int),
{
    assert(digits.push(c).drop_last() =~= digits);
}

/// A number is written with digits that stand for it, the first of them no zero unless it is
/// the only one.
pub proof fn decimals_stand_for_their_numbers(n: nat)
    ensures
        digits_value(decimal(n)) == n,
        all_digits(decimal(n)),
        decimal(n).len() > 1 ==> decimal(n)[0] != '0',
        n > 0 ==> decimal(n)[0] != '0',
    decreases n,
{
    let last = digit((n % 10) as int);
    if n < 10 {
        let none = Seq::<char>::empty();
        assert(decimal(n) =~= none.push(last));
        digits_count_by_tens(none, last);
    } else {
        let before = decimal(n / 10);
        decimals_stand_for_their_numbers(n / 10);
        digits_count_by_tens(before, last);
        assert forall|i: int| 0 <= i < decimal(n).len() implies is_digit(
            #[trigger] decimal(n)[i],
        ) by {
            if i < before.len() {
                assert(decimal(n)[i] == before[i]);
            }
        }
    }
}

/// Different numbers look different.
pub proof fn different_numbers_look_different(a: int, b: int)
    requires
        a != b,
    ensures
        signed_decimal(a) != signed_decimal(b),
{
    written_numbers_are_read(a);
    written_numbers_are_read(b);
}

/// A number that was written in decimal, with a sign or without, is read as itself.
pub proof fn written_numbers_are_read(n: int)
    ensures
        integer_of(signed_decimal(n)) == Some(n),
        n >= 0 ==> integer_of(seq!['+'] + decimal(n as nat)) == Some(n),
{
    let digits = decimal(if n < 0 {
        (-n) as nat
    } else {
        n as nat
    });
    decimals_stand_for_their_numbers(
        if n < 0 {
            (-n) as nat
        } else {
            n as nat
        },
    );
    assert(is_digit(digits[0]));
    assert((seq!['-'] + digits).skip(1) =~= digits);
    assert((seq!['+'] + digits).skip(1) =~= digits);
}

/// What holds anything but digits behind its sign is no number, and neither is a sign alone.
pub proof fn other_texts_are_no_numbers(text: Seq<char>, i: int)
    requires
        0 <= i < text.len(),
        !('0' as int <= text[i] as int <= '9' as int),
        i == 0 ==> text.len() == 1 || (text[0] != '-' && text[0] != '+'),
    ensures
        integer_of(text) is None,
        integer_of(Seq::empty()) is None,
{
    let digits = digits_of(text);
    if text[0] == '-' || text[0] == '+' {
        if i > 0 {
            assert(digits[i - 1] == text[i]);
        }
    } else {
        assert(digits[i] == text[i]);
    }
}

/// What is blank: the characters from tab to carriage return, the space, and the blanks
/// outside of ASCII.
pub proof fn blanks_are_these(c: char)
    ensures
        (c as int) < 128 ==> (is_space(c) <==> 9 <= c as int <= 13 || c as int == 32),
        c as int >= 128 ==> (is_space(c) <==> c as int == 0x85 || c as int == 0xa0 || c as int
            == 0x1680 || 0x2000 <= c as int <= 0x200a || c as int == 0x2028 || c as int == 0x2029
            || c as int == 0x202f || c as int == 0x205f || c as int == 0x3000),
{
}

/// Whether a text is blank.
pub open spec fn blank(s: Seq<char>) -> bool {
    forall|i: int| 0 <= i < s.len() ==> is_space(#[trigger] s[i])
}

/// Whether a text neither starts nor ends with a blank.
pub open spec fn bare(s: Seq<char>) -> bool {
    s.len() > 0 ==> !is_space(s[0]) && !is_space(s.last())
}

/// Blanks in front are cut off.
proof fn lemma_trim_start(front: Seq<char>, s: Seq<char>)
    requires
        blank(front),
        s.len() > 0 ==> !is_space(s[0]),
    ensures
        trim_start(front + s) == s,
    decreases front.len(),
{
    if front.len() == 0 {
        assert(front + s =~= s);
    } else {
        assert(is_space(front[0]));
        let rest = front.drop_first();
        assert forall|i: int| 0 <= i < rest.len() implies is_space(#[trigger] rest[i]) by {
            assert(rest[i] == front[i + 1]);
        }
        assert((front + s).drop_first() =~= rest + s);
        lemma_trim_start(rest, s);
    }
}

/// Blanks at the end are cut off.
proof fn lemma_trim_end(s: Seq<char>, back: Seq<char>)
    requires
        blank(back),
        s.len() > 0 ==> !is_space(s.last()),
    ensures
        trim_end(s + back) == s,
    decreases back.len(),
{
    if back.len() == 0 {
        assert(s + back =~= s);
    } else {
        assert(is_space(back[back.len() - 1]));
        assert((s + back).last() == back.last());
        assert((s + back).drop_last() =~= s + back.drop_last());
        lemma_trim_end(s, back.drop_last());
    }
}

/// Trimming cuts off the blanks at both ends, and nothing else.
pub proof fn only_blanks_are_cut_off(front: Seq<char>, s: Seq<char>, back: Seq<char>)
    requires
        blank(front),
        blank(back),
        bare(s),
    ensures
        trimmed(front + s + back) == s,
{
    if s.len() > 0 {
        assert(front + s + back =~= front + (s + back));
        assert((s + back)[0] == s[0]);
        lemma_trim_start(front, s + back);
        lemma_trim_end(s, back);
    } else {
        let all = front + s + back;
        assert forall|i: int| 0 <= i < all.len() implies is_space(#[trigger] all[i]) by {
            if i < front.len() {
                assert(all[i] == front[i]);
            } else {
                assert(all[i] == back[i - front.len()]);
            }
        }
        assert(all + s =~= all);
        lemma_trim_start(all, s);
        assert(s =~= Seq::<char>::empty());
    }
}

/// A process id that was written to a file is read from it, whatever blanks are around it.
pub proof fn a_written_process_id_is_read(front: Seq<char>, pid: i32, back: Seq<char>)
    requires
        blank(front),
        blank(back),
    ensures
        pid_of(front + signed_decimal(pid as int) + back) == Some(pid),
{
    let text = signed_decimal(pid as int);
    written_numbers_are_read(pid as int);
    let n: nat = if pid < 0 {
        (-pid) as nat
    } else {
        pid as nat
    };
    let digits = decimal(n);
    decimals_stand_for_their_numbers(n);
    assert(is_digit(digits[0]));
    assert(is_digit(digits[digits.len() - 1]));
    assert(text.last() == digits.last());
    only_blanks_are_cut_off(front, text, back);
}

/// A number that does not fit is no process id.
pub proof fn large_numbers_are_no_process_ids(n: int)
    requires
        n < -0x8000_0000 || n > 0x7fff_ffff,
    ensures
        pid_of(signed_decimal(n)) is None,
{
    let text = signed_decimal(n);
    written_numbers_are_read(n);
    let m: nat = if n < 0 {
        (-n) as nat
    } else {
        n as nat
    };
    let digits = decimal(m);
    decimals_stand_for_their_numbers(m);
    assert(is_digit(digits[0]));
    assert(is_digit(digits[digits.len() - 1]));
    assert(text.last() == digits.last());
    let none = Seq::<char>::empty();
    assert(none + text + none =~= text);
    only_blanks_are_cut_off(none, text, none);
}

/// A text is filled up with spaces to the width, and never cut.
pub proof fn padding_only_adds_spaces(s: Seq<char>, width: nat)
    ensures
        padded(s, width).len() == if s.len() < width {
            width
        } else {
            s.len()
        },
        padded(s, width).take(s.len() as int) =~= s,
        forall|i: int| s.len() <= i < width ==> #[trigger] padded(s, width)[i] == ' ',
{
}

/// The process that is asked for is the one that the file names.
pub proof fn the_file_names_the_process(content: String)
    ensures
        probed(PidFile::Holds(content)) == pid_of(content@),
        probed(PidFile::Absent) is None,
        probed(PidFile::Unreadable) is None,
{
}

/// What is said while stopping names the process that is stopped.
pub proof fn stopping_names_the_process(pid: i32, polls: u32)
    requires
        polls < 50,
    ensures
        after_probe(pid, true) == (StopView::Terminate {
            say: "Sending SIGTERM to daemon (PID "@ + signed_decimal(pid as int) + ")"@,
        }),
        after_probe(pid, false) == (StopView::Finish {
            say: "Daemon not running (stale PID file), cleaning up"@,
            remove_file: true,
        }),
        after_signal(pid, true) is Poll,
        after_signal(pid, false) == (StopView::Fail {
            message: "Failed to send SIGTERM to PID "@ + signed_decimal(pid as int),
        }),
        after_poll(polls, false) == (StopView::Finish {
            say: "Daemon stopped"@,
            remove_file: true,
        }),
        polls < 49 ==> after_poll(polls, true) is Poll,
        polls == 49 ==> after_poll(polls, true) == (StopView::Finish {
            say: "Daemon did not stop within 5 seconds, you may need to kill it manually"@,
            remove_file: false,
        }),
{
}

/// A server whose process is running is not started again, and its process is named; what
/// an earlier one left behind is cleaned up, and where there is nothing it just starts.
pub proof fn a_running_server_is_not_started_again(
    content: String,
    front: Seq<char>,
    pid: i32,
    back: Seq<char>,
    start: Start,
    running: bool,
)
    requires
        content@ == front + signed_decimal(pid as int) + back,
        blank(front),
        blank(back),
    ensures
        starts(PidFile::Holds(content), true, start) ==> (start matches Start::Refuse(message)
            && message@ == "Daemon already running with PID "@ + signed_decimal(pid as int)
            + ". Use 'signal-mcp stop' to stop it."@),
        starts(PidFile::Holds(content), false, start) ==> start is CleanUp,
        starts(PidFile::Unreadable, running, start) ==> start is CleanUp,
        starts(PidFile::Absent, running, start) ==> start is Go,
        stop_begins(Some(content@)) == (Some(Stopping { pid, polls: 0 }), StopView::Probe),
{
    a_written_process_id_is_read(front, pid, back);
}

/// Where there is no process to stop, stopping ends at once, with an error where the file
/// holds no process id, and the file stays.
pub proof fn nothing_to_stop_is_said(text: Seq<char>)
    requires
        pid_of(text) is None,
    ensures
        stop_begins(None) == (
            None::<Stopping>,
            StopView::Finish {
                say: "No daemon running (PID file not found)"@,
                remove_file: false,
            },
        ),
        stop_begins(Some(text)) == (
            None::<Stopping>,
            StopView::Fail { message: "Invalid PID in file: "@ + text },
        ),
{
}

/// Digits stand for their number whatever zeros they start with, and a sign in front of them
/// counts; a process id is any such number that fits, without the blanks around it.
pub proof fn digits_are_read_with_their_sign(digits: Seq<char>, text: Seq<char>, pid: i32)
    requires
        digits.len() > 0,
        forall|i: int| 0 <= i < digits.len() ==> '0' <= #[trigger] digits[i] <= '9',
    ensures
        integer_of(digits) == Some(digits_value(digits)),
        integer_of(seq!['+'] + digits) == Some(digits_value(digits)),
        integer_of(seq!['-'] + digits) == Some(-digits_value(digits)),
        pid_of(text) == Some(pid) <==> integer_of(trimmed(text)) == Some(pid as int),
{
    assert(is_digit(digits[0]));
    assert((seq!['-'] + digits).skip(1) =~= digits);
    assert((seq!['+'] + digits).skip(1) =~= digits);
    assert(all_digits(digits));
}

} // verus!
