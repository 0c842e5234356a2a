use vstd::prelude::*;

verus! {

/// How many items the background workers process in all.
pub const TOTAL_ITEMS: usize = 100;

/// Nanoseconds in a second.
pub const NANOS_PER_SEC: u64 = 1_000_000_000;

/// What a status line reports about the work.
#[derive(Clone, Copy, Debug, PartialEq, Eq, Structural)]
pub enum Status {
    /// Every item is done.
    Finished,
    /// No item is done yet.
    NothingDone,
    /// `done` items are done; they took `average_secs` seconds and
    /// `average_subsec_nanos` nanoseconds each on average, and `peak_micros`
    /// microseconds at most.
    Working { done: usize, average_secs: u64, average_subsec_nanos: u32, peak_micros: u64 },
}

/// The average, in nanoseconds and rounded down, of `done` items that took
/// `total_micros` microseconds together.
pub open spec fn average_nanos(total_micros: u64, done: usize) -> int {
    (total_micros * 1000) / (done as int)
}

/// The status to report when `done` items are done, having taken `total_micros`
/// microseconds in all and `max_micros` microseconds at most.
pub fn status(done: usize, total_micros: u64, max_micros: u64) -> (s: Status)
    ensures
        done == TOTAL_ITEMS ==> s == Status::Finished,
        done == 0 ==> s == Status::NothingDone,
        done != TOTAL_ITEMS && done != 0 ==> (s matches Status::Working {
            done: d,
            average_secs: secs,
            average_subsec_nanos: nanos,
            peak_micros: peak,
        } && d == done && peak == max_micros && nanos < NANOS_PER_SEC
            && secs * NANOS_PER_SEC + nanos == average_nanos(total_micros, done)),
{
    if done == TOTAL_ITEMS {
        Status::Finished
    } else if done == 0 {
        Status::NothingDone
    } else {
        let total_nanos: u128 = (total_micros as u128) * 1000;
        let average: u128 = total_nanos / (done as u128);
        proof {
            assert(average <= total_nanos) by (nonlinear_arith)
                requires
                    average == total_nanos / (done as u128),
                    done >= 1,
            ;
            assert(average / (NANOS_PER_SEC as u128) * (NANOS_PER_SEC as u128)
                + average % (NANOS_PER_SEC as u128) == average) by (nonlinear_arith);
        }
        let secs: u128 = average / (NANOS_PER_SEC as u128);
        let nanos: u128 = average % (NANOS_PER_SEC as u128);
        Status::Working {
            done,
            average_secs: secs as u64,
            average_subsec_nanos: nanos as u32,
            peak_micros: max_micros,
        }
    }
}

/// A command typed by the user.
#[derive(Clone, Copy, Debug, PartialEq, Eq, Structural)]
pub enum Command {
    /// `help`: list the commands.
    Help,
    /// `stop`: stop the background work.
    Stop,
    /// Anything else.
    Unknown,
}

/// Whether `a` and `b` hold the same bytes.
fn bytes_equal(a: &[u8], b: &[u8]) -> (eq: bool)
    ensures
        eq == (a@ == b@),
{
    if a.len() != b.len() {
        return false;
    }
    let mut i: usize = 0;
    while i < a.len()
        invariant
            i <= a@.len(),
            a@.len() == b@.len(),
            forall|j: int| 0 <= j < i ==> a@[j] == b@[j],
        decreases a@.len() - i,
    {
        if a[i] != b[i] {
            return false;
        }
        i = i + 1;
    }
    assert(a@ =~= b@);
    true
}

/// Whether `a` and `b` are the same text: they are exactly when their UTF-8 bytes are.
fn same_text(a: &str, b: &str) -> (eq: bool)
    ensures
        eq == (a@ == b@),
{
    let eq = bytes_equal(a.as_bytes(), b.as_bytes());
    proof {
        vstd::utf8::encode_utf8_decode_utf8(a@);
        vstd::utf8::encode_utf8_decode_utf8(b@);
    }
    eq
}

/// The command that `line` names.
pub fn parse_command(line: &str) -> (c: Command)
    ensures
        c == Command::Help <==> line@ == "help"@,
        c == Command::Stop <==> line@ == "stop"@,
        c == Command::Unknown <==> line@ != "help"@ && line@ != "stop"@,
{
    proof {
        reveal_strlit("help");
        reveal_strlit("stop");
        assert("help"@[0] != "stop"@[0]);
    }
    if same_text(line, "help") {
        Command::Help
    } else if same_text(line, "stop") {
        Command::Stop
    } else {
        Command::Unknown
    }
}

} // verus!
