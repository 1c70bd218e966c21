//! The sink: the stateless singleton that accepts the records the facade
//! forwards and writes their rendered message to standard output.

use std::io::Write;
use vstd::prelude::*;
use vstd::string::StringExecFns;

verus! {

/// What emitting a message writes: exactly the message text plus one line
/// terminator.
pub open spec fn rendered(msg: Seq<char>) -> Seq<char> {
    msg.push('\n')
}

/// The rendered output keeps the message text unchanged and adds exactly one
/// terminating newline: no prefix, level label, timestamp or other bytes.
pub proof fn lemma_rendered_exact(msg: Seq<char>)
    ensures
        rendered(msg).len() == msg.len() + 1,
        rendered(msg).subrange(0, msg.len() as int) =~= msg,
        rendered(msg)[msg.len() as int] == '\n',
{
}

/// Builds the line that `emit` writes for `msg`.
pub fn render_line(msg: &str) -> (line: String)
    ensures
        line@ == rendered(msg@),
{
    let mut line = msg.to_owned();
    line.append("\n");
    proof {
        reveal_strlit("\n");
        assert(line@ =~= rendered(msg@));
    }
    line
}

/// Relies on `std::io::Stdout`: writes exactly the given text to standard
/// output; a write error is discarded.
#[verifier::external_body]
fn write_stdout(text: &str) {
    let _ = write!(std::io::stdout(), "{}", text);
}

/// The stateless sink singleton. It holds no per-record or accumulated
/// state; filtering happens upstream, against the facade's threshold.
#[derive(Clone, Copy, PartialEq, Eq, Structural, Debug)]
pub struct Sink;

impl Sink {
    /// The per-record enable check: always affirmative, since filtering is
    /// done once upstream against the global threshold.
    pub fn enabled(&self) -> (r: bool)
        ensures
            r,
    {
        true
    }

    /// Writes the record's rendered message and one line terminator to
    /// standard output. A write failure is silently discarded.
    pub fn log(&self, msg: &str) {
        let line = render_line(msg);
        write_stdout(line.as_str());
    }

    /// Nothing to do: `log` writes unbuffered.
    pub fn flush(&self) {
    }
}

} // verus!
