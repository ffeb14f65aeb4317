//! What every stage shares besides text and deduplication: the form of a
//! line in the log.

use vstd::prelude::*;

verus! {

/// The width to which the name of a stage is padded in the log, so that
/// the messages of all stages line up.
pub const LOG_PREFIX_WIDTH: usize = 16;

/// `n` spaces.
pub open spec fn spaces(n: nat) -> Seq<char> {
    Seq::new(n, |i: int| ' ')
}

/// The line that reports `message` for the stage `prefix`: the name of the
/// stage, padded with spaces to the width of the log prefix where it is
/// shorter, then a colon, a space and the message.
pub open spec fn log_line(prefix: Seq<char>, message: Seq<char>) -> Seq<char> {
    let pad = if prefix.len() < LOG_PREFIX_WIDTH {
        (LOG_PREFIX_WIDTH - prefix.len()) as nat
    } else {
        0
    };
    prefix + spaces(pad) + ": "@ + message
}

/// The line that reports `message` for the stage `prefix`.
pub fn log(prefix: &str, message: &str) -> (line: String)
    ensures
        line@ == log_line(prefix@, message@),
{
    let mut line = prefix.to_owned();
    let mut width = prefix.unicode_len();
    let ghost pad = if prefix@.len() < LOG_PREFIX_WIDTH {
        (LOG_PREFIX_WIDTH - prefix@.len()) as nat
    } else {
        0
    };
    assert(line@ =~= prefix@ + spaces(0));
    while width < LOG_PREFIX_WIDTH
        invariant
            prefix@.len() <= width,
            width <= LOG_PREFIX_WIDTH || width == prefix@.len(),
            line@ == prefix@ + spaces((width - prefix@.len()) as nat),
        decreases LOG_PREFIX_WIDTH - width,
    {
        let ghost before = line@;
        line.append(" ");
        proof {
            reveal_strlit(" ");
            assert(" "@ =~= seq![' ']);
            assert(line@ =~= prefix@ + spaces((width + 1 - prefix@.len()) as nat));
        }
        width += 1;
    }
    assert((width - prefix@.len()) as nat == pad);
    line.append(": ");
    line.append(message);
    line
}

} // verus!
