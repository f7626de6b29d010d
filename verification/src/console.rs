//! What is reported to the console of the host when the program panics.

use vstd::prelude::*;

verus! {

/// The line that reports a panic: `RUST PANIC: `, then the panic's own
/// message.
pub open spec fn panic_line(message: Seq<char>) -> Seq<char> {
    "RUST PANIC: "@ + message
}

/// The line that reports a panic with the given message.
pub fn panic_report(message: &str) -> (line: String)
    ensures
        line@ == panic_line(message@),
{
    let mut line = String::new();
    line.append("RUST PANIC: ");
    line.append(message);
    assert(line@ =~= panic_line(message@));
    line
}

} // verus!
