//! The direction commands of a motor driver, and what each does to the direction lines.
use vstd::prelude::*;

verus! {

/// A command on the two direction lines of a full H-bridge.
pub enum Command {
    /// Both lines HIGH: the windings are shorted.
    Brake,
    /// Line 1 HIGH, line 2 LOW.
    Clockwise,
    /// Line 1 LOW, line 2 HIGH.
    CounterClockwise,
    /// Both lines LOW: the outputs are released.
    Coast,
}

/// The levels `(in1, in2)` of the direction lines (`true` for HIGH) after `cmd`,
/// when they were at `prior` before it.
pub open spec fn lines_after(prior: (bool, bool), cmd: Command) -> (bool, bool) {
    match cmd {
        Command::Brake => (true, true),
        Command::Clockwise => (true, false),
        Command::CounterClockwise => (false, true),
        Command::Coast => (false, false),
    }
}

/// Whether the phase line of a phase/enable driver is HIGH after `cmd`, when it was
/// at `prior` before it. A phase line only selects the direction; braking is zero duty.
pub open spec fn phase_after(prior: bool, cmd: Command) -> bool {
    match cmd {
        Command::Clockwise => true,
        Command::CounterClockwise => false,
        _ => prior,
    }
}


/// Whatever state the lines were in, spinning one way and then the other leaves them
/// exactly as the second command alone sets them: no trace of the first remains.
pub proof fn lemma_last_direction_wins(prior: (bool, bool), other: (bool, bool))
    ensures
        lines_after(lines_after(prior, Command::Clockwise), Command::CounterClockwise)
            == lines_after(other, Command::CounterClockwise),
        lines_after(lines_after(prior, Command::CounterClockwise), Command::Clockwise)
            == lines_after(other, Command::Clockwise),
        lines_after(prior, Command::Clockwise) == (true, false),
        lines_after(prior, Command::CounterClockwise) == (false, true),
{
}

/// On a phase/enable driver, too, the phase line reflects the last direction command alone.
pub proof fn lemma_last_phase_wins(prior: bool, other: bool)
    ensures
        phase_after(phase_after(prior, Command::Clockwise), Command::CounterClockwise)
            == phase_after(other, Command::CounterClockwise),
        phase_after(phase_after(prior, Command::CounterClockwise), Command::Clockwise)
            == phase_after(other, Command::Clockwise),
        phase_after(prior, Command::Clockwise),
        !phase_after(prior, Command::CounterClockwise),
{
}

/// Braking drives both lines HIGH from any state, and braking again changes nothing.
pub proof fn lemma_brake_idempotent(prior: (bool, bool))
    ensures
        lines_after(prior, Command::Brake) == (true, true),
        lines_after(lines_after(prior, Command::Brake), Command::Brake) == lines_after(
            prior,
            Command::Brake,
        ),
{
}

/// Coasting drives both lines LOW from any state.
pub proof fn lemma_coast_releases(prior: (bool, bool))
    ensures
        lines_after(prior, Command::Coast) == (false, false),
{
}

} // verus!
