use vstd::prelude::*;

verus! {

/// An operation on the audio sink, to be performed by the caller in order.
#[derive(Debug, PartialEq, Eq)]
pub enum SinkCommand {
    /// Clear the sink's queue.
    Stop,
    /// Drop the track at the head of the queue, if any.
    SkipOne,
    /// Open the track at this path and append it to the queue.
    Append(String),
    /// Set the gain, in thousandths.
    SetVolume(u32),
    /// Resume playback.
    Resume,
    /// Pause playback.
    Pause,
}

/// The state of an audio sink as far as the engine's commands reach it.
pub struct SinkState {
    /// The paths of the queued tracks, head first.
    pub queue: Seq<Seq<char>>,
    pub paused: bool,
    /// Gain in thousandths.
    pub volume: u32,
}

/// The sink after one command.
pub open spec fn apply_command(s: SinkState, c: SinkCommand) -> SinkState {
    match c {
        SinkCommand::Stop => SinkState { queue: Seq::empty(), ..s },
        SinkCommand::SkipOne => SinkState {
            queue: if s.queue.len() == 0 { s.queue } else { s.queue.drop_first() },
            ..s
        },
        SinkCommand::Append(path) => SinkState { queue: s.queue.push(path@), ..s },
        SinkCommand::SetVolume(v) => SinkState { volume: v, ..s },
        SinkCommand::Resume => SinkState { paused: false, ..s },
        SinkCommand::Pause => SinkState { paused: true, ..s },
    }
}

/// The sink after a sequence of commands, performed first to last.
pub open spec fn apply_commands(s: SinkState, cs: Seq<SinkCommand>) -> SinkState
    decreases cs.len(),
{
    if cs.len() == 0 {
        s
    } else {
        apply_commands(apply_command(s, cs[0]), cs.drop_first())
    }
}

/// The command that toggles a sink that is paused (or not) into the other state.
pub open spec fn toggled(paused: bool) -> SinkCommand {
    if paused {
        SinkCommand::Resume
    } else {
        SinkCommand::Pause
    }
}

/// The toggle command chosen from a sink's pause state flips that state and
/// changes nothing else.
pub proof fn lemma_toggle_flips(s: SinkState)
    ensures
        apply_command(s, toggled(s.paused)) == (SinkState { paused: !s.paused, ..s }),
{
}

/// The command that toggles a sink between paused and playing.
pub fn toggle_command(paused: bool) -> (c: SinkCommand)
    ensures
        c == toggled(paused),
{
    if paused {
        SinkCommand::Resume
    } else {
        SinkCommand::Pause
    }
}

} // verus!
