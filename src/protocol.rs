use vstd::prelude::*;

verus! {

/// A control command sent from the presentation layer to the engine.
#[derive(Debug, PartialEq, Eq)]
pub enum Packet {
    /// Play the track at this position of the song list.
    Play(usize),
    /// Drop the current track and advance.
    Skip,
    /// Toggle between paused and playing.
    Pause,
    /// Set the gain, in thousandths (1000 is unity gain).
    Volume(u32),
    /// Toggle the loop flag.
    Loop,
    /// Replace the song list with a random permutation of it.
    Shuffle,
}

/// A status event sent from the engine to the presentation layer.
#[derive(Debug, PartialEq, Eq)]
pub enum StatusPacket {
    /// The engine advanced to the next track.
    NextSong,
    /// The song list was replaced: position `k` of the new list holds what
    /// position `perm[k]` of the old list held.
    Shuffle(Vec<usize>),
}

/// What wakes the command loop.
#[derive(Debug, PartialEq, Eq)]
pub enum Wake {
    /// A command arrived.
    Command(Packet),
    /// The bounded wait ran out without a command.
    Timeout,
    /// The presentation side closed the command channel.
    Disconnected,
}

} // verus!
