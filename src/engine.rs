use vstd::prelude::*;
use crate::protocol::{Packet, StatusPacket, Wake};
use crate::shuffle::{is_permutation, lemma_permutation_elements, permute, permuted, random_permutation};
use crate::sink::{toggle_command, toggled, SinkCommand};

verus! {

/// The number of queued tracks at which the sink counts as run dry.
pub const EXHAUSTED_AT: usize = 0;

/// Why the engine refused a request.
#[derive(Debug, PartialEq, Eq)]
pub enum PlayerError {
    /// The engine needs at least one song.
    NoSongs,
    /// A position past the end of the song list.
    IndexOutOfRange,
}

/// What one step of the engine asks of its caller: sink commands to perform
/// in order, and status events to report in order.
pub struct Effects {
    pub commands: Vec<SinkCommand>,
    pub status: Vec<StatusPacket>,
}

impl Effects {
    pub open spec fn is_empty(&self) -> bool {
        self.commands@.len() == 0 && self.status@.len() == 0
    }

    /// Effects that ask for nothing.
    pub fn none() -> (e: Effects)
        ensures
            e.is_empty(),
    {
        Effects { commands: Vec::new(), status: Vec::new() }
    }
}

/// The abstract state of the engine.
pub struct PlayerState {
    pub songs: Seq<String>,
    pub index: int,
    pub looping: bool,
}

impl PlayerState {
    pub open spec fn wf(self) -> bool {
        self.songs.len() > 0 && self.songs.len() <= usize::MAX && 0 <= self.index < self.songs.len()
    }
}

/// The position that follows the current one: the same one while looping,
/// else the next one, wrapping to the first past the end.
pub open spec fn next_index(s: PlayerState) -> int {
    if s.looping {
        s.index
    } else if s.index + 1 == s.songs.len() {
        0
    } else {
        s.index + 1
    }
}

pub open spec fn advanced(s: PlayerState) -> PlayerState {
    PlayerState { index: next_index(s), ..s }
}

/// The status events of one advance: one `NextSong`, unless looping.
pub open spec fn advance_status(s: PlayerState) -> Seq<StatusPacket> {
    if s.looping {
        Seq::empty()
    } else {
        seq![StatusPacket::NextSong]
    }
}

/// The command that queues the track at the current position.
pub open spec fn current_track(s: PlayerState) -> SinkCommand {
    SinkCommand::Append(s.songs[s.index])
}

/// The new state, sink commands and status events of a command other than
/// `Shuffle`, given whether the sink is paused.
pub open spec fn outcome(s: PlayerState, p: Packet, paused: bool) -> (
    PlayerState,
    Seq<SinkCommand>,
    Seq<StatusPacket>,
)
    recommends
        !(p is Shuffle),
{
    match p {
        Packet::Play(i) => if i < s.songs.len() {
            let t = PlayerState { index: i as int, ..s };
            (t, seq![SinkCommand::Stop, current_track(t)], Seq::empty())
        } else {
            (s, Seq::empty(), Seq::empty())
        },
        Packet::Skip => (
            advanced(s),
            seq![SinkCommand::SkipOne, current_track(advanced(s))],
            advance_status(s),
        ),
        Packet::Pause => (s, seq![toggled(paused)], Seq::empty()),
        Packet::Volume(v) => (s, seq![SinkCommand::SetVolume(v)], Seq::empty()),
        Packet::Loop => if s.looping {
            let t = advanced(PlayerState { looping: false, ..s });
            (t, seq![SinkCommand::SkipOne, current_track(t)], seq![StatusPacket::NextSong])
        } else {
            (PlayerState { looping: true, ..s }, Seq::empty(), Seq::empty())
        },
        Packet::Shuffle => (s, Seq::empty(), Seq::empty()),
    }
}

/// `t`, `cmds` and `status` are what a shuffle of `s` gives: a `Shuffle`
/// event with a permutation of the positions, the list rearranged by it,
/// the first position current, and the head track replaced by the new first
/// track.
pub open spec fn shuffle_applied(
    s: PlayerState,
    t: PlayerState,
    cmds: Seq<SinkCommand>,
    status: Seq<StatusPacket>,
) -> bool {
    status.len() == 1 && match status[0] {
        StatusPacket::Shuffle(p) => is_permutation(p@, s.songs.len())
            && t == (PlayerState { songs: permuted(s.songs, p@), index: 0, ..s })
            && cmds == seq![SinkCommand::SkipOne, current_track(t)],
        StatusPacket::NextSong => false,
    }
}

/// The new state, sink commands and status events of a poll of the sink,
/// given how many tracks it still holds.
pub open spec fn poll_outcome(s: PlayerState, pending: usize) -> (
    PlayerState,
    Seq<SinkCommand>,
    Seq<StatusPacket>,
) {
    if pending == EXHAUSTED_AT {
        (advanced(s), seq![current_track(advanced(s))], advance_status(s))
    } else {
        (s, Seq::empty(), Seq::empty())
    }
}

/// The playback engine: the song list, the current position and the loop
/// flag.
pub struct Player {
    songs: Vec<String>,
    index: usize,
    looping: bool,
}

impl View for Player {
    type V = PlayerState;

    closed spec fn view(&self) -> PlayerState {
        PlayerState { songs: self.songs@, index: self.index as int, looping: self.looping }
    }
}

impl Player {
    pub open spec fn wf(&self) -> bool {
        self@.wf()
    }

    /// An engine on `song_paths` at the first track, not looping. Its
    /// effects toggle the sink's pause state (a fresh sink starts paused
    /// this way) and queue the first track.
    pub fn new(song_paths: Vec<String>, sink_paused: bool) -> (r: Result<(Player, Effects), PlayerError>)
        ensures
            r is Err <==> song_paths@.len() == 0,
            r matches Err(e) ==> e is NoSongs,
            r matches Ok((p, e)) ==> {
                &&& p.wf()
                &&& p@ == (PlayerState { songs: song_paths@, index: 0, looping: false })
                &&& e.commands@ == seq![toggled(sink_paused), current_track(p@)]
                &&& e.status@.len() == 0
            },
    {
        if song_paths.len() == 0 {
            return Err(PlayerError::NoSongs);
        }
        let player = Player { songs: song_paths, index: 0, looping: false };
        let first = player.current_command();
        let commands = vec![toggle_command(sink_paused), first];
        Ok((player, Effects { commands, status: Vec::new() }))
    }

    /// The command that queues the current track.
    fn current_command(&self) -> (c: SinkCommand)
        requires
            self.wf(),
        ensures
            c == current_track(self@),
    {
        SinkCommand::Append(self.songs[self.index].clone())
    }

    /// Moves to the following position and queues its track.
    fn next(&mut self) -> (e: Effects)
        requires
            old(self).wf(),
        ensures
            final(self).wf(),
            final(self)@ == advanced(old(self)@),
            e.commands@ == seq![current_track(final(self)@)],
            e.status@ == advance_status(old(self)@),
    {
        let mut status: Vec<StatusPacket> = Vec::new();
        if !self.looping {
            status.push(StatusPacket::NextSong);
            let n = self.songs.len();
            self.index = if self.index + 1 == n {
                0
            } else {
                self.index + 1
            };
        }
        let commands = vec![self.current_command()];
        proof {
            assert(status@ =~= advance_status(old(self)@));
        }
        Effects { commands, status }
    }

    /// Stops the sink and plays the track at `song_index`; a position past
    /// the end is refused and changes nothing.
    pub fn play(&mut self, song_index: usize) -> (r: Result<Effects, PlayerError>)
        requires
            old(self).wf(),
        ensures
            final(self).wf(),
            r is Ok <==> song_index < old(self)@.songs.len(),
            r matches Err(e) ==> e is IndexOutOfRange && final(self)@ == old(self)@,
            r matches Ok(e) ==> {
                let (t, cmds, status) = outcome(old(self)@, Packet::Play(song_index), false);
                &&& final(self)@ == t
                &&& e.commands@ == cmds
                &&& e.status@ == status
            },
    {
        if song_index >= self.songs.len() {
            return Err(PlayerError::IndexOutOfRange);
        }
        self.index = song_index;
        let commands = vec![SinkCommand::Stop, self.current_command()];
        let e = Effects { commands, status: Vec::new() };
        assert(e.status@ =~= Seq::empty());
        Ok(e)
    }

    /// Drops the head track of the sink and advances.
    pub fn skip(&mut self) -> (e: Effects)
        requires
            old(self).wf(),
        ensures
            final(self).wf(),
            (final(self)@, e.commands@, e.status@) == outcome(old(self)@, Packet::Skip, false),
    {
        let e = self.next();
        let commands = vec![SinkCommand::SkipOne, self.current_command()];
        Effects { commands, status: e.status }
    }

    /// Sets the sink's gain, in thousandths.
    pub fn set_volume(&self, volume: u32) -> (e: Effects)
        requires
            self.wf(),
        ensures
            (self@, e.commands@, e.status@) == outcome(self@, Packet::Volume(volume), false),
    {
        let e = Effects { commands: vec![SinkCommand::SetVolume(volume)], status: Vec::new() };
        assert(e.status@ =~= Seq::empty());
        e
    }

    /// Flips the loop flag. Turning looping off also skips the current track
    /// at once, so that playback moves on; turning it on keeps the current
    /// position, so that the audible track is the one that repeats.
    pub fn change_looping(&mut self) -> (e: Effects)
        requires
            old(self).wf(),
        ensures
            final(self).wf(),
            (final(self)@, e.commands@, e.status@) == outcome(old(self)@, Packet::Loop, false),
    {
        if self.looping {
            self.looping = false;
            self.skip()
        } else {
            self.looping = true;
            Effects::none()
        }
    }

    /// Toggles the sink between paused and playing.
    pub fn pause(&self, sink_paused: bool) -> (e: Effects)
        requires
            self.wf(),
        ensures
            (self@, e.commands@, e.status@) == outcome(self@, Packet::Pause, sink_paused),
    {
        let e = Effects { commands: vec![toggle_command(sink_paused)], status: Vec::new() };
        assert(e.status@ =~= Seq::empty());
        e
    }

    /// Replaces the song list by its rearrangement under `perm` (position
    /// `k` takes the track at position `perm[k]`), moves to the first
    /// position, replaces the head track of the sink by the new first track
    /// and reports `perm`.
    pub fn apply_shuffle(&mut self, perm: Vec<usize>) -> (e: Effects)
        requires
            old(self).wf(),
            is_permutation(perm@, old(self)@.songs.len()),
        ensures
            final(self).wf(),
            shuffle_applied(old(self)@, final(self)@, e.commands@, e.status@),
            e.status@ == seq![StatusPacket::Shuffle(perm)],
            final(self)@.songs == permuted(old(self)@.songs, perm@),
    {
        let n = self.songs.len();
        proof {
            lemma_permutation_elements(perm@, n as nat);
        }
        let songs = permute(&self.songs, &perm);
        self.songs = songs;
        self.index = 0;
        let commands = vec![SinkCommand::SkipOne, self.current_command()];
        let status = vec![StatusPacket::Shuffle(perm)];
        Effects { commands, status }
    }

    /// Rearranges the song list by a random permutation; see
    /// [`Player::apply_shuffle`].
    pub fn shuffle(&mut self) -> (e: Effects)
        requires
            old(self).wf(),
        ensures
            final(self).wf(),
            shuffle_applied(old(self)@, final(self)@, e.commands@, e.status@),
    {
        let perm = random_permutation(self.songs.len());
        self.apply_shuffle(perm)
    }

    /// Carries out one command. `sink_paused` is whether the sink is paused
    /// now. A `Play` past the end of the list is ignored.
    pub fn handle(&mut self, packet: Packet, sink_paused: bool) -> (e: Effects)
        requires
            old(self).wf(),
        ensures
            final(self).wf(),
            packet is Shuffle ==> shuffle_applied(old(self)@, final(self)@, e.commands@, e.status@),
            !(packet is Shuffle) ==> (final(self)@, e.commands@, e.status@) == outcome(
                old(self)@,
                packet,
                sink_paused,
            ),
    {
        match packet {
            Packet::Play(song) => match self.play(song) {
                Ok(e) => e,
                Err(_) => Effects::none(),
            },
            Packet::Skip => self.skip(),
            Packet::Pause => self.pause(sink_paused),
            Packet::Volume(volume) => self.set_volume(volume),
            Packet::Loop => self.change_looping(),
            Packet::Shuffle => self.shuffle(),
        }
    }

    /// The exhaustion check: when the sink holds `EXHAUSTED_AT` tracks,
    /// advance; otherwise do nothing.
    pub fn poll(&mut self, pending: usize) -> (e: Effects)
        requires
            old(self).wf(),
        ensures
            final(self).wf(),
            (final(self)@, e.commands@, e.status@) == poll_outcome(old(self)@, pending),
    {
        if pending == EXHAUSTED_AT {
            self.next()
        } else {
            Effects::none()
        }
    }

    /// One wake of the command loop. A command is carried out; a timeout
    /// asks for nothing; a closed command channel ends the loop (`None`),
    /// with no effects and no change.
    pub fn step(&mut self, wake: Wake, sink_paused: bool) -> (r: Option<Effects>)
        requires
            old(self).wf(),
        ensures
            final(self).wf(),
            r is None <==> wake is Disconnected,
            wake is Disconnected ==> final(self)@ == old(self)@,
            wake is Timeout ==> final(self)@ == old(self)@ && (r matches Some(e) && e.is_empty()),
            wake matches Wake::Command(p) ==> (r matches Some(e) && {
                &&& p is Shuffle ==> shuffle_applied(old(self)@, final(self)@, e.commands@, e.status@)
                &&& !(p is Shuffle) ==> (final(self)@, e.commands@, e.status@) == outcome(
                    old(self)@,
                    p,
                    sink_paused,
                )
            }),
    {
        match wake {
            Wake::Command(packet) => Some(self.handle(packet, sink_paused)),
            Wake::Timeout => Some(Effects::none()),
            Wake::Disconnected => None,
        }
    }

    /// The current track could not be opened or decoded: move past it to
    /// the next position, whether looping or not, and queue that track.
    pub fn track_unavailable(&mut self) -> (e: Effects)
        requires
            old(self).wf(),
        ensures
            final(self).wf(),
            final(self)@ == (PlayerState {
                index: next_index(PlayerState { looping: false, ..old(self)@ }),
                ..old(self)@
            }),
            e.commands@ == seq![current_track(final(self)@)],
            e.status@ == seq![StatusPacket::NextSong],
    {
        let looping = self.looping;
        self.looping = false;
        let e = self.next();
        self.looping = looping;
        let commands = vec![self.current_command()];
        Effects { commands, status: e.status }
    }

    /// The current position.
    pub fn index(&self) -> (r: usize)
        ensures
            r == self@.index,
    {
        self.index
    }

    /// Whether the engine is looping.
    pub fn is_looping(&self) -> (r: bool)
        ensures
            r == self@.looping,
    {
        self.looping
    }

    /// The song list.
    pub fn songs(&self) -> (r: &Vec<String>)
        ensures
            r@ == self@.songs,
    {
        &self.songs
    }
}

} // verus!
