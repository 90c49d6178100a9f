use vstd::prelude::*;
use vstd::arithmetic::div_mod::{lemma_add_mod_noop, lemma_mod_self_0, lemma_small_mod};
use crate::engine::{
    advance_status, advanced, current_track, outcome, poll_outcome, shuffle_applied, PlayerState, EXHAUSTED_AT,
};
use crate::protocol::{Packet, StatusPacket};
use crate::shuffle::lemma_permutation_elements;
use crate::sink::{apply_command, apply_commands, SinkCommand, SinkState};

verus! {

/// The sink after two commands.
proof fn lemma_apply_two(sink: SinkState, a: SinkCommand, b: SinkCommand)
    ensures
        apply_commands(sink, seq![a, b]) == apply_command(apply_command(sink, a), b),
{
    reveal_with_fuel(apply_commands, 3);
    let cs = seq![a, b];
    assert(cs.drop_first() =~= seq![b]);
    assert(cs.drop_first().drop_first() =~= Seq::<SinkCommand>::empty());
}

/// The sink after one command.
proof fn lemma_apply_one(sink: SinkState, a: SinkCommand)
    ensures
        apply_commands(sink, seq![a]) == apply_command(sink, a),
{
    reveal_with_fuel(apply_commands, 2);
    assert(seq![a].drop_first() =~= Seq::<SinkCommand>::empty());
}

/// Playing a valid position makes it current and leaves the sink, whatever
/// it held, with exactly that track queued.
pub proof fn lemma_play_queues_one(s: PlayerState, i: usize, paused: bool, sink: SinkState)
    requires
        s.wf(),
        i < s.songs.len(),
    ensures
        ({
            let (t, cmds, status) = outcome(s, Packet::Play(i), paused);
            &&& t.wf()
            &&& t.index == i
            &&& apply_commands(sink, cmds).queue == seq![s.songs[i as int]@]
            &&& status.len() == 0
        }),
{
    let (t, cmds, status) = outcome(s, Packet::Play(i), paused);
    lemma_apply_two(sink, cmds[0], cmds[1]);
    assert(cmds =~= seq![cmds[0], cmds[1]]);
    assert(apply_commands(sink, cmds).queue =~= seq![s.songs[i as int]@]);
}

/// The state after `k` skips from `s`.
pub open spec fn after_skips(s: PlayerState, k: nat) -> PlayerState
    decreases k,
{
    if k == 0 {
        s
    } else {
        outcome(after_skips(s, (k - 1) as nat), Packet::Skip, false).0
    }
}

/// The status events of `k` skips from `s`, in order.
pub open spec fn skip_events(s: PlayerState, k: nat) -> Seq<StatusPacket>
    decreases k,
{
    if k == 0 {
        Seq::empty()
    } else {
        skip_events(s, (k - 1) as nat) + outcome(
            after_skips(s, (k - 1) as nat),
            Packet::Skip,
            false,
        ).2
    }
}

/// The position after the one at `x % n` is the one at `(x + 1) % n`.
proof fn lemma_next_mod(x: int, n: int)
    requires
        x >= 0,
        n > 0,
    ensures
        (if x % n + 1 == n { 0 } else { x % n + 1 }) == (x + 1) % n,
{
    lemma_add_mod_noop(x, 1, n);
    if n == 1 {
        lemma_mod_self_0(1);
        lemma_small_mod(0, 1);
    } else {
        lemma_small_mod(1, n as nat);
        if x % n + 1 == n {
            lemma_mod_self_0(n);
        } else {
            lemma_small_mod((x % n + 1) as nat, n as nat);
        }
    }
}

/// Repeated skips walk the song list in cyclic order: without looping, `k`
/// skips from position `i` reach position `(i + k) mod n` and report
/// exactly `k` `NextSong` events, one per skip; while looping, the position
/// never changes and no event is reported.
pub proof fn lemma_skips_cycle(s: PlayerState, k: nat)
    requires
        s.wf(),
    ensures
        after_skips(s, k).wf(),
        after_skips(s, k).songs == s.songs,
        after_skips(s, k).looping == s.looping,
        !s.looping ==> after_skips(s, k).index == (s.index + k) % (s.songs.len() as int),
        !s.looping ==> skip_events(s, k) == Seq::new(k, |j: int| StatusPacket::NextSong),
        s.looping ==> after_skips(s, k).index == s.index,
        s.looping ==> skip_events(s, k).len() == 0,
    decreases k,
{
    let n = s.songs.len() as int;
    if k == 0 {
        lemma_small_mod(s.index as nat, n as nat);
        assert(skip_events(s, k) =~= Seq::new(k, |j: int| StatusPacket::NextSong));
    } else {
        let k1 = (k - 1) as nat;
        lemma_skips_cycle(s, k1);
        if !s.looping {
            lemma_next_mod(s.index + k1, n);
            assert(skip_events(s, k) =~= Seq::new(k, |j: int| StatusPacket::NextSong));
        }
    }
}

/// A shuffle moves to the first position, reports a permutation of all the
/// positions of the list, keeps the same songs, and leaves the new first
/// track queued last on the sink.
pub proof fn lemma_shuffle_result(
    s: PlayerState,
    t: PlayerState,
    cmds: Seq<SinkCommand>,
    status: Seq<StatusPacket>,
    sink: SinkState,
)
    requires
        s.wf(),
        shuffle_applied(s, t, cmds, status),
    ensures
        t.wf(),
        t.index == 0,
        t.looping == s.looping,
        status[0] matches StatusPacket::Shuffle(p) && {
            &&& p@.len() == s.songs.len()
            &&& forall|k: int| 0 <= k < p@.len() ==> (#[trigger] p@[k]) < s.songs.len()
            &&& forall|j: usize| j < s.songs.len() ==> #[trigger] p@.contains(j)
        },
        t.songs.len() == s.songs.len(),
        forall|k: int| 0 <= k < t.songs.len() ==> s.songs.contains(#[trigger] t.songs[k]),
        forall|j: int| 0 <= j < s.songs.len() ==> t.songs.contains(#[trigger] s.songs[j]),
        apply_commands(sink, cmds).queue.last() == t.songs[0]@,
{
    if let StatusPacket::Shuffle(p) = status[0] {
        let n = s.songs.len();
        lemma_permutation_elements(p@, n);
        assert forall|k: int| 0 <= k < t.songs.len() implies s.songs.contains(
            #[trigger] t.songs[k],
        ) by {
            assert(t.songs[k] == s.songs[p@[k] as int]);
        }
        assert forall|j: int| 0 <= j < s.songs.len() implies t.songs.contains(
            #[trigger] s.songs[j],
        ) by {
            let ju = j as usize;
            assert(p@.contains(ju));
            let k = choose|k: int| 0 <= k < p@.len() && p@[k] == ju;
            assert(t.songs[k] == s.songs[p@[k] as int]);
        }
        lemma_apply_two(sink, cmds[0], cmds[1]);
        assert(cmds =~= seq![cmds[0], cmds[1]]);
    }
}

/// An exhausted sink triggers exactly one advance: the poll queues one track,
/// and polling the sink it leaves changes nothing more until it runs dry
/// again.
pub proof fn lemma_exhaustion_advances_once(s: PlayerState, sink: SinkState)
    requires
        s.wf(),
        sink.queue.len() == EXHAUSTED_AT,
    ensures
        ({
            let (t, cmds, status) = poll_outcome(s, sink.queue.len() as usize);
            let after = apply_commands(sink, cmds);
            &&& t == advanced(s)
            &&& t.wf()
            &&& status == advance_status(s)
            &&& after.queue.len() == EXHAUSTED_AT + 1
            &&& poll_outcome(t, after.queue.len() as usize) == (t, Seq::<SinkCommand>::empty(), Seq::<StatusPacket>::empty())
        }),
{
    let (t, cmds, status) = poll_outcome(s, sink.queue.len() as usize);
    lemma_apply_one(sink, cmds[0]);
    assert(cmds =~= seq![cmds[0]]);
}

/// Setting the volume changes the sink's gain to exactly that value and
/// touches neither the engine's state, nor the queue, nor the pause state.
pub proof fn lemma_volume_applied(s: PlayerState, v: u32, paused: bool, sink: SinkState)
    ensures
        ({
            let (t, cmds, status) = outcome(s, Packet::Volume(v), paused);
            &&& t == s
            &&& status.len() == 0
            &&& apply_commands(sink, cmds) == (SinkState { volume: v, ..sink })
        }),
{
    let (t, cmds, status) = outcome(s, Packet::Volume(v), paused);
    lemma_apply_one(sink, cmds[0]);
}

/// Turning looping on keeps the current position, and when the sink then
/// runs dry the same track is queued again with no `NextSong` event.
pub proof fn lemma_loop_replays_current(s: PlayerState, paused: bool)
    requires
        s.wf(),
        !s.looping,
    ensures
        ({
            let (t, cmds, status) = outcome(s, Packet::Loop, paused);
            let (u, again, events) = poll_outcome(t, EXHAUSTED_AT);
            &&& cmds.len() == 0 && status.len() == 0
            &&& t.index == s.index && t.looping
            &&& u == t
            &&& again == seq![current_track(s)]
            &&& events.len() == 0
        }),
{
}

} // verus!
