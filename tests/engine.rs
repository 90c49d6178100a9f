use music_player::engine::{Effects, Player, PlayerError, EXHAUSTED_AT};
use music_player::protocol::{Packet, StatusPacket, Wake};
use music_player::sink::SinkCommand;

fn names(list: &[&str]) -> Vec<String> {
    list.iter().map(|s| s.to_string()).collect()
}

fn started(list: &[&str]) -> Player {
    let (player, _) = Player::new(names(list), false).ok().unwrap();
    player
}

fn append(path: &str) -> SinkCommand {
    SinkCommand::Append(path.to_string())
}

/// A sink that keeps only the queue, for driving the engine in tests.
fn run(queue: &mut Vec<String>, effects: &Effects) {
    for c in &effects.commands {
        match c {
            SinkCommand::Stop => queue.clear(),
            SinkCommand::SkipOne => {
                if !queue.is_empty() {
                    queue.remove(0);
                }
            }
            SinkCommand::Append(p) => queue.push(p.clone()),
            _ => {}
        }
    }
}

#[test]
fn new_rejects_empty_list() {
    assert_eq!(Player::new(Vec::new(), false).err(), Some(PlayerError::NoSongs));
}

#[test]
fn new_pauses_and_queues_first() {
    let (player, e) = Player::new(names(&["a", "b"]), false).ok().unwrap();
    assert_eq!(player.index(), 0);
    assert!(!player.is_looping());
    assert_eq!(e.commands, vec![SinkCommand::Pause, append("a")]);
    assert!(e.status.is_empty());
    let (_, e) = Player::new(names(&["a"]), true).ok().unwrap();
    assert_eq!(e.commands, vec![SinkCommand::Resume, append("a")]);
}

#[test]
fn play_sets_index_and_single_track() {
    for i in 0..3usize {
        let mut player = started(&["a", "b", "c"]);
        let mut queue = names(&["a", "x", "y"]);
        let e = player.play(i).ok().unwrap();
        run(&mut queue, &e);
        assert_eq!(player.index(), i);
        assert_eq!(queue, vec![player.songs()[i].clone()]);
        assert!(e.status.is_empty());
    }
}

#[test]
fn play_out_of_range_is_refused() {
    let mut player = started(&["a", "b"]);
    assert_eq!(player.play(2).err(), Some(PlayerError::IndexOutOfRange));
    assert_eq!(player.index(), 0);
    let e = player.handle(Packet::Play(7), false);
    assert!(e.commands.is_empty() && e.status.is_empty());
    assert_eq!(player.index(), 0);
}

#[test]
fn skips_cycle_without_loop() {
    let mut player = started(&["a", "b", "c", "d"]);
    let mut visited = vec![player.index()];
    let mut events = 0usize;
    for _ in 0..6 {
        let e = player.skip();
        assert_eq!(e.commands[0], SinkCommand::SkipOne);
        assert_eq!(e.commands[1], append(["a", "b", "c", "d"][player.index()]));
        assert_eq!(e.status, vec![StatusPacket::NextSong]);
        events += e.status.len();
        visited.push(player.index());
    }
    assert_eq!(visited, vec![0, 1, 2, 3, 0, 1, 2]);
    assert_eq!(events, 6);
}

#[test]
fn skips_with_loop_keep_index() {
    let mut player = started(&["a", "b", "c"]);
    player.play(1).ok().unwrap();
    assert!(player.change_looping().commands.is_empty());
    for _ in 0..4 {
        let e = player.skip();
        assert!(e.status.is_empty());
        assert_eq!(e.commands, vec![SinkCommand::SkipOne, append("b")]);
        assert_eq!(player.index(), 1);
    }
}

#[test]
fn skip_single_track_requeues_it() {
    let mut player = started(&["only"]);
    let e = player.skip();
    assert_eq!(player.index(), 0);
    assert_eq!(e.commands, vec![SinkCommand::SkipOne, append("only")]);
    assert_eq!(e.status, vec![StatusPacket::NextSong]);
}

#[test]
fn shuffle_reorders_and_reports() {
    let list = ["s0", "s1", "s2", "s3", "s4", "s5", "s6", "s7", "s8", "s9"];
    let mut player = started(&list);
    player.play(4).ok().unwrap();
    let e = player.shuffle();
    assert_eq!(player.index(), 0);
    assert_eq!(e.status.len(), 1);
    let perm = match &e.status[0] {
        StatusPacket::Shuffle(p) => p.clone(),
        other => panic!("unexpected {:?}", other),
    };
    let mut sorted = perm.clone();
    sorted.sort();
    assert_eq!(sorted, (0..list.len()).collect::<Vec<usize>>());
    for k in 0..list.len() {
        assert_eq!(player.songs()[k], list[perm[k]]);
    }
    assert_eq!(e.commands, vec![SinkCommand::SkipOne, append(list[perm[0]])]);
}

#[test]
fn shuffle_changes_order() {
    let list: Vec<String> = (0..20).map(|i| format!("t{}", i)).collect();
    let mut changed = false;
    for _ in 0..3 {
        let (mut player, _) = Player::new(list.clone(), false).ok().unwrap();
        player.shuffle();
        if *player.songs() != list {
            changed = true;
        }
    }
    assert!(changed);
}

#[test]
fn apply_shuffle_exact() {
    let mut player = started(&["a", "b", "c"]);
    player.play(2).ok().unwrap();
    let e = player.apply_shuffle(vec![2, 0, 1]);
    assert_eq!(*player.songs(), names(&["c", "a", "b"]));
    assert_eq!(player.index(), 0);
    assert_eq!(e.commands, vec![SinkCommand::SkipOne, append("c")]);
    assert_eq!(e.status, vec![StatusPacket::Shuffle(vec![2, 0, 1])]);
}

#[test]
fn exhaustion_advances_once() {
    let mut player = started(&["a", "b", "c"]);
    let mut queue: Vec<String> = Vec::new();
    let e = player.poll(queue.len());
    assert_eq!(EXHAUSTED_AT, 0);
    assert_eq!(e.status, vec![StatusPacket::NextSong]);
    run(&mut queue, &e);
    assert_eq!(player.index(), 1);
    assert_eq!(queue, names(&["b"]));
    let e = player.poll(queue.len());
    assert!(e.commands.is_empty() && e.status.is_empty());
    assert_eq!(player.index(), 1);
}

#[test]
fn set_volume_only_sets_gain() {
    let mut player = started(&["a", "b"]);
    player.play(1).ok().unwrap();
    for v in [0u32, 500, 1000, 1500] {
        let e = player.set_volume(v);
        assert_eq!(e.commands, vec![SinkCommand::SetVolume(v)]);
        assert!(e.status.is_empty());
        assert_eq!(player.index(), 1);
    }
    let e = player.handle(Packet::Volume(1500), true);
    assert_eq!(e.commands, vec![SinkCommand::SetVolume(1500)]);
}

#[test]
fn pause_toggles_by_sink_state() {
    let player = started(&["a"]);
    assert_eq!(player.pause(true).commands, vec![SinkCommand::Resume]);
    assert_eq!(player.pause(false).commands, vec![SinkCommand::Pause]);
}

#[test]
fn three_exhaustions_wrap() {
    let mut player = started(&["a", "b", "c"]);
    let mut queue: Vec<String> = Vec::new();
    let e = player.handle(Packet::Play(0), false);
    run(&mut queue, &e);
    let mut visited = vec![player.index()];
    let mut events = 0usize;
    for _ in 0..3 {
        queue.clear();
        let e = player.poll(queue.len());
        events += e.status.iter().filter(|s| **s == StatusPacket::NextSong).count();
        run(&mut queue, &e);
        visited.push(player.index());
    }
    assert_eq!(visited, vec![0, 1, 2, 0]);
    assert_eq!(events, 3);
    assert_eq!(queue, names(&["a"]));
}

#[test]
fn loop_enabled_replays_current() {
    let mut player = started(&["a", "b"]);
    let mut queue = names(&["a"]);
    let e = player.handle(Packet::Loop, false);
    assert!(e.commands.is_empty() && e.status.is_empty());
    assert!(player.is_looping());
    queue.clear();
    let e = player.poll(queue.len());
    run(&mut queue, &e);
    assert_eq!(player.index(), 0);
    assert_eq!(queue, names(&["a"]));
    assert!(e.status.is_empty());
}

#[test]
fn loop_disabled_skips_forward() {
    let mut player = started(&["a", "b", "c"]);
    player.change_looping();
    let e = player.change_looping();
    assert!(!player.is_looping());
    assert_eq!(player.index(), 1);
    assert_eq!(e.commands, vec![SinkCommand::SkipOne, append("b")]);
    assert_eq!(e.status, vec![StatusPacket::NextSong]);
}

#[test]
fn disconnect_ends_loop_quietly() {
    let mut player = started(&["a", "b"]);
    assert!(player.step(Wake::Disconnected, false).is_none());
    assert_eq!(player.index(), 0);
    let e = player.step(Wake::Timeout, false).unwrap();
    assert!(e.commands.is_empty() && e.status.is_empty());
    let e = player.step(Wake::Command(Packet::Skip), false).unwrap();
    assert_eq!(e.status, vec![StatusPacket::NextSong]);
    assert_eq!(player.index(), 1);
}

#[test]
fn unavailable_track_moves_on_even_when_looping() {
    let mut player = started(&["a", "b"]);
    player.play(1).ok().unwrap();
    player.change_looping();
    let e = player.track_unavailable();
    assert_eq!(player.index(), 0);
    assert!(player.is_looping());
    assert_eq!(e.commands, vec![append("a")]);
    assert_eq!(e.status, vec![StatusPacket::NextSong]);
}
