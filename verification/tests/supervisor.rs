use still_streamer::stream::{Action, Event};
use still_streamer::supervisor::{Command, Phase, Report, Supervisor};
use still_streamer::watcher::Timestamp;

fn stamp(nanos: i128) -> Timestamp {
    Timestamp { nanos }
}

/// Brings a new supervisor to the point where a frame is being written.
fn streaming(fps: u16, content: &[u8]) -> Supervisor {
    let mut supervisor = Supervisor::new(fps);
    assert_eq!(supervisor.step(Report::Spawned), Command::Drive(Action::Poll));
    assert_eq!(
        supervisor.step(Report::Stream(Event::Modified(stamp(1)))),
        Command::Drive(Action::Load)
    );
    assert_eq!(
        supervisor.step(Report::Stream(Event::Loaded(content.to_vec()))),
        Command::Drive(Action::Feed)
    );
    supervisor
}

#[test]
fn supervisor_starts_by_spawning() {
    let supervisor = Supervisor::new(2);
    assert_eq!(supervisor.phase(), Phase::Spawning);
    assert_eq!(supervisor.command(), Command::Spawn);
    assert_eq!(supervisor.budget_ms(), 500);
    assert!(supervisor.frame().is_empty());
}

#[test]
fn supervisor_computes_the_budget_from_the_rate() {
    assert_eq!(Supervisor::new(1).budget_ms(), 1000);
    assert_eq!(Supervisor::new(5).budget_ms(), 200);
    assert_eq!(Supervisor::new(30).budget_ms(), 33);
}

#[test]
fn failed_spawn_is_fatal() {
    let mut supervisor = Supervisor::new(2);
    assert_eq!(supervisor.step(Report::SpawnFailed), Command::Exit);
    assert_eq!(supervisor.phase(), Phase::Halted);
    assert_eq!(supervisor.step(Report::Spawned), Command::Exit);
    assert_eq!(supervisor.step(Report::Killed), Command::Exit);
    assert_eq!(supervisor.step(Report::Stream(Event::Woke)), Command::Exit);
    assert_eq!(supervisor.phase(), Phase::Halted);
}

#[test]
fn streaming_passes_the_loop_through() {
    let mut supervisor = streaming(2, b"frame");
    assert_eq!(supervisor.phase(), Phase::Streaming);
    assert_eq!(supervisor.frame(), &b"frame".to_vec());
    assert_eq!(
        supervisor.step(Report::Stream(Event::Fed { elapsed_nanos: 30_000_000 })),
        Command::Drive(Action::Sleep { nanos: 450_000_000 })
    );
    assert_eq!(
        supervisor.step(Report::Stream(Event::Woke)),
        Command::Drive(Action::Poll)
    );
    assert_eq!(
        supervisor.step(Report::Stream(Event::StatFailed)),
        Command::Drive(Action::Sleep { nanos: 1_000_000_000 })
    );
    assert_eq!(supervisor.phase(), Phase::Streaming);
}

#[test]
fn failed_write_means_one_kill_then_one_spawn() {
    let mut supervisor = streaming(2, b"frame");
    let mut commands = vec![];
    commands.push(supervisor.step(Report::Stream(Event::FeedFailed)));
    assert_eq!(supervisor.phase(), Phase::Killing);
    commands.push(supervisor.step(Report::Killed));
    assert_eq!(supervisor.phase(), Phase::Spawning);
    commands.push(supervisor.step(Report::Spawned));
    assert_eq!(supervisor.phase(), Phase::Streaming);
    assert_eq!(
        commands,
        vec![Command::Kill, Command::Spawn, Command::Drive(Action::Poll)]
    );
    assert_eq!(commands.iter().filter(|c| **c == Command::Kill).count(), 1);
    assert_eq!(commands.iter().filter(|c| **c == Command::Spawn).count(), 1);
}

#[test]
fn failed_kill_does_not_stop_the_restart() {
    let mut supervisor = streaming(2, b"frame");
    assert_eq!(supervisor.step(Report::Stream(Event::FeedFailed)), Command::Kill);
    assert_eq!(supervisor.step(Report::KillFailed), Command::Spawn);
    assert_eq!(supervisor.step(Report::Spawned), Command::Drive(Action::Poll));
}

#[test]
fn restart_begins_with_an_empty_cache() {
    let mut supervisor = streaming(2, b"frame");
    supervisor.step(Report::Stream(Event::FeedFailed));
    assert!(supervisor.frame().is_empty());
    supervisor.step(Report::Killed);
    supervisor.step(Report::Spawned);
    assert!(supervisor.frame().is_empty());
    assert_eq!(supervisor.budget_ms(), 500);
}

#[test]
fn killed_encoder_is_replaced_within_one_cycle() {
    let mut supervisor = streaming(2, b"the image");
    supervisor.step(Report::Stream(Event::Fed { elapsed_nanos: 0 }));
    supervisor.step(Report::Stream(Event::Woke));
    assert_eq!(
        supervisor.step(Report::Stream(Event::Modified(stamp(1)))),
        Command::Drive(Action::Feed)
    );
    assert_eq!(supervisor.step(Report::Stream(Event::FeedFailed)), Command::Kill);
    assert_eq!(supervisor.step(Report::KillFailed), Command::Spawn);
    assert_eq!(supervisor.step(Report::Spawned), Command::Drive(Action::Poll));
    assert_eq!(
        supervisor.step(Report::Stream(Event::Modified(stamp(1)))),
        Command::Drive(Action::Load)
    );
    assert_eq!(
        supervisor.step(Report::Stream(Event::Loaded(b"the image".to_vec()))),
        Command::Drive(Action::Feed)
    );
    assert_eq!(supervisor.frame(), &b"the image".to_vec());
    assert_eq!(
        supervisor.step(Report::Stream(Event::Fed { elapsed_nanos: 0 })),
        Command::Drive(Action::Sleep { nanos: 480_000_000 })
    );
}

#[test]
fn restarts_are_not_limited() {
    let mut supervisor = Supervisor::new(30);
    let mut spawns = 0;
    let mut kills = 0;
    let mut command = supervisor.command();
    for _ in 0..1000 {
        assert_eq!(command, Command::Spawn);
        spawns += 1;
        supervisor.step(Report::Spawned);
        supervisor.step(Report::Stream(Event::Modified(stamp(9))));
        supervisor.step(Report::Stream(Event::Loaded(vec![1])));
        assert_eq!(supervisor.step(Report::Stream(Event::FeedFailed)), Command::Kill);
        kills += 1;
        command = supervisor.step(Report::Killed);
    }
    assert_eq!(spawns, 1000);
    assert_eq!(kills, 1000);
    assert_eq!(supervisor.phase(), Phase::Spawning);
}

#[test]
fn report_out_of_turn_changes_nothing() {
    let mut supervisor = Supervisor::new(2);
    assert_eq!(supervisor.step(Report::Killed), Command::Spawn);
    assert_eq!(supervisor.step(Report::Stream(Event::Modified(stamp(1)))), Command::Spawn);
    assert_eq!(supervisor.phase(), Phase::Spawning);
    supervisor.step(Report::Spawned);
    assert_eq!(supervisor.step(Report::Spawned), Command::Drive(Action::Poll));
    assert_eq!(supervisor.step(Report::SpawnFailed), Command::Drive(Action::Poll));
    assert_eq!(supervisor.step(Report::Killed), Command::Drive(Action::Poll));
    assert_eq!(supervisor.phase(), Phase::Streaming);
    supervisor.step(Report::Stream(Event::Modified(stamp(1))));
    supervisor.step(Report::Stream(Event::Loaded(vec![1])));
    supervisor.step(Report::Stream(Event::FeedFailed));
    assert_eq!(supervisor.step(Report::Spawned), Command::Kill);
    assert_eq!(supervisor.step(Report::Stream(Event::Woke)), Command::Kill);
    assert_eq!(supervisor.phase(), Phase::Killing);
}

#[test]
fn restart_reads_a_file_stamped_with_the_epoch() {
    let mut supervisor = Supervisor::new(2);
    supervisor.step(Report::Spawned);
    assert_eq!(
        supervisor.step(Report::Stream(Event::Modified(stamp(0)))),
        Command::Drive(Action::Load)
    );
    assert_eq!(
        supervisor.step(Report::Stream(Event::Loaded(b"image".to_vec()))),
        Command::Drive(Action::Feed)
    );
    assert_eq!(supervisor.step(Report::Stream(Event::FeedFailed)), Command::Kill);
    assert_eq!(supervisor.step(Report::Killed), Command::Spawn);
    assert_eq!(supervisor.step(Report::Spawned), Command::Drive(Action::Poll));
    assert_eq!(
        supervisor.step(Report::Stream(Event::Modified(stamp(0)))),
        Command::Drive(Action::Load)
    );
    assert_eq!(
        supervisor.step(Report::Stream(Event::Loaded(b"image".to_vec()))),
        Command::Drive(Action::Feed)
    );
    assert_eq!(supervisor.frame(), &b"image".to_vec());
}
