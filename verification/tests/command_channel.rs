use crossbeam_channel::bounded;

use unified_trading::command_channel::{
    send_command, ActorEvent, ActorStep, CommandActor, CommandChannel, ControlCommand,
};
use unified_trading::metrics::GlobalMetrics;

#[test]
fn test_command_channel_send_recv() {
    let channel = CommandChannel::new(100);
    channel.tx.send(ControlCommand::SetKillSwitch(true)).unwrap();
    let cmd = channel.rx.recv().unwrap();
    assert!(matches!(cmd, ControlCommand::SetKillSwitch(true)));
}

#[test]
fn test_command_actor_processes_commands() {
    let channel = CommandChannel::new(100);
    let mut metrics = GlobalMetrics::new();
    let mut actor = CommandActor::new();
    let mut count = 0;

    send_command(&channel.tx, ControlCommand::SetKillSwitch(true), &mut metrics);
    send_command(&channel.tx, ControlCommand::SetKillSwitch(false), &mut metrics);
    assert_eq!(metrics.command_channel_depth, 2);

    while let Ok(cmd) = channel.rx.try_recv() {
        if let ActorStep::Handle(ControlCommand::SetKillSwitch(_)) =
            actor.step(ActorEvent::Command(cmd), &mut metrics)
        {
            count += 1;
        }
    }
    assert_eq!(count, 2);
    assert_eq!(metrics.command_channel_depth, 0);

    actor.shutdown();
    assert!(!actor.is_running());
}

#[test]
fn the_actor_stops_when_nobody_is_left() {
    let mut metrics = GlobalMetrics::new();
    let mut actor = CommandActor::new();
    assert!(matches!(actor.step(ActorEvent::Timeout, &mut metrics), ActorStep::Wait));
    assert!(actor.is_running());
    assert!(matches!(actor.step(ActorEvent::Disconnected, &mut metrics), ActorStep::Stop));
    assert!(!actor.is_running());
}

#[test]
fn a_command_that_nobody_takes_is_counted_all_the_same() {
    let (tx, rx) = bounded::<ControlCommand>(1);
    drop(rx);
    let mut metrics = GlobalMetrics::new();
    assert!(!send_command(&tx, ControlCommand::Shutdown, &mut metrics));
    assert_eq!(metrics.command_channel_depth, 1);
}
