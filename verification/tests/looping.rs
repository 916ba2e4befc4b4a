use vsock_proxy::accept_loop::AcceptLoop;
use vsock_proxy::accept_loop::LoopAction;
use vsock_proxy::accept_loop::LoopEvent;
use vsock_proxy::accept_loop::LoopPhase;

#[test]
fn a_served_connection_spawns_a_pipe_and_listens_again() {
    let mut ctl = AcceptLoop::new();
    assert_eq!(ctl.phase, LoopPhase::Listening);
    assert_eq!(ctl.step(LoopEvent::Accepted), LoopAction::DialDestination);
    assert_eq!(ctl.phase, LoopPhase::Dialing);
    assert_eq!(ctl.step(LoopEvent::Dialed), LoopAction::SpawnPipe);
    assert_eq!(ctl.phase, LoopPhase::Listening);
}

#[test]
fn a_failed_accept_keeps_the_loop_listening() {
    let mut ctl = AcceptLoop::new();
    assert_eq!(ctl.step(LoopEvent::AcceptFailed), LoopAction::AwaitAccept);
    assert_eq!(ctl.phase, LoopPhase::Listening);
    assert_eq!(ctl.step(LoopEvent::Accepted), LoopAction::DialDestination);
}

#[test]
fn a_failed_dial_drops_the_inbound_and_the_next_peer_is_served() {
    // Nothing listens at the destination for the first peer; after the
    // destination recovers, the second peer is served end to end.
    let mut ctl = AcceptLoop::new();
    assert_eq!(ctl.step(LoopEvent::Accepted), LoopAction::DialDestination);
    assert_eq!(ctl.step(LoopEvent::DialFailed), LoopAction::DropInbound);
    assert_eq!(ctl.phase, LoopPhase::Listening);
    assert_eq!(ctl.step(LoopEvent::Accepted), LoopAction::DialDestination);
    assert_eq!(ctl.step(LoopEvent::Dialed), LoopAction::SpawnPipe);
    assert_eq!(ctl.phase, LoopPhase::Listening);
}
