use framepipe::driver::{poll_frame, DriverPhase, DriverState};
use framepipe::frame::Frame;
use framepipe::messages::{ToPresentation, ToSimulation};
use framepipe::simulation::{simulation_tick, SimulationState, TickOutcome};

#[test]
fn delivered_frame_advances_counter() {
    let (frame_tx, frame_rx) = crossbeam_channel::bounded(1);
    let (_event_tx, event_rx) = crossbeam_channel::bounded::<ToSimulation>(1);
    let mut state = SimulationState::new();
    assert_eq!(
        simulation_tick(&mut state, &frame_tx, &event_rx),
        TickOutcome::FrameDelivered
    );
    assert_eq!(state.frame_count, 1);
    let frame = poll_frame(&frame_rx).expect("a frame was delivered");
    assert_eq!(frame.len(), 1_228_800);
    assert_eq!(frame.bytes(), &framepipe::frame::simulate_frame(0));
}

#[test]
fn stalled_receiver_keeps_counter_at_zero() {
    let (frame_tx, frame_rx) = crossbeam_channel::bounded(1);
    let (_event_tx, event_rx) = crossbeam_channel::bounded::<ToSimulation>(1);
    // A receiver that never drains: occupy the single slot up front.
    frame_tx
        .try_send(ToPresentation::FramePayload(Frame::for_tick(99)))
        .ok()
        .expect("the slot starts free");
    let mut state = SimulationState::new();
    let mut drops: usize = 0;
    for _ in 0..5 {
        match simulation_tick(&mut state, &frame_tx, &event_rx) {
            TickOutcome::FrameDropped => drops += 1,
            other => panic!("expected a dropped frame, got {:?}", other),
        }
    }
    // Exactly one diagnostic-worthy drop per stalled tick, and the
    // delivered-frame counter is unchanged across the whole window.
    assert_eq!(drops, 5);
    assert_eq!(state.frame_count, 0);
    drop(frame_rx);
}

#[test]
fn counter_advances_only_on_accepted_sends() {
    let (frame_tx, frame_rx) = crossbeam_channel::bounded(1);
    let (_event_tx, event_rx) = crossbeam_channel::bounded::<ToSimulation>(1);
    let mut state = SimulationState::new();
    assert_eq!(
        simulation_tick(&mut state, &frame_tx, &event_rx),
        TickOutcome::FrameDelivered
    );
    assert_eq!(
        simulation_tick(&mut state, &frame_tx, &event_rx),
        TickOutcome::FrameDropped
    );
    assert_eq!(state.frame_count, 1);
    assert!(poll_frame(&frame_rx).is_some());
    assert_eq!(
        simulation_tick(&mut state, &frame_tx, &event_rx),
        TickOutcome::FrameDelivered
    );
    assert_eq!(state.frame_count, 2);
}

#[test]
fn delivered_frames_number_consecutively() {
    let (frame_tx, frame_rx) = crossbeam_channel::bounded(1);
    let (_event_tx, event_rx) = crossbeam_channel::bounded::<ToSimulation>(1);
    let mut state = SimulationState::new();
    for expected in 0..3usize {
        assert_eq!(
            simulation_tick(&mut state, &frame_tx, &event_rx),
            TickOutcome::FrameDelivered
        );
        let frame = poll_frame(&frame_rx).expect("a frame was delivered");
        // The blue channel carries the tick the frame was numbered with.
        assert_eq!(frame.bytes()[2], expected as u8);
    }
}

#[test]
fn sentinel_terminates_within_one_tick() {
    let (frame_tx, _frame_rx) = crossbeam_channel::bounded(1);
    let (event_tx, event_rx) = crossbeam_channel::bounded(1);
    assert!(event_tx.send(ToSimulation::Terminate).is_ok());
    let mut state = SimulationState::new();
    assert_eq!(
        simulation_tick(&mut state, &frame_tx, &event_rx),
        TickOutcome::Terminated
    );
    assert_eq!(state.frame_count, 0);
}

#[test]
fn shutdown_handshake_reaches_terminated() {
    let (event_tx, event_rx) = crossbeam_channel::bounded(1);
    let mut driver = DriverState::new();
    assert_eq!(driver.phase(), DriverPhase::Running);
    driver.begin_shutdown();
    assert_eq!(driver.phase(), DriverPhase::ShuttingDown);
    driver.complete_shutdown(&event_tx);
    assert_eq!(driver.phase(), DriverPhase::Terminated);
    assert!(matches!(event_rx.try_recv(), Ok(ToSimulation::Terminate)));
}

#[test]
fn shutdown_is_best_effort_when_worker_is_gone() {
    let (event_tx, event_rx) = crossbeam_channel::bounded::<ToSimulation>(1);
    drop(event_rx);
    let mut driver = DriverState::new();
    driver.begin_shutdown();
    driver.complete_shutdown(&event_tx);
    assert_eq!(driver.phase(), DriverPhase::Terminated);
}
