use nes_mouse::acceleration::AxisVelocity;
use nes_mouse::bridge::{
    Action, Bridge, Event, Link, NesController, Phase, POST_SEND_DELAY_MS,
};
use nes_mouse::decoder::ButtonState;
use nes_mouse::report::MouseReport;

/// Plays the driver for one iteration of the loop: answers the query with
/// `connected` and shows `frame` on the data line. Gives back every action
/// that the bridge asked for, the query first.
fn iterate(bridge: &mut Bridge, connected: bool, frame: u8) -> Vec<Action> {
    let mut asked = Vec::new();
    let mut shifted: u32 = 0;
    let mut action = bridge.pending();
    assert_eq!(action, Action::QueryConnection);
    loop {
        asked.push(action);
        let event = match action {
            Action::QueryConnection => Event::Connection(connected),
            Action::PulseLatch => {
                shifted = 0;
                Event::Done
            }
            Action::ReadData => Event::Level(frame >> shifted & 1 == 1),
            Action::PulseClock => {
                shifted += 1;
                Event::Done
            }
            Action::Send(_) | Action::Pace(_) | Action::Sleep(_) => Event::Done,
        };
        action = bridge.step(event).expect("the event answers the pending action");
        assert_eq!(action, bridge.pending());
        if action == Action::QueryConnection {
            return asked;
        }
    }
}

fn reports(asked: &[Action]) -> Vec<MouseReport> {
    let mut sent = Vec::new();
    for action in asked {
        if let Action::Send(report) = action {
            sent.push(*report);
        }
    }
    sent
}

fn held(bridge: &Bridge) -> (ButtonState, i8, i8) {
    (bridge.buttons(), bridge.x().value(), bridge.y().value())
}

#[test]
fn a_and_up_held_for_three_iterations() {
    let mut bridge = Bridge::new(NesController::new());
    let mut ys = Vec::new();
    for _ in 0..3 {
        let sent = reports(&iterate(&mut bridge, true, 0b0001_0001));
        assert_eq!(sent.len(), 1);
        assert_eq!(sent[0].buttons & 0x01, 0x01);
        assert_eq!(sent[0].x, 0);
        ys.push(sent[0].y);
    }
    assert_eq!(ys, vec![-4, -8, -16]);
}

#[test]
fn released_frame_resets_the_axis() {
    let mut bridge = Bridge::new(NesController::new());
    for _ in 0..3 {
        iterate(&mut bridge, true, 0b0001_0001);
    }
    let sent = reports(&iterate(&mut bridge, true, 0b0000_0000));
    assert_eq!(sent, vec![MouseReport { buttons: 0, x: 0, y: 0 }]);
    assert_eq!(sent[0].buttons & 0x01, 0);
}

#[test]
fn idle_iterations_send_nothing_and_keep_the_state() {
    let mut bridge = Bridge::new(NesController::new());
    iterate(&mut bridge, true, 0b1000_0010);
    iterate(&mut bridge, true, 0b1000_0010);
    let before = held(&bridge);
    assert_eq!(before, (ButtonState { a: false, b: true, start: false }, 8, 0));
    for _ in 0..25 {
        let asked = iterate(&mut bridge, false, 0xFF);
        assert_eq!(asked, vec![Action::QueryConnection, Action::Sleep(50)]);
        assert!(reports(&asked).is_empty());
        assert_eq!(held(&bridge), before);
        assert_eq!(bridge.link(), Link::Idle);
    }
}

#[test]
fn reconnection_resumes_from_the_held_state() {
    let mut bridge = Bridge::new(NesController::new());
    iterate(&mut bridge, true, 0b1000_0000);
    iterate(&mut bridge, true, 0b1000_0000);
    for _ in 0..4 {
        iterate(&mut bridge, false, 0);
    }
    let sent = reports(&iterate(&mut bridge, true, 0b1000_0000));
    assert_eq!(sent, vec![MouseReport { buttons: 0, x: 16, y: 0 }]);
    assert_eq!(bridge.link(), Link::Active);
}

#[test]
fn new_bridge_is_idle_and_at_rest() {
    let bridge = Bridge::new(NesController::new());
    assert_eq!(bridge.link(), Link::Idle);
    assert_eq!(bridge.phase(), Phase::Query);
    assert_eq!(bridge.pending(), Action::QueryConnection);
    assert_eq!(held(&bridge), (ButtonState { a: false, b: false, start: false }, 0, 0));
    assert_eq!(bridge.controller(), NesController { response_time: 50 });
}

#[test]
fn default_response_time_is_fifty_milliseconds() {
    assert_eq!(NesController::new().response_time, 50);
}

#[test]
fn active_iteration_asks_for_the_protocol_in_order() {
    let mut bridge = Bridge::new(NesController::new());
    let asked = iterate(&mut bridge, true, 0b0100_1010);
    let mut want = vec![Action::QueryConnection, Action::PulseLatch];
    for _ in 0..8 {
        want.push(Action::ReadData);
        want.push(Action::PulseClock);
    }
    want.push(Action::Send(MouseReport { buttons: 0b110, x: -4, y: 0 }));
    want.push(Action::Pace(7));
    want.push(Action::Sleep(50));
    assert_eq!(asked, want);
    assert_eq!(POST_SEND_DELAY_MS, 7);
}

#[test]
fn phases_follow_the_iteration() {
    let mut bridge = Bridge::new(NesController::new());
    assert_eq!(bridge.step(Event::Connection(true)), Some(Action::PulseLatch));
    assert_eq!(bridge.phase(), Phase::Latch);
    assert_eq!(bridge.link(), Link::Active);
    assert_eq!(bridge.step(Event::Done), Some(Action::ReadData));
    assert_eq!(bridge.phase(), Phase::Read);
    for position in 0..8 {
        assert_eq!(bridge.step(Event::Level(position == 5)), Some(Action::PulseClock));
        assert_eq!(bridge.phase(), Phase::Clock);
        if position < 7 {
            assert_eq!(bridge.step(Event::Done), Some(Action::ReadData));
            assert_eq!(bridge.phase(), Phase::Read);
        }
    }
    let report = MouseReport { buttons: 0, x: 0, y: 4 };
    assert_eq!(bridge.step(Event::Done), Some(Action::Send(report)));
    assert_eq!(bridge.phase(), Phase::Send);
    assert_eq!(bridge.step(Event::Done), Some(Action::Pace(7)));
    assert_eq!(bridge.phase(), Phase::Pace);
    assert_eq!(bridge.step(Event::Done), Some(Action::Sleep(50)));
    assert_eq!(bridge.phase(), Phase::Sleep);
    assert_eq!(bridge.step(Event::Done), Some(Action::QueryConnection));
    assert_eq!(bridge.phase(), Phase::Query);
}

#[test]
fn response_time_of_the_controller_sets_the_sleep() {
    let mut bridge = Bridge::new(NesController { response_time: 20 });
    assert_eq!(iterate(&mut bridge, false, 0), vec![Action::QueryConnection, Action::Sleep(20)]);
    let asked = iterate(&mut bridge, true, 0);
    assert_eq!(asked[asked.len() - 2], Action::Pace(7));
    assert_eq!(asked[asked.len() - 1], Action::Sleep(20));
}

#[test]
fn event_that_answers_nothing_is_refused() {
    let mut bridge = Bridge::new(NesController::new());
    assert_eq!(bridge.step(Event::Done), None);
    assert_eq!(bridge.step(Event::Level(true)), None);
    assert_eq!(bridge.phase(), Phase::Query);
    assert_eq!(bridge.step(Event::Connection(true)), Some(Action::PulseLatch));
    assert_eq!(bridge.step(Event::Connection(true)), None);
    assert_eq!(bridge.step(Event::Level(false)), None);
    assert_eq!(bridge.phase(), Phase::Latch);
    assert_eq!(bridge.step(Event::Done), Some(Action::ReadData));
    assert_eq!(bridge.step(Event::Done), None);
    assert_eq!(bridge.step(Event::Connection(false)), None);
    assert_eq!(bridge.phase(), Phase::Read);
    assert_eq!(bridge.pending(), Action::ReadData);
    assert_eq!(held(&bridge), (ButtonState { a: false, b: false, start: false }, 0, 0));
}

#[test]
fn both_axes_accelerate_side_by_side() {
    let mut bridge = Bridge::new(NesController::new());
    let mut sent = Vec::new();
    for frame in [0b1010_0000u8, 0b1010_0000, 0b0110_0000, 0b0100_0000, 0b0000_1000] {
        sent.extend(reports(&iterate(&mut bridge, true, frame)));
    }
    assert_eq!(
        sent,
        vec![
            MouseReport { buttons: 0, x: 4, y: 4 },
            MouseReport { buttons: 0, x: 8, y: 8 },
            MouseReport { buttons: 0, x: -4, y: 16 },
            MouseReport { buttons: 0, x: -8, y: 0 },
            MouseReport { buttons: 0b100, x: 0, y: 0 },
        ]
    );
}

#[test]
fn held_direction_saturates_at_sixty_four() {
    let mut bridge = Bridge::new(NesController::new());
    let mut xs = Vec::new();
    for _ in 0..7 {
        let sent = reports(&iterate(&mut bridge, true, 0b1000_0000));
        xs.push(sent[0].x);
    }
    assert_eq!(xs, vec![4, 8, 16, 32, 64, 64, 64]);
    assert_eq!(bridge.x().value(), AxisVelocity::new(64).expect("a velocity").value());
}

#[test]
fn sent_report_goes_out_as_three_bytes() {
    let mut bridge = Bridge::new(NesController::new());
    iterate(&mut bridge, true, 0b0101_0001);
    let sent = reports(&iterate(&mut bridge, true, 0b0101_0001));
    assert_eq!(sent[0].to_bytes(), [0x01, 0xF8, 0xF8]);
}
