use pulsegen::action::Action;
use pulsegen::codec::decode;
use pulsegen::codec::encode;
use pulsegen::codec::ACTION_IDLE;
use pulsegen::codec::ACTION_PIN;
use pulsegen::codec::ACTION_SIZE;
use pulsegen::codec::ACTION_WAIT;

#[test]
fn round_trip_idle() {
    let a = Action::Idle;
    assert_eq!(decode(&encode(a)), a);
}

#[test]
fn round_trip_wait_boundaries() {
    for us in [0u32, 1, 100, u32::MAX] {
        let a = Action::Wait { microseconds: us };
        assert_eq!(decode(&encode(a)), a);
    }
}

#[test]
fn round_trip_pin_boundaries() {
    for (on, off) in [(0u32, 0u32), (0b1, 0), (0, 0b1), (u32::MAX, 0), (0, u32::MAX), (u32::MAX, u32::MAX)] {
        let a = Action::Pin { on, off };
        assert_eq!(decode(&encode(a)), a);
    }
}

#[test]
fn record_layout() {
    assert_eq!(ACTION_SIZE, 3);
    assert_eq!(encode(Action::Idle), [ACTION_IDLE, 0, 0]);
    assert_eq!(encode(Action::Wait { microseconds: 42 }), [ACTION_WAIT, 42, 0]);
    assert_eq!(encode(Action::Pin { on: 5, off: 2 }), [ACTION_PIN, 5, 2]);
}
