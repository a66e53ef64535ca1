use pulsegen::action::Action;
use pulsegen::buffer::ActionBuffer;
use pulsegen::codec::decode;
use pulsegen::codec::encode;

#[test]
fn fifo_across_wraparound() {
    let mut b = ActionBuffer::new(3);
    assert_eq!(b.capacity(), 3);
    assert_eq!(b.len(), 0);
    assert!(b.pop().is_none());

    // Fill, drain partially, refill: the head wraps around the ring.
    for us in 0..3u32 {
        b.push(encode(Action::Wait { microseconds: us }));
    }
    assert_eq!(b.len(), 3);
    assert_eq!(decode(&b.pop().unwrap()), Action::Wait { microseconds: 0 });
    assert_eq!(decode(&b.pop().unwrap()), Action::Wait { microseconds: 1 });
    b.push(encode(Action::Wait { microseconds: 3 }));
    b.push(encode(Action::Wait { microseconds: 4 }));
    assert_eq!(b.len(), 3);
    for us in 2..5u32 {
        assert_eq!(decode(&b.pop().unwrap()), Action::Wait { microseconds: us });
    }
    assert!(b.pop().is_none());
}

#[test]
fn low_water_and_clear() {
    let mut b = ActionBuffer::new(2);
    assert!(b.is_low(1));
    b.push(encode(Action::Idle));
    assert!(!b.is_low(1));
    assert!(b.is_low(2));
    b.push(encode(Action::Pin { on: 1, off: 0 }));
    assert!(!b.is_low(2));
    b.clear();
    assert_eq!(b.len(), 0);
    assert_eq!(b.capacity(), 2);
    assert!(b.pop().is_none());
}
