use pulsegen::action::Action;
use pulsegen::error::Error;
use pulsegen::generator::Generator;
use pulsegen::generator::GeneratorOptions;
use pulsegen::generator::LoopState;
use pulsegen::interface::PinOp;
use pulsegen::scripted::CountdownControl;
use pulsegen::scripted::RecordingPin;
use pulsegen::scripted::ScriptedSource;

#[test]
fn construction_succeeds_for_positive_values() {
    let g = Generator::from_options(GeneratorOptions::new().buffer_size(4).wave_size(2).loop_delay(1))
        .unwrap();
    assert_eq!(g.capacity(), 4);
    assert_eq!(g.state(), LoopState::Idle);

    let g = Generator::new().unwrap();
    assert_eq!(g.capacity(), 16);

    let g = GeneratorOptions::new().buffer_size(1).wave_size(1).loop_delay(1).build().unwrap();
    assert_eq!(g.capacity(), 1);
}

#[test]
fn construction_fails_for_zero_values() {
    let r = Generator::from_options(GeneratorOptions::new().buffer_size(0));
    assert_eq!(r.err(), Some(Error::Initialization));
    let r = Generator::from_options(GeneratorOptions::new().wave_size(0));
    assert_eq!(r.err(), Some(Error::Initialization));
    let r = Generator::from_options(GeneratorOptions::new().loop_delay(0));
    assert_eq!(r.err(), Some(Error::Initialization));
    let r = GeneratorOptions::new().buffer_size(0).wave_size(0).loop_delay(0).build();
    assert_eq!(r.err(), Some(Error::Initialization));
}

#[test]
fn builder_collects_configuration() {
    let o = Generator::options();
    assert_eq!(o.buffer_size, 16);
    assert_eq!(o.wave_size, 256);
    assert_eq!(o.loop_delay, 10000);
    let o = o.buffer_size(8).wave_size(3).loop_delay(500);
    assert_eq!(o.buffer_size, 8);
    assert_eq!(o.wave_size, 3);
    assert_eq!(o.loop_delay, 500);
}

#[test]
fn error_message_names_initialization() {
    let e = Error::new();
    assert_eq!(e, Error::Initialization);
    assert_eq!(e.message(), "generator initialization failed");
}

#[test]
fn end_to_end_scenario_renders_in_order_then_idles() {
    let mut g = Generator::from_options(GeneratorOptions::new().buffer_size(4).wave_size(2))
        .unwrap();
    let mut pin = RecordingPin::new();
    let mut source = ScriptedSource::new(vec![
        Action::Pin { on: 0b1, off: 0 },
        Action::Wait { microseconds: 100 },
        Action::Pin { on: 0, off: 0b1 },
    ]);
    let mut control = CountdownControl::new(10);

    g.run(&mut pin, &mut source, &mut control);

    assert_eq!(
        pin.recorded(),
        &vec![
            PinOp::Transition { on: 0b1, off: 0 },
            PinOp::Hold { microseconds: 100 },
            PinOp::Transition { on: 0, off: 0b1 },
        ]
    );
    // After the script is exhausted the loop idles until the stop arrives:
    // ten granted polls, three renders, so seven idles.
    assert_eq!(g.state(), LoopState::Idle);
    assert_eq!(control.idle_calls().len(), 7);
    for us in control.idle_calls() {
        assert_eq!(*us, 10000);
    }
}

#[test]
fn backpressure_stalls_then_resumes_without_skipping() {
    let mut g = Generator::from_options(
        GeneratorOptions::new().buffer_size(4).wave_size(2).loop_delay(77),
    )
    .unwrap();
    let mut pin = RecordingPin::new();
    let mut source = ScriptedSource::new(vec![
        Action::Idle,
        Action::Idle,
        Action::Wait { microseconds: 5 },
        Action::Pin { on: 3, off: 4 },
    ]);
    let mut control = CountdownControl::new(8);

    g.run(&mut pin, &mut source, &mut control);

    // Nothing rendered while the source reported idle; both stalls idled for
    // the configured delay; rendering resumed with nothing skipped.
    assert_eq!(
        pin.recorded(),
        &vec![
            PinOp::Hold { microseconds: 5 },
            PinOp::Transition { on: 3, off: 4 },
        ]
    );
    // Eight granted polls, two renders, so six idles, each of the configured
    // delay.
    assert_eq!(control.idle_calls().len(), 6);
    for us in control.idle_calls() {
        assert_eq!(*us, 77);
    }
}

#[test]
fn cancellation_bounds_rendering() {
    let mut g = Generator::from_options(GeneratorOptions::new().buffer_size(4).wave_size(2))
        .unwrap();
    let mut pin = RecordingPin::new();
    let script: Vec<Action> = (0..100u32).map(|i| Action::Wait { microseconds: i }).collect();
    let mut source = ScriptedSource::new(script);
    // The stop arrives after five iterations: one action renders per
    // iteration, so at most five actions render before `run` returns.
    let mut control = CountdownControl::new(5);

    g.run(&mut pin, &mut source, &mut control);

    assert_eq!(pin.recorded().len(), 5);
    for (i, op) in pin.recorded().iter().enumerate() {
        assert_eq!(*op, PinOp::Hold { microseconds: i as u32 });
    }
    // Every granted poll rendered; the loop never idled.
    assert!(control.idle_calls().is_empty());
    assert_eq!(g.state(), LoopState::Idle);
}

#[test]
fn stop_is_idempotent_when_no_loop_runs() {
    let mut g = Generator::new().unwrap();
    assert_eq!(g.state(), LoopState::Idle);
    g.stop();
    assert_eq!(g.state(), LoopState::Idle);
    g.stop();
    assert_eq!(g.state(), LoopState::Idle);
    // Dropping without ever running tears down without error.
    drop(g);
    let g2 = Generator::new().unwrap();
    drop(g2);
}

#[test]
fn immediate_stop_renders_nothing() {
    let mut g = Generator::new().unwrap();
    let mut pin = RecordingPin::new();
    let mut source = ScriptedSource::new(vec![Action::Pin { on: 1, off: 0 }]);
    let mut control = CountdownControl::new(0);

    g.run(&mut pin, &mut source, &mut control);

    assert!(pin.recorded().is_empty());
    assert_eq!(g.state(), LoopState::Idle);
}

#[test]
fn run_twice_sequentially_appends_renders() {
    let mut g = Generator::from_options(GeneratorOptions::new().buffer_size(4).wave_size(2))
        .unwrap();
    let mut pin = RecordingPin::new();

    let mut source = ScriptedSource::new(vec![Action::Wait { microseconds: 1 }]);
    let mut control = CountdownControl::new(4);
    g.run(&mut pin, &mut source, &mut control);

    let mut source = ScriptedSource::new(vec![Action::Wait { microseconds: 2 }]);
    let mut control = CountdownControl::new(4);
    g.run(&mut pin, &mut source, &mut control);

    assert_eq!(
        pin.recorded(),
        &vec![
            PinOp::Hold { microseconds: 1 },
            PinOp::Hold { microseconds: 2 },
        ]
    );
    assert_eq!(g.state(), LoopState::Idle);
}

#[test]
fn wave_larger_than_buffer_renders_everything_in_order() {
    // Default options: wave size 256 exceeds the buffer capacity 16; refill
    // simply tops the ring up and ordering is untouched.
    let mut g = Generator::new().unwrap();
    let script: Vec<Action> = (0..40u32).map(|i| Action::Wait { microseconds: i }).collect();
    let mut pin = RecordingPin::new();
    let mut source = ScriptedSource::new(script);
    let mut control = CountdownControl::new(60);

    g.run(&mut pin, &mut source, &mut control);

    assert_eq!(pin.recorded().len(), 40);
    for (i, op) in pin.recorded().iter().enumerate() {
        assert_eq!(*op, PinOp::Hold { microseconds: i as u32 });
    }
    assert!(!control.idle_calls().is_empty());
}

#[test]
fn single_slot_buffer_works() {
    let mut g = Generator::from_options(GeneratorOptions::new().buffer_size(1).wave_size(1))
        .unwrap();
    let mut pin = RecordingPin::new();
    let mut source = ScriptedSource::new(vec![
        Action::Pin { on: 2, off: 0 },
        Action::Pin { on: 0, off: 2 },
    ]);
    let mut control = CountdownControl::new(4);

    g.run(&mut pin, &mut source, &mut control);

    assert_eq!(
        pin.recorded(),
        &vec![
            PinOp::Transition { on: 2, off: 0 },
            PinOp::Transition { on: 0, off: 2 },
        ]
    );
}
