use lifegame::signal::{
    Command, Flip, Pause, Quit, Reset, SignalHub, TimeScale, MAX_EXPONENT, MIN_EXPONENT,
};

#[test]
fn test_time_scale_increment_clamps_at_upper_bound() {
    let mut scale = TimeScale::new();
    for _ in 0..25 {
        scale.increment();
    }
    assert_eq!(scale.exponent(), MAX_EXPONENT);
    scale.increment();
    assert_eq!(scale.exponent(), MAX_EXPONENT);
}

#[test]
fn test_time_scale_decrement_clamps_at_lower_bound() {
    let mut scale = TimeScale::new();
    for _ in 0..25 {
        scale.decrement();
    }
    assert_eq!(scale.exponent(), MIN_EXPONENT);
    scale.decrement();
    assert_eq!(scale.exponent(), MIN_EXPONENT);
}

#[test]
fn test_scale_is_exactly_two_to_the_exponent() {
    let mut scale = TimeScale::new();
    assert_eq!(scale.scale(), (1, 1));
    scale.increment();
    scale.increment();
    scale.increment();
    assert_eq!(scale.scale(), (8, 1));
    for _ in 0..20 {
        scale.increment();
    }
    assert_eq!(scale.scale(), (1024, 1));
    let mut slow = TimeScale::new();
    slow.decrement();
    slow.decrement();
    assert_eq!(slow.scale(), (1, 4));
    for _ in 0..20 {
        slow.decrement();
    }
    assert_eq!(slow.scale(), (1, 1024));
}

#[test]
fn test_pause_toggle_twice_restores_state() {
    let mut pause = Pause::new();
    assert!(!pause.should_wait());
    pause.toggle();
    assert!(pause.should_wait());
    pause.toggle();
    assert!(!pause.should_wait());
    // From the paused state as well.
    pause.toggle();
    pause.toggle();
    pause.toggle();
    assert!(pause.should_wait());
}

#[test]
fn test_pause_unset_forces_running() {
    let mut pause = Pause::new();
    pause.toggle();
    assert!(pause.should_wait());
    pause.unset();
    assert!(!pause.should_wait());
    pause.unset();
    assert!(!pause.should_wait());
}

#[test]
fn test_reset_take_consumes_exactly_once() {
    let mut reset = Reset::new();
    assert!(!reset.take());
    reset.set();
    assert!(reset.take());
    assert!(!reset.take());
    reset.set();
    assert!(reset.take());
    assert!(!reset.take());
}

#[test]
fn test_flip_take_consumes_exactly_once() {
    let mut flip = Flip::new();
    flip.set();
    flip.set();
    assert!(flip.take());
    assert!(!flip.take());
}

#[test]
fn test_quit_is_one_way() {
    let mut quit = Quit::new();
    assert!(!quit.get());
    quit.set();
    assert!(quit.get());
    quit.set();
    assert!(quit.get());
}

#[test]
fn test_command_decoding() {
    assert_eq!(Command::from_key('j', false), Some(Command::SpeedUp));
    assert_eq!(Command::from_key('J', false), Some(Command::SpeedUp));
    assert_eq!(Command::from_key('k', false), Some(Command::SlowDown));
    assert_eq!(Command::from_key('p', false), Some(Command::TogglePause));
    assert_eq!(Command::from_key('f', false), Some(Command::Flip));
    assert_eq!(Command::from_key('r', false), Some(Command::Reset));
    assert_eq!(Command::from_key('q', false), Some(Command::Quit));
    assert_eq!(Command::from_key('c', true), Some(Command::Quit));
    assert_eq!(Command::from_key('c', false), None);
    assert_eq!(Command::from_key('x', false), None);
    assert_eq!(Command::from_key(' ', true), None);
}

#[test]
fn test_hub_applies_one_signal_per_command() {
    let mut hub = SignalHub::new();
    hub.apply(Command::SpeedUp);
    assert_eq!(hub.time_scale.exponent(), 1);
    assert!(!hub.pause.should_wait());
    assert!(!hub.flip.take());
    assert!(!hub.reset.take());
    assert!(!hub.quit.get());

    hub.apply(Command::TogglePause);
    assert!(hub.pause.should_wait());

    hub.apply(Command::Flip);
    hub.apply(Command::Reset);
    assert!(hub.flip.take());
    assert!(hub.reset.take());
}

#[test]
fn test_hub_quit_also_opens_pause_gate() {
    let mut hub = SignalHub::new();
    hub.apply(Command::TogglePause);
    assert!(hub.pause.should_wait());
    hub.apply(Command::Quit);
    assert!(hub.quit.get());
    assert!(!hub.pause.should_wait());
}
