use harmon::game::{Clock, TimeSpan};
use harmon::Color;


#[test]
fn clock_struct() {
    let clock: Clock = Clock {
        black: TimeSpan::from_secs(3600),
        white: TimeSpan::from_secs(1800),
    };
    assert_eq!(clock.black, TimeSpan::from_secs(3600));
    assert_eq!(clock.white, TimeSpan::from_secs(1800));
}

#[test]
fn new_clock() {
    let clock: Clock = Clock::new(TimeSpan::from_secs(3600), TimeSpan::from_secs(1800));
    assert_eq!(clock.white, TimeSpan::from_secs(3600));
    assert_eq!(clock.black, TimeSpan::from_secs(1800));
}

#[test]
fn remaining_time() {
    let clock: Clock = Clock::new(TimeSpan::from_secs(3600), TimeSpan::from_secs(1800));
    assert_eq!(
        clock.remaining_time(),
        (TimeSpan::from_secs(3600), TimeSpan::from_secs(1800))
    );
}

#[test]
fn player_remaining_time() {
    let clock: Clock = Clock::new(TimeSpan::from_secs(3600), TimeSpan::from_secs(1800));
    assert_eq!(
        clock.player_remaining_time(Color::Black),
        (TimeSpan::from_secs(1800))
    );
    assert_eq!(
        clock.player_remaining_time(Color::White),
        (TimeSpan::from_secs(3600))
    );
}

#[test]
fn add_time() {
    let mut clock: Clock = Clock::new(TimeSpan::from_secs(295), TimeSpan::from_secs(290));
    clock.add_time(Color::White, TimeSpan::from_secs(2));
    assert_eq!(
        clock.remaining_time(),
        (TimeSpan::from_secs(297), TimeSpan::from_secs(290))
    );
    clock.add_time(Color::Black, TimeSpan::from_secs(3));
    assert_eq!(
        clock.remaining_time(),
        (TimeSpan::from_secs(297), TimeSpan::from_secs(293))
    );
    // Checked sub (underflow)
    let mut clock: Clock = Clock::new(TimeSpan::from_secs(10), TimeSpan::from_secs(23));
    clock.sub_time(Color::White, TimeSpan::from_secs(15));
    assert_eq!(
        clock.remaining_time(),
        (TimeSpan::from_secs(0), TimeSpan::from_secs(23))
    );
}

#[test]
fn sub_time() {
    let mut clock: Clock = Clock::new(TimeSpan::from_secs(300), TimeSpan::from_secs(300));
    clock.sub_time(Color::White, TimeSpan::from_secs(5));
    assert_eq!(
        clock.remaining_time(),
        (TimeSpan::from_secs(295), TimeSpan::from_secs(300))
    );
    clock.sub_time(Color::Black, TimeSpan::from_secs(10));
    assert_eq!(
        clock.remaining_time(),
        (TimeSpan::from_secs(295), TimeSpan::from_secs(290))
    );
}

#[test]
fn set_time() {
    let mut clock: Clock = Clock::new(TimeSpan::from_secs(300), TimeSpan::from_secs(300));
    clock.set_time(Color::White, TimeSpan::from_secs(60));
    assert_eq!(
        clock.remaining_time(),
        (TimeSpan::from_secs(60), TimeSpan::from_secs(300))
    );
    clock.set_time(Color::Black, TimeSpan::from_secs(90));
    assert_eq!(
        clock.remaining_time(),
        (TimeSpan::from_secs(60), TimeSpan::from_secs(90))
    );
}

#[test]
fn timeout() {
    let clock: Clock = Clock::new(TimeSpan::from_secs(0), TimeSpan::from_secs(300));
    assert_eq!(clock.timeout(Color::White), true);
    assert_eq!(clock.timeout(Color::Black), false);
    let clock: Clock = Clock::new(TimeSpan::from_secs(60), TimeSpan::from_secs(0));
    assert_eq!(clock.timeout(Color::White), false);
    assert_eq!(clock.timeout(Color::Black), true);
}
