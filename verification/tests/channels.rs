use xochron::channels::{ChannelBank, Polarity};

#[test]
fn latch_holds_until_acknowledged() {
    // channel bound to the falling edge on line 13: button-down
    let mut bank = ChannelBank::new();
    bank.configure(0, 13, Polarity::Falling);

    bank.on_edge(13, Polarity::Falling);
    // polled twice before acknowledgment: still latched both times
    assert!(bank.is_triggered(0));
    assert!(bank.is_triggered(0));
    assert_eq!(bank.poll(), vec![0]);
    assert_eq!(bank.poll(), vec![0]);

    bank.acknowledge(0);
    assert!(!bank.is_triggered(0));
    assert_eq!(bank.poll(), Vec::<usize>::new());

    // an identical transition after the acknowledge latches again
    bank.on_edge(13, Polarity::Falling);
    assert!(bank.is_triggered(0));
}

#[test]
fn coalesced_edges_still_trigger_at_least_once() {
    let mut bank = ChannelBank::new();
    bank.configure(0, 13, Polarity::Falling);
    bank.on_edge(13, Polarity::Falling);
    bank.on_edge(13, Polarity::Falling);
    // two edges before the acknowledge coalesce into one detection
    assert_eq!(bank.poll(), vec![0]);
    bank.acknowledge(0);
    assert!(!bank.is_triggered(0));
}

#[test]
fn polarity_tells_press_from_release_on_one_line() {
    let mut bank = ChannelBank::new();
    bank.configure(0, 13, Polarity::Falling);
    bank.configure(1, 13, Polarity::Rising);

    bank.on_edge(13, Polarity::Falling);
    assert!(bank.is_triggered(0));
    assert!(!bank.is_triggered(1));

    bank.acknowledge(0);
    bank.on_edge(13, Polarity::Rising);
    assert!(!bank.is_triggered(0));
    assert!(bank.is_triggered(1));
}

#[test]
fn unconfigured_channels_never_latch() {
    let mut bank = ChannelBank::new();
    bank.on_edge(13, Polarity::Falling);
    assert_eq!(bank.poll(), Vec::<usize>::new());
}

#[test]
fn simultaneous_edges_latch_every_matching_channel() {
    let mut bank = ChannelBank::new();
    bank.configure(2, 28, Polarity::Rising);
    bank.configure(5, 12, Polarity::Rising);
    bank.configure(7, 19, Polarity::Rising);

    bank.on_edge(28, Polarity::Rising);
    bank.on_edge(12, Polarity::Rising);
    bank.on_edge(19, Polarity::Rising);

    // one pass sees them all, in ascending channel order
    assert_eq!(bank.poll(), vec![2, 5, 7]);
}

#[test]
fn reconfigure_drops_a_stale_latch() {
    let mut bank = ChannelBank::new();
    bank.configure(3, 8, Polarity::Rising);
    bank.on_edge(8, Polarity::Rising);
    assert!(bank.is_triggered(3));
    bank.configure(3, 9, Polarity::Rising);
    assert!(!bank.is_triggered(3));
}
