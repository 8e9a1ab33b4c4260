use eir::mailbox::Mailbox;

#[test]
fn new_mailbox_has_nothing_to_receive() {
    let mut mailbox: Mailbox<u32> = Mailbox::new();
    assert!(!mailbox.is_pending());
    assert_eq!(mailbox.try_receive(), None);
}

#[test]
fn mailbox_hands_out_what_was_sent() {
    let mut mailbox = Mailbox::new();
    mailbox.send((255u8, 128u8, 0u8));
    assert!(mailbox.is_pending());
    assert_eq!(mailbox.try_receive(), Some((255, 128, 0)));
    assert!(!mailbox.is_pending());
}

#[test]
fn mailbox_keeps_only_the_latest_value() {
    let mut mailbox = Mailbox::new();
    for value in [3u32, 1, 4, 1, 5, 9, 2, 6] {
        mailbox.send(value);
    }
    assert_eq!(mailbox.try_receive(), Some(6));
}

#[test]
fn mailbox_gives_a_value_once() {
    let mut mailbox = Mailbox::new();
    mailbox.send(String::from("stop"));
    assert_eq!(mailbox.try_receive(), Some(String::from("stop")));
    assert_eq!(mailbox.try_receive(), None);
    mailbox.send(String::from("go"));
    mailbox.send(String::from("halt"));
    assert_eq!(mailbox.try_receive(), Some(String::from("halt")));
    assert_eq!(mailbox.try_receive(), None);
}

#[test]
fn mailbox_carries_events_without_content() {
    let mut mailbox = Mailbox::new();
    mailbox.send(());
    mailbox.send(());
    assert_eq!(mailbox.try_receive(), Some(()));
    assert_eq!(mailbox.try_receive(), None);
}
