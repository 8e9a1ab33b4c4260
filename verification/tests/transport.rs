use eir::buffer::BUFFER_LEN;
use eir::buffer::QUEUE_LEN;
use eir::transport::read_step;
use eir::transport::transport_close;
use eir::transport::transport_open;
use eir::transport::transport_read;
use eir::transport::transport_write;
use eir::transport::PendingRead;
use eir::transport::ReadPoll;
use eir::transport::Transport;
use eir::transport::WriteError;

fn pattern(len: usize) -> Vec<u8> {
    (0..len).map(|i| (i * 7 % 253) as u8).collect()
}

fn poll_until_done(
    transport: &mut Transport,
    buffer: &mut [u8],
    pending: &mut PendingRead,
) -> (usize, bool) {
    loop {
        match transport_read(transport, buffer, pending) {
            ReadPoll::Pending => {}
            ReadPoll::Done { bytes_filled, timed_out } => return (bytes_filled, timed_out),
        }
    }
}

#[test]
fn new_transport_is_at_rest() {
    let mut transport = Transport::new();
    assert_eq!(transport.outbound_len(), 0);
    assert_eq!(transport.inbound_len(), 0);
    assert!(transport.take_outbound().is_none());
}

#[test]
fn open_and_close_succeed_and_change_nothing() {
    let mut transport = Transport::new();
    assert!(transport_open(&transport));
    assert!(transport_open(&transport));
    assert_eq!(transport_write(&mut transport, &[1, 2, 3]), Ok(3));
    assert_eq!(transport.feed_inbound(&[4, 5]), 2);
    assert!(transport_close(&transport));
    assert!(transport_close(&transport));
    assert!(transport_open(&transport));
    assert_eq!(transport.outbound_len(), 1);
    assert_eq!(transport.inbound_len(), 2);
}

#[test]
fn write_returns_the_number_of_bytes_taken() {
    let mut transport = Transport::new();
    assert_eq!(transport_write(&mut transport, &[42]), Ok(1));
    assert_eq!(transport_write(&mut transport, &pattern(300)), Ok(300));
    assert_eq!(transport.outbound_len(), 2);
    assert_eq!(transport.inbound_len(), 0);
}

#[test]
fn write_takes_an_empty_payload() {
    let mut transport = Transport::new();
    assert_eq!(transport_write(&mut transport, &[]), Ok(0));
    assert_eq!(transport.outbound_len(), 1);
    let buffer = transport.take_outbound().unwrap();
    assert!(buffer.is_empty());
}

#[test]
fn write_at_capacity_succeeds() {
    let mut transport = Transport::new();
    let payload = pattern(BUFFER_LEN);
    assert_eq!(transport_write(&mut transport, &payload), Ok(BUFFER_LEN));
    let buffer = transport.take_outbound().unwrap();
    assert_eq!(buffer.as_slice(), payload.as_slice());
}

#[test]
fn write_to_a_full_queue_reports_it_and_keeps_the_queue() {
    let mut transport = Transport::new();
    assert_eq!(transport_write(&mut transport, &[1, 1]), Ok(2));
    assert_eq!(transport_write(&mut transport, &[2, 2, 2]), Ok(3));
    assert_eq!(transport_write(&mut transport, &[3]), Err(WriteError::QueueFull));
    assert_eq!(transport_write(&mut transport, &[]), Err(WriteError::QueueFull));
    assert_eq!(transport.outbound_len(), 2);
    assert_eq!(transport.take_outbound().unwrap().as_slice(), &[1, 1]);
    assert_eq!(transport_write(&mut transport, &[4]), Ok(1));
    assert_eq!(transport_write(&mut transport, &[5]), Err(WriteError::QueueFull));
    assert_eq!(transport.take_outbound().unwrap().as_slice(), &[2, 2, 2]);
    assert_eq!(transport.take_outbound().unwrap().as_slice(), &[4]);
    assert!(transport.take_outbound().is_none());
}

#[test]
fn feed_queues_a_whole_packet_that_fits() {
    let mut transport = Transport::new();
    assert_eq!(transport.feed_inbound(&[]), 0);
    assert_eq!(transport.feed_inbound(&pattern(64)), 64);
    assert_eq!(transport.feed_inbound(&pattern(64)), 64);
    assert_eq!(transport.inbound_len(), 128);
    assert_eq!(transport.outbound_len(), 0);
}

#[test]
fn feed_stops_at_the_capacity_of_the_queue() {
    let mut transport = Transport::new();
    assert_eq!(transport.feed_inbound(&pattern(1000)), 1000);
    let packet: Vec<u8> = (0..100u8).collect();
    assert_eq!(transport.feed_inbound(&packet), 24);
    assert_eq!(transport.inbound_len(), BUFFER_LEN);
    assert_eq!(transport.feed_inbound(&packet[24..]), 0);
    assert_eq!(transport.inbound_len(), BUFFER_LEN);

    let mut head = vec![0u8; 1000];
    let mut pending = PendingRead::begin_at(0, 1);
    let mut done = ReadPoll::Pending;
    for _ in 0..1000 {
        done = read_step(&mut transport, &mut head, &mut pending, 0);
    }
    assert_eq!(done, ReadPoll::Done { bytes_filled: 1000, timed_out: false });
    assert_eq!(head, pattern(1000));
    assert_eq!(transport.feed_inbound(&packet[24..]), 76);

    let mut tail = vec![0u8; 100];
    let mut pending = PendingRead::begin_at(0, 1);
    for _ in 0..100 {
        done = read_step(&mut transport, &mut tail, &mut pending, 0);
    }
    assert_eq!(done, ReadPoll::Done { bytes_filled: 100, timed_out: false });
    assert_eq!(tail, packet);
    assert_eq!(transport.inbound_len(), 0);
}

#[test]
fn read_begins_with_nothing_filled() {
    let pending = PendingRead::begin_at(100, 1);
    assert_eq!(pending, PendingRead { filled: 0, started_at: 100, timeout_micros: 1_000 });
    let pending = PendingRead::begin_at(100, -5);
    assert_eq!(pending, PendingRead { filled: 0, started_at: 100, timeout_micros: 0 });
    let pending = PendingRead::begin_at(u64::MAX - 10, 1);
    assert_eq!(pending, PendingRead { filled: 0, started_at: u64::MAX - 10, timeout_micros: 1_000 });
}

#[test]
fn read_begun_by_the_clock_begins_now() {
    let first = PendingRead::begin(0);
    let second = PendingRead::begin(1_000);
    assert_eq!(first.filled, 0);
    assert_eq!(first.timeout_micros, 0);
    assert_eq!(second.filled, 0);
    assert_eq!(second.timeout_micros, 1_000_000);
    assert!(second.started_at >= first.started_at);
    assert!(second.started_at < first.started_at + 10_000_000);
}

#[test]
fn read_near_the_last_instant_does_not_give_up_early() {
    let mut transport = Transport::new();
    let mut buffer = [0u8; 1];
    let mut pending = PendingRead::begin_at(u64::MAX - 10, 1);
    assert_eq!(
        read_step(&mut transport, &mut buffer, &mut pending, u64::MAX - 5),
        ReadPoll::Pending
    );
    assert_eq!(read_step(&mut transport, &mut buffer, &mut pending, u64::MAX), ReadPoll::Pending);
}

#[test]
fn idle_read_goes_on_until_the_timeout_is_over() {
    let mut transport = Transport::new();
    let mut buffer = [0xEEu8; 4];
    let mut pending = PendingRead::begin_at(1_000, 3);
    for now in [1_000, 1_001, 2_500, 3_999] {
        assert_eq!(read_step(&mut transport, &mut buffer, &mut pending, now), ReadPoll::Pending);
        assert_eq!(
            pending,
            PendingRead { filled: 0, started_at: 1_000, timeout_micros: 3_000 }
        );
    }
    assert_eq!(
        read_step(&mut transport, &mut buffer, &mut pending, 4_000),
        ReadPoll::Done { bytes_filled: 0, timed_out: true }
    );
    assert_eq!(
        read_step(&mut transport, &mut buffer, &mut pending, 9_000),
        ReadPoll::Done { bytes_filled: 0, timed_out: true }
    );
    assert_eq!(buffer, [0xEE; 4]);
}

#[test]
fn read_takes_one_byte_per_poll_and_ends_when_complete() {
    let mut transport = Transport::new();
    assert_eq!(transport.feed_inbound(&[10, 20, 30, 40, 50]), 5);
    let mut buffer = [0u8; 3];
    let mut pending = PendingRead::begin_at(0, 10);
    assert_eq!(read_step(&mut transport, &mut buffer, &mut pending, 1), ReadPoll::Pending);
    assert_eq!(buffer, [10, 0, 0]);
    assert_eq!(pending.filled, 1);
    assert_eq!(read_step(&mut transport, &mut buffer, &mut pending, 2), ReadPoll::Pending);
    assert_eq!(buffer, [10, 20, 0]);
    assert_eq!(
        read_step(&mut transport, &mut buffer, &mut pending, 9_999),
        ReadPoll::Done { bytes_filled: 3, timed_out: false }
    );
    assert_eq!(buffer, [10, 20, 30]);
    assert_eq!(pending.filled, 3);
    assert_eq!(transport.inbound_len(), 2);
    assert_eq!(
        read_step(&mut transport, &mut buffer, &mut pending, 20_000),
        ReadPoll::Done { bytes_filled: 3, timed_out: false }
    );
    assert_eq!(transport.inbound_len(), 2);
}

#[test]
fn read_that_runs_out_of_time_reports_what_it_has() {
    let mut transport = Transport::new();
    assert_eq!(transport.feed_inbound(&[7, 8]), 2);
    let mut buffer = [0u8; 4];
    let mut pending = PendingRead::begin_at(500, 2);
    assert_eq!(read_step(&mut transport, &mut buffer, &mut pending, 600), ReadPoll::Pending);
    assert_eq!(read_step(&mut transport, &mut buffer, &mut pending, 700), ReadPoll::Pending);
    assert_eq!(read_step(&mut transport, &mut buffer, &mut pending, 800), ReadPoll::Pending);
    assert_eq!(
        read_step(&mut transport, &mut buffer, &mut pending, 2_500),
        ReadPoll::Done { bytes_filled: 2, timed_out: true }
    );
    assert_eq!(buffer, [7, 8, 0, 0]);
}

#[test]
fn read_past_its_time_leaves_waiting_bytes_in_the_queue() {
    let mut transport = Transport::new();
    assert_eq!(transport.feed_inbound(&[1, 2, 3]), 3);
    let mut buffer = [0u8; 2];
    let mut pending = PendingRead::begin_at(50, 0);
    assert_eq!(
        read_step(&mut transport, &mut buffer, &mut pending, 50),
        ReadPoll::Done { bytes_filled: 0, timed_out: true }
    );
    assert_eq!(buffer, [0, 0]);
    assert_eq!(transport.inbound_len(), 3);
    let mut pending = PendingRead::begin_at(50, -7);
    assert_eq!(
        read_step(&mut transport, &mut buffer, &mut pending, 50),
        ReadPoll::Done { bytes_filled: 0, timed_out: true }
    );
    assert_eq!(transport.inbound_len(), 3);
}

#[test]
fn read_of_no_bytes_is_complete_at_once() {
    let mut transport = Transport::new();
    assert_eq!(transport.feed_inbound(&[1]), 1);
    let mut buffer: [u8; 0] = [];
    let mut pending = PendingRead::begin_at(0, 0);
    assert_eq!(
        read_step(&mut transport, &mut buffer, &mut pending, 1_000_000),
        ReadPoll::Done { bytes_filled: 0, timed_out: false }
    );
    assert_eq!(transport.inbound_len(), 1);
}

#[test]
fn read_does_not_touch_the_outbound_queue() {
    let mut transport = Transport::new();
    assert_eq!(transport_write(&mut transport, &[1, 2]), Ok(2));
    assert_eq!(transport.feed_inbound(&[9]), 1);
    let mut buffer = [0u8; 1];
    let mut pending = PendingRead::begin_at(0, 1);
    assert_eq!(
        read_step(&mut transport, &mut buffer, &mut pending, 0),
        ReadPoll::Done { bytes_filled: 1, timed_out: false }
    );
    assert_eq!(transport.outbound_len(), 1);
    assert_eq!(transport.take_outbound().unwrap().as_slice(), &[1, 2]);
}

#[test]
fn loopback_returns_the_payload_unchanged() {
    for len in [1, 2, 3, 63, 64, 65, 500, BUFFER_LEN - 1, BUFFER_LEN] {
        let payload = pattern(len);
        let mut transport = Transport::new();
        assert_eq!(transport_write(&mut transport, &payload), Ok(len));
        let sent = transport.take_outbound().unwrap();
        assert_eq!(sent.len(), len);
        assert_eq!(transport.feed_inbound(sent.as_slice()), len);
        let mut buffer = vec![0u8; len];
        let mut pending = PendingRead::begin_at(0, 1);
        let mut polls = 0;
        let done = loop {
            polls += 1;
            match read_step(&mut transport, &mut buffer, &mut pending, 999) {
                ReadPoll::Pending => {}
                done => break done,
            }
        };
        assert_eq!(done, ReadPoll::Done { bytes_filled: len, timed_out: false });
        assert_eq!(polls, len);
        assert_eq!(buffer, payload);
        assert_eq!(transport.inbound_len(), 0);
        assert_eq!(transport.outbound_len(), 0);
    }
}

#[test]
fn loopback_keeps_the_order_of_several_payloads() {
    let mut transport = Transport::new();
    assert_eq!(transport_write(&mut transport, &[1, 2, 3]), Ok(3));
    assert_eq!(transport_write(&mut transport, &[4, 5]), Ok(2));
    while let Some(sent) = transport.take_outbound() {
        assert_eq!(transport.feed_inbound(sent.as_slice()), sent.len());
    }
    let mut buffer = [0u8; 5];
    let mut pending = PendingRead::begin_at(0, 1);
    let mut done = ReadPoll::Pending;
    for _ in 0..5 {
        done = read_step(&mut transport, &mut buffer, &mut pending, 0);
    }
    assert_eq!(done, ReadPoll::Done { bytes_filled: 5, timed_out: false });
    assert_eq!(buffer, [1, 2, 3, 4, 5]);
}

#[test]
fn idle_read_by_the_clock_returns_after_the_timeout() {
    let mut transport = Transport::new();
    let mut buffer = [0u8; 8];
    let started = std::time::Instant::now();
    let mut pending = PendingRead::begin(30);
    let outcome = poll_until_done(&mut transport, &mut buffer, &mut pending);
    let elapsed = started.elapsed();
    assert_eq!(outcome, (0, true));
    assert!(elapsed >= std::time::Duration::from_millis(30));
    assert!(elapsed < std::time::Duration::from_millis(5_000));
    assert_eq!(buffer, [0u8; 8]);
}

#[test]
fn read_by_the_clock_with_no_time_returns_at_once() {
    let mut transport = Transport::new();
    assert_eq!(transport.feed_inbound(&[1, 2, 3]), 3);
    let mut buffer = [0u8; 3];
    let mut pending = PendingRead::begin(0);
    assert_eq!(poll_until_done(&mut transport, &mut buffer, &mut pending), (0, true));
    let mut pending = PendingRead::begin(-1);
    assert_eq!(poll_until_done(&mut transport, &mut buffer, &mut pending), (0, true));
    assert_eq!(transport.inbound_len(), 3);
}

#[test]
fn served_read_by_the_clock_completes_before_the_timeout() {
    let mut transport = Transport::new();
    let payload = pattern(200);
    assert_eq!(transport.feed_inbound(&payload), 200);
    let mut buffer = vec![0u8; 200];
    let started = std::time::Instant::now();
    let mut pending = PendingRead::begin(10_000);
    let outcome = poll_until_done(&mut transport, &mut buffer, &mut pending);
    assert_eq!(outcome, (200, false));
    assert!(started.elapsed() < std::time::Duration::from_millis(10_000));
    assert_eq!(buffer, payload);
}

#[test]
fn partly_served_read_by_the_clock_times_out_with_what_came() {
    let mut transport = Transport::new();
    assert_eq!(transport.feed_inbound(&[5, 6, 7]), 3);
    let mut buffer = [0u8; 10];
    let started = std::time::Instant::now();
    let mut pending = PendingRead::begin(20);
    let outcome = poll_until_done(&mut transport, &mut buffer, &mut pending);
    assert_eq!(outcome, (3, true));
    assert!(started.elapsed() >= std::time::Duration::from_millis(20));
    assert_eq!(&buffer[..3], &[5, 6, 7]);
    assert_eq!(&buffer[3..], &[0u8; 7]);
}
