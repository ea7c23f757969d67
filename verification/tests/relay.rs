use tcp_relay::acceptor::Acceptor;
use tcp_relay::copy::chunk_of;
use tcp_relay::copy::copy_run;
use tcp_relay::copy::CopyAction;
use tcp_relay::copy::CopyLoop;
use tcp_relay::copy::CopyStatus;
use tcp_relay::copy::Flow;
use tcp_relay::copy::ReadEvent;
use tcp_relay::copy::Termination;
use tcp_relay::session::Forwarder;
use tcp_relay::session::ForwarderStatus;
use tcp_relay::session::Relay;
use tcp_relay::session::SetupError;
use tcp_relay::trace::trace_line;

/// Feed one chunk into a flow of the relay pair and collect what it forwards.
fn push_up(relay: &mut Relay, bytes: &[u8], sink: &mut Vec<u8>) {
    let action = relay.up_read(ReadEvent::Data(bytes.to_vec()));
    match action {
        CopyAction::Forward(c) => {
            sink.extend_from_slice(&c);
            relay.up_write_result(true);
        }
        CopyAction::Stop => panic!("data must be forwarded"),
    }
}

fn push_down(relay: &mut Relay, bytes: &[u8], sink: &mut Vec<u8>) {
    let action = relay.down_read(ReadEvent::Data(bytes.to_vec()));
    match action {
        CopyAction::Forward(c) => {
            sink.extend_from_slice(&c);
            relay.down_write_result(true);
        }
        CopyAction::Stop => panic!("data must be forwarded"),
    }
}

#[test]
fn chunk_of_takes_exactly_the_read_bytes() {
    let buffer: [u8; 6] = [10, 20, 30, 40, 50, 60];
    assert_eq!(chunk_of(&buffer, 4), vec![10, 20, 30, 40]);
    assert_eq!(chunk_of(&buffer, 0), Vec::<u8>::new());
    assert_eq!(chunk_of(&buffer, 6), vec![10, 20, 30, 40, 50, 60]);
}

#[test]
fn copy_run_concatenates_chunks() {
    let chunks = vec![b"he".to_vec(), b"llo".to_vec(), b"\n".to_vec()];
    let out = copy_run(Flow::Up, &chunks);
    assert_eq!(out, b"hello\n".to_vec());
}

#[test]
fn copy_run_of_nothing_is_empty() {
    let chunks: Vec<Vec<u8>> = Vec::new();
    let out = copy_run(Flow::Up, &chunks);
    assert_eq!(out, Vec::<u8>::new());
}

#[test]
fn copy_run_is_deterministic() {
    let chunks = vec![vec![0, 255, 7], vec![42], vec![], vec![1, 2, 3]];
    let first = copy_run(Flow::Down, &chunks);
    let second = copy_run(Flow::Down, &chunks);
    assert_eq!(first, second);
}

#[test]
fn echo_round_trip_returns_the_same_bytes() {
    let sent = vec![b"hello".to_vec(), b" world".to_vec()];
    let at_server = copy_run(Flow::Up, &sent);
    let echoed = vec![at_server.clone()];
    let at_client = copy_run(Flow::Down, &echoed);
    assert_eq!(at_client, b"hello world".to_vec());
}

#[test]
fn zero_byte_connection_runs_clean() {
    let mut forwarder = Forwarder::accept();
    forwarder.on_peer_addr(true);
    let mut relay = forwarder.on_dial(true).expect("dial succeeded");
    assert!(matches!(forwarder.status, ForwarderStatus::Relaying));

    let up_action = relay.up_read(ReadEvent::Eof);
    assert!(matches!(up_action, CopyAction::Stop));
    let down_action = relay.down_read(ReadEvent::Eof);
    assert!(matches!(down_action, CopyAction::Stop));
    assert_eq!(relay.up.status, CopyStatus::Done(Termination::SourceClosed));
    assert_eq!(relay.down.status, CopyStatus::Done(Termination::SourceClosed));

    forwarder.finish(&relay);
    assert_eq!(forwarder.status, ForwarderStatus::Complete);
    assert!(!forwarder.client_open);
    assert!(!forwarder.server_open);
}

#[test]
fn hello_is_echoed_through_one_connection() {
    let mut relay = Relay::new();
    let mut to_server: Vec<u8> = Vec::new();
    let mut to_client: Vec<u8> = Vec::new();

    push_up(&mut relay, b"hello\n", &mut to_server);
    assert_eq!(to_server, b"hello\n".to_vec());

    let echoed = to_server.clone();
    push_down(&mut relay, &echoed, &mut to_client);
    assert_eq!(to_client, b"hello\n".to_vec());

    relay.up_read(ReadEvent::Eof);
    relay.down_read(ReadEvent::Eof);
    assert_eq!(relay.up.status, CopyStatus::Done(Termination::SourceClosed));
    assert_eq!(relay.down.status, CopyStatus::Done(Termination::SourceClosed));
}

#[test]
fn half_close_still_delivers_the_reply() {
    let mut forwarder = Forwarder::accept();
    forwarder.on_peer_addr(true);
    let mut relay = forwarder.on_dial(true).expect("dial succeeded");

    let mut to_server: Vec<u8> = Vec::new();
    let mut to_client: Vec<u8> = Vec::new();

    // Client sends AAA, then half-closes its write side.
    push_up(&mut relay, b"AAA", &mut to_server);
    relay.up_read(ReadEvent::Eof);
    assert_eq!(relay.up.status, CopyStatus::Done(Termination::SourceClosed));

    // The down flow is untouched and keeps forwarding: BBB, then close.
    assert_eq!(relay.down.status, CopyStatus::Ready);
    push_down(&mut relay, b"BBB", &mut to_client);
    relay.down_read(ReadEvent::Eof);

    assert_eq!(to_server, b"AAA".to_vec());
    assert_eq!(to_client, b"BBB".to_vec());

    forwarder.finish(&relay);
    assert_eq!(forwarder.status, ForwarderStatus::Complete);
}

#[test]
fn read_error_ends_only_its_own_flow() {
    let mut relay = Relay::new();
    let mut to_server: Vec<u8> = Vec::new();
    let mut to_client: Vec<u8> = Vec::new();

    push_down(&mut relay, b"partial", &mut to_client);

    // The server side vanishes mid-stream: the down flow ends with an error.
    let action = relay.down_read(ReadEvent::ReadError);
    assert!(matches!(action, CopyAction::Stop));
    assert_eq!(relay.down.status, CopyStatus::Done(Termination::ReadFailed));

    // The up flow drains unaffected and ends cleanly.
    assert_eq!(relay.up.status, CopyStatus::Ready);
    push_up(&mut relay, b"still flowing", &mut to_server);
    relay.up_read(ReadEvent::Eof);
    assert_eq!(relay.up.status, CopyStatus::Done(Termination::SourceClosed));

    assert_eq!(to_client, b"partial".to_vec());
    assert_eq!(to_server, b"still flowing".to_vec());
}

#[test]
fn write_error_ends_only_its_own_flow() {
    let mut relay = Relay::new();

    let action = relay.up_read(ReadEvent::Data(b"lost".to_vec()));
    assert!(matches!(action, CopyAction::Forward(_)));
    relay.up_write_result(false);
    assert_eq!(relay.up.status, CopyStatus::Done(Termination::WriteFailed));

    // The opposite direction still forwards.
    let mut to_client: Vec<u8> = Vec::new();
    push_down(&mut relay, b"reply", &mut to_client);
    assert_eq!(to_client, b"reply".to_vec());
}

#[test]
fn refused_dial_closes_the_client_and_spares_the_relay() {
    let mut forwarder = Forwarder::accept();
    forwarder.on_peer_addr(true);
    let flows = forwarder.on_dial(false);
    assert!(flows.is_none());
    assert_eq!(forwarder.status, ForwarderStatus::Failed(SetupError::DialFailed));
    assert!(!forwarder.client_open);
    assert!(!forwarder.server_open);

    // The acceptor keeps accepting new connections afterwards.
    let mut acceptor = Acceptor::bind(true).expect("bound");
    assert!(acceptor.on_accept(true));
}

#[test]
fn peer_addr_failure_abandons_the_connection() {
    let mut forwarder = Forwarder::accept();
    forwarder.on_peer_addr(false);
    assert_eq!(forwarder.status, ForwarderStatus::Failed(SetupError::PeerAddrFailed));
    assert!(!forwarder.client_open);
    assert!(!forwarder.server_open);
}

#[test]
fn accept_error_does_not_stop_the_loop() {
    let mut acceptor = Acceptor::bind(true).expect("bound");
    assert!(!acceptor.on_accept(false));
    assert!(acceptor.on_accept(true));
    assert!(acceptor.on_accept(true));
}

#[test]
fn failed_bind_yields_no_acceptor() {
    assert!(Acceptor::bind(false).is_none());
    assert!(Acceptor::bind(true).is_some());
}

#[test]
fn two_clients_interleaved_each_get_their_own_bytes() {
    // Two connections, each sending 1 MiB of pseudorandom bytes in 4 KiB
    // chunks, interleaved chunk by chunk; the destination echoes.
    let total: usize = 1024 * 1024;
    let chunk_len: usize = 4096;

    let mut seed_a: u64 = 0x1234_5678;
    let mut seed_b: u64 = 0x9abc_def0;
    let mut next = |seed: &mut u64| -> u8 {
        *seed = seed.wrapping_mul(6364136223846793005).wrapping_add(1442695040888963407);
        (*seed >> 56) as u8
    };

    let mut sent_a: Vec<u8> = Vec::with_capacity(total);
    let mut sent_b: Vec<u8> = Vec::with_capacity(total);
    for _ in 0..total {
        sent_a.push(next(&mut seed_a));
        sent_b.push(next(&mut seed_b));
    }

    let mut relay_a = Relay::new();
    let mut relay_b = Relay::new();
    let mut server_a: Vec<u8> = Vec::new();
    let mut server_b: Vec<u8> = Vec::new();
    let mut client_a: Vec<u8> = Vec::new();
    let mut client_b: Vec<u8> = Vec::new();

    let mut offset: usize = 0;
    while offset < total {
        let end = (offset + chunk_len).min(total);
        push_up(&mut relay_a, &sent_a[offset..end], &mut server_a);
        push_up(&mut relay_b, &sent_b[offset..end], &mut server_b);
        // The echo comes back interleaved with the sends.
        push_down(&mut relay_a, &sent_a[offset..end], &mut client_a);
        push_down(&mut relay_b, &sent_b[offset..end], &mut client_b);
        offset = end;
    }
    relay_a.up_read(ReadEvent::Eof);
    relay_b.up_read(ReadEvent::Eof);
    relay_a.down_read(ReadEvent::Eof);
    relay_b.down_read(ReadEvent::Eof);

    assert_eq!(server_a, sent_a);
    assert_eq!(server_b, sent_b);
    assert_eq!(client_a, sent_a);
    assert_eq!(client_b, sent_b);
    assert_ne!(sent_a, sent_b);
}

#[test]
fn fresh_flows_start_ready() {
    let up = CopyLoop::new(Flow::Up);
    let down = CopyLoop::new(Flow::Down);
    assert_eq!(up.status, CopyStatus::Ready);
    assert_eq!(down.status, CopyStatus::Ready);
    assert_eq!(up.flow, Flow::Up);
    assert_eq!(down.flow, Flow::Down);
}

#[test]
fn trace_tags_ping_as_up_and_the_reply_as_down() {
    let ping = b"ping".to_vec();
    assert_eq!(trace_line(Flow::Up, &ping), "<< ping");
    let reply = b"pong".to_vec();
    assert_eq!(trace_line(Flow::Down, &reply), ">> pong");
}

#[test]
fn trace_replaces_invalid_utf8() {
    let bytes = vec![0xff, b'a', 0xfe];
    assert_eq!(trace_line(Flow::Up, &bytes), "<< \u{fffd}a\u{fffd}");
}
