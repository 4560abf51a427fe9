use firefly_hal::errors::NetworkError;
use firefly_hal::ring::ConnRing;
use firefly_hal::workers::{
    advertise_targets, forwardable, hello_message, make_out_message, tcp_ports, udp_ports,
    udp_step, TakeOnce, UdpAction, UdpEvents,
};

#[test]
fn port_ranges_are_fixed_and_ordered() {
    assert_eq!(udp_ports(), (3110..=3117).collect::<Vec<u16>>());
    assert_eq!(tcp_ports(), (3210..=3217).collect::<Vec<u16>>());
}

#[test]
fn hello_is_the_advertisement_payload() {
    assert_eq!(hello_message(), b"HELLO".to_vec());
}

#[test]
fn advertisement_goes_to_every_peer_and_port() {
    let peers: [u32; 2] = [77, 88];
    let ports = vec![1u16, 2, 3];
    let targets = advertise_targets(&peers, &ports);
    assert_eq!(
        targets,
        vec![(77, 1), (77, 2), (77, 3), (88, 1), (88, 2), (88, 3)]
    );
}

#[test]
fn take_once_hands_out_exactly_once() {
    let mut cell = TakeOnce::new(42u64);
    assert_eq!(cell.take(), Ok(42));
    assert_eq!(cell.take(), Err(NetworkError::AlreadyInitialized));
    assert_eq!(cell.take(), Err(NetworkError::AlreadyInitialized));
}

#[test]
fn ring_fifo_evicts_the_connection_pushed_four_earlier() {
    let mut ring: ConnRing<&str> = ConnRing::new();
    assert_eq!(ring.push("one"), None);
    assert_eq!(ring.push("two"), None);
    assert_eq!(ring.push("three"), None);
    assert_eq!(ring.push("four"), None);
    // The fifth push evicts exactly the first connection.
    assert_eq!(ring.push("five"), Some("one"));
    assert_eq!(ring.push("six"), Some("two"));
}

#[test]
fn ring_swap_slot_borrows_one_connection() {
    let mut ring: ConnRing<u32> = ConnRing::new();
    ring.push(5);
    let taken = ring.swap_slot(0, None);
    assert_eq!(taken, Some(5));
    assert_eq!(ring.swap_slot(0, Some(6)), None);
    // The next pushes still overwrite in FIFO slot order.
    ring.push(7);
    ring.push(8);
    ring.push(9);
    assert_eq!(ring.push(10), Some(6));
}

#[test]
fn udp_step_exits_on_stop() {
    let ev: UdpEvents<u32> = UdpEvents {
        stop: true,
        datagram: Some((1, vec![1])),
        outgoing: Some((2, vec![2])),
        outgoing_is_local: false,
    };
    assert!(matches!(udp_step(ev), UdpAction::Exit));
}

#[test]
fn udp_step_drops_empty_datagrams() {
    let ev: UdpEvents<u32> = UdpEvents {
        stop: false,
        datagram: Some((1, vec![])),
        outgoing: None,
        outgoing_is_local: false,
    };
    match udp_step(ev) {
        UdpAction::Run { forward, transmit } => {
            assert_eq!(forward, None);
            assert_eq!(transmit, None);
        }
        UdpAction::Exit => panic!("worker must keep running without a stop signal"),
    }
}

#[test]
fn udp_step_never_echoes_to_itself() {
    let ev: UdpEvents<u32> = UdpEvents {
        stop: false,
        datagram: Some((1, vec![9, 9])),
        outgoing: Some((7, vec![3])),
        outgoing_is_local: true,
    };
    match udp_step(ev) {
        UdpAction::Run { forward, transmit } => {
            assert_eq!(forward, Some((1, vec![9, 9])));
            assert_eq!(transmit, None);
        }
        UdpAction::Exit => panic!("worker must keep running without a stop signal"),
    }
}

#[test]
fn udp_step_transmits_to_other_peers() {
    let ev: UdpEvents<u32> = UdpEvents {
        stop: false,
        datagram: None,
        outgoing: Some((7, vec![3])),
        outgoing_is_local: false,
    };
    match udp_step(ev) {
        UdpAction::Run { forward, transmit } => {
            assert_eq!(forward, None);
            assert_eq!(transmit, Some((7, vec![3])));
        }
        UdpAction::Exit => panic!("worker must keep running without a stop signal"),
    }
}

#[test]
fn zero_byte_reads_are_not_forwarded() {
    assert_eq!(forwardable(vec![]), None);
    assert_eq!(forwardable(vec![1, 2]), Some(vec![1, 2]));
}

#[test]
fn outgoing_messages_respect_the_capacity() {
    let ok = make_out_message(&[7u8; 64]).unwrap();
    assert_eq!(ok, vec![7u8; 64]);
    assert_eq!(
        make_out_message(&[7u8; 65]),
        Err(NetworkError::OutMessageTooBig)
    );
    // The workers' capacity matches what a heapless message buffer of
    // the same bound accepts.
    assert!(heapless::Vec::<u8, 64>::from_slice(&[7u8; 64]).is_ok());
    assert!(heapless::Vec::<u8, 64>::from_slice(&[7u8; 65]).is_err());
}

#[test]
fn error_kind_names_are_stable() {
    assert_eq!(
        NetworkError::OutMessageTooBig.kind_name(),
        "outgoing message is too big"
    );
    assert_eq!(
        NetworkError::Error("received zero-sized message").kind_name(),
        "received zero-sized message"
    );
    assert_eq!(firefly_hal::errors::FSError::NotFound.kind_name(), "not found");
    assert_eq!(firefly_hal::errors::FSError::DiskFull.kind_name(), "disk full");
}
