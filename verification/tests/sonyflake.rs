use sonyflake::{
    decompose, is_private_ipv4, lower_16_bit_private_ip_from, Error, HostInterface, Internals,
    InterfaceAddress, MachineIdCheck, MachineIdProvider, Sonyflake, Timestamp,
};

struct FixedMachineId(u16);

impl MachineIdProvider for FixedMachineId {
    fn provide(&self) -> Result<u16, String> {
        Ok(self.0)
    }
}

struct FailingMachineId;

impl MachineIdProvider for FailingMachineId {
    fn provide(&self) -> Result<u16, String> {
        Err("some error".to_string())
    }
}

struct RejectAll;

impl MachineIdCheck for RejectAll {
    fn check(&self, _machine_id: u16) -> bool {
        false
    }
}

fn now() -> Timestamp {
    Timestamp {
        nanos: time::OffsetDateTime::now_utc().unix_timestamp_nanos() as i64,
    }
}

fn next_id_with_retry(sf: &Sonyflake) -> Result<u64, Error> {
    loop {
        match sf.next_id(now()) {
            Ok(id) => return Ok(id),
            Err(Error::OverSequenceLimit) => continue,
            Err(e) => return Err(e),
        }
    }
}

#[test]
fn test_generate_10_ids() {
    let provider = FixedMachineId(42);
    let sf = Sonyflake::builder()
        .machine_id(&provider)
        .finalize()
        .expect("finalize failed");
    let mut ids = vec![];
    for _ in 0..10 {
        let id = next_id_with_retry(&sf).expect("next_id failed");
        if ids.iter().any(|vec_id| *vec_id == id) {
            panic!("duplicated id: {}", id)
        }
        ids.push(id);
    }
}

#[test]
fn test_builder_errors() {
    let start_time = Timestamp {
        nanos: now().nanos + 1_000_000_000,
    };
    match Sonyflake::builder().start_time(start_time).finalize() {
        Err(Error::StartTimeAheadOfCurrentTime(t)) => assert_eq!(t, start_time),
        _ => panic!("Expected error on start time ahead of current time"),
    };

    let failing = FailingMachineId;
    match Sonyflake::builder().machine_id(&failing).finalize() {
        Err(Error::MachineIdFailed(message)) => assert_eq!(message, "some error"),
        _ => panic!("Expected error failing machine_id source"),
    };

    let provider = FixedMachineId(3);
    let reject = RejectAll;
    match Sonyflake::builder()
        .machine_id(&provider)
        .check_machine_id(&reject)
        .finalize()
    {
        Err(Error::CheckMachineIdFailed) => {}
        _ => panic!("Expected error on check_machine_id returning false"),
    }
}

#[test]
fn test_over_time_limit() {
    let provider = FixedMachineId(1);
    let sf = Sonyflake::builder()
        .machine_id(&provider)
        .finalize()
        .expect("finalize failed");
    sf.set_elapsed_time(1 << 39);
    assert_eq!(sf.next_id(now()), Err(Error::OverTimeLimit));
}

#[test]
fn test_decompose_round_trip() {
    let id: u64 = (5 << 25) | (300 << 16) | 42;
    let parts = decompose(id);
    assert_eq!(parts.id, id);
    assert_eq!(parts.time, 5);
    assert_eq!(parts.sequence, 300);
    assert_eq!(parts.machine_id, 42);
    assert_eq!(parts.nanos_time(), 50_000_000);

    let all_ones = u64::MAX;
    let parts = decompose(all_ones);
    assert_eq!(parts.time, (1 << 39) - 1);
    assert_eq!(parts.sequence, 511);
    assert_eq!(parts.machine_id, 65535);
    assert_eq!(
        (parts.time << 25) | (parts.sequence << 16) | parts.machine_id,
        all_ones
    );
}

#[test]
fn test_advance_sequence_exhaustion() {
    // A fresh generator starts at sequence 256; with the clock held at the
    // start tick, the 9-bit counter leaves 255 ids before it would wrap.
    let mut state = Internals {
        elapsed_time: 0,
        sequence: 256,
    };
    let mut last_id: u64 = 0;
    for call in 0..255 {
        let (next, res) = state.advance(0, 7);
        let id = res.expect("advance should succeed before the wrap");
        assert_eq!(next.elapsed_time, 0);
        assert_eq!(next.sequence, 257 + call as u16);
        assert_eq!(id, ((257 + call as u64) << 16) | 7);
        assert!(id > last_id);
        last_id = id;
        state = next;
    }
    // The next call within the same tick wraps the counter and fails,
    // leaving the counters untouched.
    let (next, res) = state.advance(0, 7);
    assert_eq!(res, Err(Error::OverSequenceLimit));
    assert_eq!(next, Internals { elapsed_time: 0, sequence: 511 });
    // Once the clock reaches the next tick, generation resumes at sequence 0.
    let (next, res) = next.advance(1, 7);
    assert_eq!(res, Ok((1 << 25) | 7));
    assert_eq!(next, Internals { elapsed_time: 1, sequence: 0 });
}

#[test]
fn test_advance_time_limit() {
    let state = Internals {
        elapsed_time: 1 << 39,
        sequence: 256,
    };
    let (next, res) = state.advance(5, 9);
    assert_eq!(res, Err(Error::OverTimeLimit));
    assert_eq!(next.sequence, 257);
    // Advancing to the boundary tick itself is already over the limit.
    let state = Internals {
        elapsed_time: 10,
        sequence: 0,
    };
    let (_, res) = state.advance(1 << 39, 9);
    assert_eq!(res, Err(Error::OverTimeLimit));
    // One tick under the boundary still mints an id.
    let (_, res) = state.advance((1 << 39) - 1, 9);
    assert_eq!(res, Ok((((1u64 << 39) - 1) << 25) | 9));
}

#[test]
fn test_machine_id_embedding() {
    let provider = FixedMachineId(42);
    let sf = Sonyflake::builder()
        .machine_id(&provider)
        .finalize()
        .expect("finalize failed");
    for _ in 0..50 {
        let id = next_id_with_retry(&sf).expect("next_id failed");
        assert_eq!(decompose(id).machine_id, 42);
    }
}

#[test]
fn test_sequential_ids_increase() {
    let provider = FixedMachineId(9);
    let sf = Sonyflake::builder()
        .machine_id(&provider)
        .finalize()
        .expect("finalize failed");
    let mut last_id: u64 = 0;
    for _ in 0..1000 {
        let id = next_id_with_retry(&sf).expect("next_id failed");
        if id <= last_id {
            panic!("duplicated id (id: {}, last_id: {})", id, last_id);
        }
        last_id = id;
    }
}

#[test]
fn test_ids_do_not_run_ahead_of_clock() {
    let start = now();
    let start_ticks = sonyflake::to_sonyflake_time(start);
    let provider = FixedMachineId(5);
    let sf = Sonyflake::builder()
        .start_time(start)
        .machine_id(&provider)
        .finalize()
        .expect("finalize failed");
    for _ in 0..500 {
        let id = next_id_with_retry(&sf).expect("next_id failed");
        let parts = decompose(id);
        let current = sonyflake::to_sonyflake_time(now());
        let overtime = start_ticks + parts.time as i64 - current;
        if overtime > 0 {
            panic!("unexpected overtime: {}", overtime);
        }
        assert_eq!(parts.machine_id, 5);
    }
}

#[test]
fn test_finalize_at() {
    let now_ts = Timestamp {
        nanos: 1_000_000_000_000,
    };
    let provider = FixedMachineId(4);

    let ahead = Timestamp {
        nanos: now_ts.nanos + 1,
    };
    match Sonyflake::builder()
        .start_time(ahead)
        .machine_id(&provider)
        .finalize_at(now_ts)
    {
        Err(Error::StartTimeAheadOfCurrentTime(t)) => assert_eq!(t, ahead),
        _ => panic!("Expected rejection of a start time ahead of the given clock"),
    }

    // A start time equal to the clock reading is accepted.
    let sf = Sonyflake::builder()
        .start_time(now_ts)
        .machine_id(&provider)
        .finalize_at(now_ts)
        .expect("finalize_at failed on a start time equal to the clock");
    assert_eq!(sf.min_sonyflake_for_time(now_ts), 0);
}

#[test]
fn test_clone_shares_state() {
    let provider = FixedMachineId(11);
    let sf = Sonyflake::builder()
        .machine_id(&provider)
        .finalize()
        .expect("finalize failed");
    let sf2 = sf.clone();
    let id1 = next_id_with_retry(&sf).expect("next_id failed");
    let id2 = next_id_with_retry(&sf2).expect("next_id failed");
    let id3 = next_id_with_retry(&sf).expect("next_id failed");
    assert!(id1 < id2 && id2 < id3);
    assert_eq!(decompose(id2).machine_id, 11);
}

#[test]
fn test_min_sonyflake_for_time() {
    let start = Timestamp {
        nanos: 1_000_000_000_000,
    };
    let provider = FixedMachineId(2);
    let sf = Sonyflake::builder()
        .start_time(start)
        .machine_id(&provider)
        .finalize()
        .expect("finalize failed");
    assert_eq!(sf.min_sonyflake_for_time(start), 0);
    let later = Timestamp {
        nanos: start.nanos + 30 * 10_000_000,
    };
    assert_eq!(sf.min_sonyflake_for_time(later), 30 << 25);
}

#[test]
fn test_to_sonyflake_time() {
    assert_eq!(sonyflake::to_sonyflake_time(Timestamp { nanos: 0 }), 0);
    assert_eq!(
        sonyflake::to_sonyflake_time(Timestamp { nanos: 25_000_000 }),
        2
    );
    assert_eq!(
        sonyflake::to_sonyflake_time(Timestamp { nanos: -25_000_000 }),
        -2
    );
    assert_eq!(
        sonyflake::to_sonyflake_time(Timestamp { nanos: -5_000_000 }),
        0
    );
    assert_eq!(
        sonyflake::to_sonyflake_time(Timestamp { nanos: i64::MAX }),
        922_337_203_685
    );
    assert_eq!(
        sonyflake::to_sonyflake_time(Timestamp { nanos: i64::MIN }),
        -922_337_203_685
    );
}

#[test]
fn test_is_private_ipv4() {
    assert!(is_private_ipv4(InterfaceAddress::V4(10, 0, 0, 1)));
    assert!(is_private_ipv4(InterfaceAddress::V4(172, 16, 0, 1)));
    assert!(is_private_ipv4(InterfaceAddress::V4(172, 31, 255, 255)));
    assert!(is_private_ipv4(InterfaceAddress::V4(192, 168, 4, 4)));
    assert!(!is_private_ipv4(InterfaceAddress::V4(11, 0, 0, 1)));
    assert!(!is_private_ipv4(InterfaceAddress::V4(172, 15, 0, 1)));
    assert!(!is_private_ipv4(InterfaceAddress::V4(172, 32, 0, 1)));
    assert!(!is_private_ipv4(InterfaceAddress::V4(192, 167, 0, 1)));
    assert!(!is_private_ipv4(InterfaceAddress::V4(192, 0, 2, 2)));
    assert!(!is_private_ipv4(InterfaceAddress::V6));
}

#[test]
fn test_lower_16_from_interfaces() {
    // The first private IPv4 address of the first up, non-loopback
    // interface that has one wins; loopback, down and non-private
    // addresses are passed over.
    let interfaces = vec![
        HostInterface {
            up: true,
            loopback: true,
            addresses: vec![InterfaceAddress::V4(10, 0, 0, 1)],
        },
        HostInterface {
            up: false,
            loopback: false,
            addresses: vec![InterfaceAddress::V4(10, 9, 9, 9)],
        },
        HostInterface {
            up: true,
            loopback: false,
            addresses: vec![InterfaceAddress::V6, InterfaceAddress::V4(192, 0, 2, 5)],
        },
        HostInterface {
            up: true,
            loopback: false,
            addresses: vec![
                InterfaceAddress::V4(8, 8, 8, 8),
                InterfaceAddress::V4(10, 1, 2, 3),
                InterfaceAddress::V4(192, 168, 0, 200),
            ],
        },
    ];
    assert_eq!(lower_16_bit_private_ip_from(&interfaces), Ok(2 * 256 + 3));

    let none = vec![HostInterface {
        up: true,
        loopback: false,
        addresses: vec![InterfaceAddress::V4(192, 0, 2, 9), InterfaceAddress::V6],
    }];
    assert_eq!(
        lower_16_bit_private_ip_from(&none),
        Err(Error::NoPrivateIPv4)
    );
    assert_eq!(
        lower_16_bit_private_ip_from(&vec![]),
        Err(Error::NoPrivateIPv4)
    );
}
