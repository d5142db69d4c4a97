use firmware::i2c;
use firmware::i2c::{Action, BusError, Event, Flag, Step, POLL_LIMIT};
use firmware::mma8652fc::MMA8652FC;
use firmware::sim::{transfer, Signal, SimBus};

fn steps_of(t: &firmware::i2c::Transaction) -> Vec<Step> {
    match t.action() {
        Action::Perform(s) => vec![s],
        _ => vec![],
    }
}

/// Walks a transaction as an ideal controller would, collecting its steps.
fn program(mut t: firmware::i2c::Transaction, byte: u8) -> Vec<Step> {
    let mut out = Vec::new();
    loop {
        match t.action() {
            Action::Perform(step) => {
                out.push(step);
                let ev = match step {
                    Step::WaitSet(_) => Event::Flag(true),
                    Step::WaitClear(_) => Event::Flag(false),
                    Step::Receive => Event::Byte(byte),
                    _ => Event::Done,
                };
                t.advance(ev);
            }
            Action::Complete => return out,
            Action::Fail(e) => panic!("unexpected failure {:?}", e),
        }
    }
}

#[test]
fn write_program_order() {
    let t = i2c::write(0x1D, 0x2A, 0x19).unwrap();
    assert_eq!(steps_of(&t), vec![Step::WaitClear(Flag::Busy)]);
    let p = program(t, 0);
    assert_eq!(
        p,
        vec![
            Step::WaitClear(Flag::Busy),
            Step::Start,
            Step::WaitSet(Flag::StartSent),
            Step::Send(0x3A),
            Step::WaitSet(Flag::AddressMatched),
            Step::WaitSet(Flag::Transmitter),
            Step::WaitSet(Flag::TxEmpty),
            Step::Send(0x2A),
            Step::WaitSet(Flag::ByteFinished),
            Step::Send(0x19),
            Step::WaitSet(Flag::ByteFinished),
            Step::Stop,
            Step::WaitClear(Flag::Busy),
        ]
    );
}

#[test]
fn read_program_one_byte() {
    let p = program(i2c::read(0x1D, 0x01, 1).unwrap(), 7);
    assert_eq!(p[13], Step::WaitSet(Flag::AddressMatched));
    assert_eq!(p[12], Step::Send(0x3B));
    assert_eq!(
        p[14..].to_vec(),
        vec![
            Step::AckOff,
            Step::ClearAddress,
            Step::Stop,
            Step::WaitSet(Flag::RxNotEmpty),
            Step::Receive,
        ]
    );
}

#[test]
fn read_program_two_bytes() {
    let p = program(i2c::read(0x1D, 0x01, 2).unwrap(), 7);
    assert_eq!(
        p[14..].to_vec(),
        vec![
            Step::PosOn,
            Step::ClearAddress,
            Step::AckOff,
            Step::WaitSet(Flag::ByteFinished),
            Step::Stop,
            Step::Receive,
            Step::Receive,
        ]
    );
}

#[test]
fn read_program_six_bytes() {
    let p = program(i2c::read(0x1D, 0x01, 6).unwrap(), 7);
    assert_eq!(p.len(), 14 + 1 + 6 + 8);
    assert_eq!(p[14], Step::ClearAddress);
    for k in 0..3 {
        assert_eq!(p[15 + 2 * k], Step::WaitSet(Flag::ByteFinished));
        assert_eq!(p[16 + 2 * k], Step::Receive);
    }
    assert_eq!(
        p[21..].to_vec(),
        vec![
            Step::WaitSet(Flag::ByteFinished),
            Step::AckOff,
            Step::Receive,
            Step::Stop,
            Step::Receive,
            Step::WaitClear(Flag::Busy),
            Step::WaitSet(Flag::RxNotEmpty),
            Step::Receive,
        ]
    );
}

#[test]
fn read_of_zero_bytes_is_rejected() {
    assert!(matches!(i2c::read(0x1D, 0x01, 0), Err(BusError::EmptyRead)));
}

#[test]
fn eight_bit_address_is_rejected() {
    assert!(matches!(i2c::read(0x80, 0x01, 1), Err(BusError::InvalidAddress)));
    assert!(matches!(i2c::write(0xFF, 0x01, 1), Err(BusError::InvalidAddress)));
    assert!(i2c::write(0x7F, 0x01, 1).is_ok());
}

#[test]
fn busy_bus_times_out() {
    let mut t = i2c::write(0x3C, 0x80, 0xAF).unwrap().with_poll_limit(3);
    for _ in 0..2 {
        t.advance(Event::Flag(true));
        assert_eq!(t.action(), Action::Perform(Step::WaitClear(Flag::Busy)));
    }
    t.advance(Event::Flag(true));
    assert_eq!(t.action(), Action::Fail(BusError::BusBusyTimeout));
}

#[test]
fn missing_start_times_out() {
    let mut t = i2c::write(0x3C, 0x80, 0xAF).unwrap().with_poll_limit(2);
    t.advance(Event::Flag(false));
    t.advance(Event::Done);
    assert_eq!(t.action(), Action::Perform(Step::WaitSet(Flag::StartSent)));
    t.advance(Event::Flag(false));
    t.advance(Event::Flag(false));
    assert_eq!(t.action(), Action::Fail(BusError::TransferTimeout));
}

#[test]
fn report_of_wrong_kind_changes_nothing() {
    let mut t = i2c::write(0x3C, 0x80, 0xAF).unwrap();
    t.advance(Event::Done);
    t.advance(Event::Byte(3));
    assert_eq!(t.action(), Action::Perform(Step::WaitClear(Flag::Busy)));
}

#[test]
fn poll_limit_default() {
    let mut t = i2c::write(0x3C, 0x80, 0xAF).unwrap();
    for _ in 0..POLL_LIMIT - 1 {
        t.advance(Event::Flag(true));
    }
    assert_eq!(t.action(), Action::Perform(Step::WaitClear(Flag::Busy)));
    t.advance(Event::Flag(true));
    assert_eq!(t.action(), Action::Fail(BusError::BusBusyTimeout));
}

#[test]
fn absent_slave_is_not_acknowledged() {
    let mut sim = SimBus::new(0x1D);
    let t = i2c::write(0x1C, 0x2A, 0x19).unwrap().with_poll_limit(5);
    assert!(matches!(transfer(&mut sim, t), Err(BusError::NoAcknowledge)));
    assert_eq!(sim.register(0x2A), 0);
    // the abandoned transfer still holds the bus
    let t = i2c::read(0x1D, 0x01, 6).unwrap().with_poll_limit(5);
    assert!(matches!(transfer(&mut sim, t), Err(BusError::BusBusyTimeout)));
    let mut sim = SimBus::new(0x1D);
    let t = i2c::read(0x1E, 0x01, 6).unwrap().with_poll_limit(5);
    assert!(matches!(transfer(&mut sim, t), Err(BusError::NoAcknowledge)));
}

#[test]
fn write_then_read_back_every_register() {
    for slave in [0x00u8, 0x1D, 0x3C, 0x7F] {
        let mut sim = SimBus::new(slave);
        for register in 0..=255u8 {
            let value = register.wrapping_mul(7).wrapping_add(slave);
            transfer(&mut sim, i2c::write(slave, register, value).unwrap()).unwrap();
            let got = transfer(&mut sim, i2c::read(slave, register, 1).unwrap()).unwrap();
            assert_eq!(got, vec![value]);
        }
    }
}

fn stops(log: &[Signal]) -> usize {
    log.iter().filter(|s| **s == Signal::Stop).count()
}

#[test]
fn reads_come_in_order_with_one_stop() {
    let mut sim = SimBus::new(0x1D);
    for r in 0..=255u8 {
        sim.set_register(r, r ^ 0x5A);
    }
    for length in [1usize, 2, 6] {
        let before = sim.log().len();
        let got = transfer(&mut sim, i2c::read(0x1D, 0x10, length).unwrap()).unwrap();
        let want: Vec<u8> = (0..length as u8).map(|j| (0x10 + j) ^ 0x5A).collect();
        assert_eq!(got, want);
        let added = &sim.log()[before..];
        assert_eq!(stops(added), 1);
        let sent: Vec<u8> = added
            .iter()
            .filter_map(|s| match s {
                Signal::Read(b) => Some(*b),
                _ => None,
            })
            .collect();
        assert_eq!(sent, want);
    }
}

#[test]
fn read_wraps_after_last_register() {
    let mut sim = SimBus::new(0x1D);
    sim.set_register(0xFF, 0xAA);
    sim.set_register(0x00, 0xBB);
    sim.set_register(0x01, 0xCC);
    let got = transfer(&mut sim, i2c::read(0x1D, 0xFF, 3).unwrap()).unwrap();
    assert_eq!(got, vec![0xAA, 0xBB, 0xCC]);
}

#[test]
fn write_puts_one_start_and_one_stop() {
    let mut sim = SimBus::new(0x1D);
    transfer(&mut sim, i2c::write(0x1D, 0x2A, 0x19).unwrap()).unwrap();
    assert_eq!(
        sim.log().clone(),
        vec![
            Signal::Start,
            Signal::Address(0x3A),
            Signal::Written(0x2A),
            Signal::Written(0x19),
            Signal::Stop,
        ]
    );
    assert_eq!(sim.register(0x2A), 0x19);
}

#[test]
fn repeated_reads_agree() {
    let mut sim = SimBus::new(0x3C);
    for r in 0..8u8 {
        sim.set_register(r, 0xF0 | r);
    }
    let first = transfer(&mut sim, i2c::read(0x3C, 0x02, 5).unwrap()).unwrap();
    let second = transfer(&mut sim, i2c::read(0x3C, 0x02, 5).unwrap()).unwrap();
    let third = transfer(&mut sim, i2c::read(0x3C, 0x02, 5).unwrap()).unwrap();
    assert_eq!(first, vec![0xF2, 0xF3, 0xF4, 0xF5, 0xF6]);
    assert_eq!(first, second);
    assert_eq!(second, third);
}

#[test]
fn accelerometer_scenario() {
    let mut sim = SimBus::new(0x1D);
    // X = 0x1234, Y = -2, Z = -32768, as the sensor holds them
    for (r, v) in [(0x01u8, 0x12u8), (0x02, 0x34), (0x03, 0xFF), (0x04, 0xFE), (0x05, 0x80), (0x06, 0x00)] {
        sim.set_register(r, v);
    }
    transfer(&mut sim, i2c::write(0x1D, 0x2A, 0x19).unwrap()).unwrap();
    assert_eq!(sim.register(0x2A), 0x19);
    let got = transfer(&mut sim, i2c::read(0x1D, 0x01, 6).unwrap()).unwrap();
    assert_eq!(got, vec![0x12, 0x34, 0xFF, 0xFE, 0x80, 0x00]);
    let bytes: [u8; 6] = [got[0], got[1], got[2], got[3], got[4], got[5]];
    let a = MMA8652FC.accel(&bytes);
    assert_eq!(a.x, 0x1234);
    assert_eq!(a.y, -2);
    assert_eq!(a.z, -32768);
}

#[test]
fn bytes_collects_as_it_goes() {
    let mut t = i2c::read(0x1D, 0x01, 1).unwrap();
    for _ in 0..18 {
        match t.action() {
            Action::Perform(Step::WaitSet(_)) => t.advance(Event::Flag(true)),
            Action::Perform(Step::WaitClear(_)) => t.advance(Event::Flag(false)),
            Action::Perform(_) => t.advance(Event::Done),
            _ => panic!("ended early"),
        }
    }
    assert!(t.bytes().is_empty());
    assert_eq!(t.action(), Action::Perform(Step::Receive));
    t.advance(Event::Byte(0x42));
    assert_eq!(t.action(), Action::Complete);
    assert_eq!(t.into_bytes(), vec![0x42]);
}
