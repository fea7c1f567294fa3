use hal_mock::{
    bytes_eq, exec_eq, trans_eq, Mock, MockExec, MockTransaction, PinState, Transaction,
};

#[test]
fn empty_run_verifies() {
    let m = Mock::new();
    assert!(m.finalise());
}

#[test]
fn shorter_run_fails() {
    let mut m = Mock::new();
    let p = m.pin();

    m.expect(vec![
        MockTransaction::set_high(&p),
        MockTransaction::set_low(&p),
    ]);

    p.set_high(&mut m).unwrap();

    assert!(!m.finalise());
}

#[test]
fn longer_run_fails() {
    let mut m = Mock::new();
    let p = m.pin();

    m.expect(vec![MockTransaction::set_high(&p)]);

    p.set_high(&mut m).unwrap();
    p.set_low(&mut m).unwrap();

    assert!(!m.finalise());
}

#[test]
fn set_high_then_set_low_verifies() {
    let mut m = Mock::new();
    let p = m.pin();

    m.expect(vec![
        MockTransaction::set_high(&p),
        MockTransaction::set_low(&p),
    ]);

    p.set_high(&mut m).unwrap();
    p.set_low(&mut m).unwrap();

    assert!(m.finalise());
}

#[test]
fn pin_identity_isolation_returns_default() {
    let mut m = Mock::new();
    let p1 = m.pin();
    let p2 = m.pin();

    m.expect(vec![MockTransaction::is_high(&p1, true)]);

    // p2 must not consume p1's expectation: the call succeeds with the
    // default level, is recorded under p2's identity, and surfaces at verify.
    assert_eq!(false, p2.is_high(&mut m).unwrap());
    assert!(!m.finalise());
}

#[test]
fn busy_ready_reset_round() {
    let mut m = Mock::new();
    let s = m.spi();

    m.expect(vec![
        MockTransaction::busy(&s, PinState::High),
        MockTransaction::ready(&s, PinState::Low),
        MockTransaction::reset(&s, PinState::High),
    ]);

    assert_eq!(PinState::High, s.get_busy(&mut m).unwrap());
    assert_eq!(PinState::Low, s.get_ready(&mut m).unwrap());
    s.set_reset(&mut m, PinState::High).unwrap();

    assert!(m.finalise());
}

#[test]
fn busy_defaults_low_without_expectation() {
    let mut m = Mock::new();
    let s = m.spi();

    assert_eq!(PinState::Low, s.get_busy(&mut m).unwrap());
    // the call was still recorded against an empty expectation list
    assert!(!m.finalise());
}

#[test]
fn delay_is_recorded_not_slept() {
    let mut m = Mock::new();
    let s = m.spi();
    let d = m.delay();

    m.expect(vec![
        MockTransaction::delay_ms(100),
        MockTransaction::delay_ms(7),
    ]);

    s.delay_ms(&mut m, 100);
    d.delay_ms(&mut m, 7);

    assert!(m.finalise());
}

#[test]
fn delay_value_mismatch_fails() {
    let mut m = Mock::new();
    let d = m.delay();

    m.expect(vec![MockTransaction::delay_ms(100)]);

    d.delay_ms(&mut m, 99);

    assert!(!m.finalise());
}

#[test]
fn exec_advances_cursor_once() {
    let mut m = Mock::new();
    let s = m.spi();

    // first handle minted by a fresh controller has identity 0
    m.expect(vec![
        MockTransaction::SpiExec(0, vec![MockExec::SpiWrite(vec![0x09])]),
        MockTransaction::delay_ms(5),
    ]);

    let mut ts = vec![Transaction::Write(vec![0x09])];
    s.spi_exec(&mut m, &mut ts).expect("exec failure");
    s.delay_ms(&mut m, 5);

    assert!(m.finalise());
}

#[test]
fn exec_fills_read_sub_requests() {
    let mut m = Mock::new();
    let s = m.spi();

    m.expect(vec![MockTransaction::SpiExec(
        0,
        vec![MockExec::SpiRead(vec![0xAA, 0xBB])],
    )]);

    let mut ts = vec![Transaction::Read(vec![0x00, 0x00])];
    s.spi_exec(&mut m, &mut ts).expect("exec failure");

    match &ts[0] {
        Transaction::Read(buf) => assert_eq!(&vec![0xAA, 0xBB], buf),
        Transaction::Write(_) => panic!("sub-request kind changed"),
    }
    // the composite call is recorded with the sub-requests as presented,
    // so the pre-fill read buffer is what stands against the expectation
    assert!(!m.finalise());
}

#[test]
fn exec_read_length_mismatch_leaves_buffer() {
    let mut m = Mock::new();
    let s = m.spi();

    m.expect(vec![MockTransaction::SpiExec(
        0,
        vec![MockExec::SpiRead(vec![0xAA, 0xBB, 0xCC])],
    )]);

    let mut ts = vec![Transaction::Read(vec![0x00, 0x00])];
    s.spi_exec(&mut m, &mut ts).expect("exec failure");

    match &ts[0] {
        Transaction::Read(buf) => assert_eq!(&vec![0x00, 0x00], buf),
        Transaction::Write(_) => panic!("sub-request kind changed"),
    }
}

#[test]
fn transfer_length_mismatch_leaves_buffer() {
    let mut m = Mock::new();
    let s = m.spi();

    let outgoing = vec![0xAA, 0xBB];
    let incoming = vec![0xCC, 0xDD, 0xEE];

    m.expect(vec![MockTransaction::transfer(&s, &outgoing, &incoming)]);

    let mut d = outgoing.clone();
    s.transfer(&mut m, &mut d).expect("read failure");

    assert_eq!(&outgoing, &d);
    assert!(!m.finalise());
}

#[test]
fn read_length_mismatch_leaves_buffer() {
    let mut m = Mock::new();
    let s = m.spi();

    let prefix = vec![0xFF];
    let data = vec![0xAA, 0xBB, 0xCC];

    m.expect(vec![MockTransaction::spi_read(&s, &prefix, &data)]);

    let mut d = vec![0u8, 0u8];
    s.spi_read(&mut m, &prefix, &mut d).expect("read failure");

    assert_eq!(&vec![0u8, 0u8], &d);
    assert!(!m.finalise());
}

#[test]
fn spi_read_identity_isolation() {
    let mut m = Mock::new();
    let s1 = m.spi();
    let s2 = m.spi();

    let prefix = vec![0xFF];
    let data = vec![0xAA, 0xBB];

    m.expect(vec![MockTransaction::spi_read(&s1, &prefix, &data)]);

    let mut d = vec![0u8, 0u8];
    s2.spi_read(&mut m, &prefix, &mut d).expect("read failure");

    assert_eq!(&vec![0u8, 0u8], &d);
    assert!(!m.finalise());
}

#[test]
fn payload_mismatch_fails() {
    let mut m = Mock::new();
    let s = m.spi();

    m.expect(vec![MockTransaction::write(&s, &vec![0x01, 0x02])]);

    s.write(&mut m, &vec![0x01, 0x03]).expect("write failure");

    assert!(!m.finalise());
}

#[test]
fn expect_resets_cursor_and_record() {
    let mut m = Mock::new();
    let p = m.pin();

    m.expect(vec![MockTransaction::set_high(&p)]);
    p.set_low(&mut m).unwrap();
    assert!(!m.finalise());

    // a fresh load clears the record and restarts matching at the front
    m.expect(vec![MockTransaction::set_high(&p)]);
    p.set_high(&mut m).unwrap();
    assert!(m.finalise());
}

#[test]
fn exec_sub_request_copies() {
    let read = Transaction::Read(vec![0x01, 0x02]);
    let write = Transaction::Write(vec![0x03]);

    assert!(exec_eq(
        &MockExec::from(&read),
        &MockExec::SpiRead(vec![0x01, 0x02])
    ));
    assert!(exec_eq(
        &MockExec::from(&write),
        &MockExec::SpiWrite(vec![0x03])
    ));
    assert!(!exec_eq(
        &MockExec::from(&read),
        &MockExec::SpiWrite(vec![0x01, 0x02])
    ));
}

#[test]
fn structural_equality_helpers() {
    assert!(bytes_eq(&vec![1, 2, 3], &vec![1, 2, 3]));
    assert!(!bytes_eq(&vec![1, 2, 3], &vec![1, 2, 4]));
    assert!(!bytes_eq(&vec![1, 2], &vec![1, 2, 3]));

    let mut c = Mock::new();
    let p = c.pin();
    assert!(trans_eq(
        &MockTransaction::is_high(&p, true),
        &MockTransaction::IsHigh(0, true),
    ));
    assert!(!trans_eq(
        &MockTransaction::is_high(&p, true),
        &MockTransaction::IsLow(0, true),
    ));
    assert!(!trans_eq(
        &MockTransaction::is_high(&p, true),
        &MockTransaction::IsHigh(1, true),
    ));
}

#[test]
fn exec_matching_presented_passes() {
    let mut m = Mock::new();
    let s = m.spi();

    // the composite expectation lists the sub-requests as the caller will
    // present them, pre-fill buffer contents included
    m.expect(vec![MockTransaction::SpiExec(
        0,
        vec![
            MockExec::SpiWrite(vec![0x01]),
            MockExec::SpiRead(vec![0x00, 0x00]),
        ],
    )]);

    let mut ts = vec![
        Transaction::Write(vec![0x01]),
        Transaction::Read(vec![0x00, 0x00]),
    ];
    s.spi_exec(&mut m, &mut ts).expect("exec failure");

    // the canned read bytes equal the presented ones here, so the buffer is
    // unchanged and the recorded composite matches the expectation
    match &ts[1] {
        Transaction::Read(buf) => assert_eq!(&vec![0x00, 0x00], buf),
        Transaction::Write(_) => panic!("sub-request kind changed"),
    }
    assert!(m.finalise());
}
