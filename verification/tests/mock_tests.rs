use hal_mock::{Mock, MockTransaction};

#[test]
fn test_transactional_read() {
    let mut m = Mock::new();
    let s = m.spi();

    let prefix = vec![0xFF];
    let data = vec![0xAA, 0xBB];

    m.expect(vec![MockTransaction::spi_read(&s, &prefix, &data)]);

    let mut d = vec![0u8, 0u8];
    s.spi_read(&mut m, &prefix, &mut d).expect("read failure");

    assert!(m.finalise());
    assert_eq!(&data, &d);
}

#[test]
#[should_panic]
fn test_transactional_read_expect_write() {
    let mut m = Mock::new();
    let s = m.spi();

    let prefix = vec![0xFF];
    let data = vec![0xAA, 0xBB];

    m.expect(vec![MockTransaction::spi_write(&s, &prefix, &data)]);

    let mut d = vec![0u8, 0u8];
    s.spi_read(&mut m, &prefix, &mut d).expect("read failure");

    assert!(m.finalise());
    assert_eq!(&data, &d);
}

#[test]
fn test_transactional_write() {
    let mut m = Mock::new();
    let s = m.spi();

    let prefix = vec![0xFF];
    let data = vec![0xAA, 0xBB];

    m.expect(vec![MockTransaction::spi_write(&s, &prefix, &data)]);

    s.spi_write(&mut m, &prefix, &data).expect("write failure");

    assert!(m.finalise());
}

#[test]
#[should_panic]
fn test_transactional_write_expect_read() {
    let mut m = Mock::new();
    let s = m.spi();

    let prefix = vec![0xFF];
    let data = vec![0xAA, 0xBB];

    m.expect(vec![MockTransaction::spi_read(&s, &prefix, &data)]);

    s.spi_write(&mut m, &prefix, &data).expect("write failure");

    assert!(m.finalise());
}

#[test]
fn test_standard_write() {
    let mut m = Mock::new();
    let s = m.spi();

    let data = vec![0xAA, 0xBB];

    m.expect(vec![MockTransaction::write(&s, &data)]);

    s.write(&mut m, &data).expect("write failure");

    assert!(m.finalise());
}

#[test]
fn test_standard_transfer() {
    let mut m = Mock::new();
    let s = m.spi();

    let outgoing = vec![0xAA, 0xBB];
    let incoming = vec![0xCC, 0xDD];

    m.expect(vec![MockTransaction::transfer(&s, &outgoing, &incoming)]);

    let mut d = outgoing.clone();
    s.transfer(&mut m, &mut d).expect("read failure");

    assert!(m.finalise());
    assert_eq!(&incoming, &d);
}

#[test]
fn test_pins() {
    let mut m = Mock::new();
    let p = m.pin();

    m.expect(vec![
        MockTransaction::is_high(&p, true),
        MockTransaction::is_low(&p, false),
        MockTransaction::set_high(&p),
        MockTransaction::set_low(&p),
    ]);

    assert_eq!(true, p.is_high(&mut m).unwrap());
    assert_eq!(false, p.is_low(&mut m).unwrap());

    p.set_high(&mut m).unwrap();
    p.set_low(&mut m).unwrap();

    assert!(m.finalise());
}

#[test]
#[should_panic]
fn test_incorrect_pin() {
    let mut m = Mock::new();
    let p1 = m.pin();
    let p2 = m.pin();

    m.expect(vec![MockTransaction::is_high(&p1, true)]);

    p2.is_high(&mut m).unwrap();

    assert!(m.finalise());
}
