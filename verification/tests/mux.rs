use embedded_hal::i2c::ErrorKind;
use embedded_hal_mock::eh1::i2c::{Mock as I2cMock, Transaction as I2cTrans};
use i2c_drivers::pca9548::{address_from_pins, PCA9548, PCA9548Error, PortState};

#[test]
fn port_code_all_enabled() {
    assert_eq!(PCA9548::<I2cMock>::port_code([true; 8]), 0xFF);
}

#[test]
fn port_code_all_disabled() {
    assert_eq!(PCA9548::<I2cMock>::port_code([false; 8]), 0x00);
}

#[test]
fn port_code_mixed() {
    assert_eq!(
        PCA9548::<I2cMock>::port_code([true, false, true, false, false, true, false, true]),
        0b1010_0101
    );
}

#[test]
fn address_from_no_pins() {
    assert_eq!(address_from_pins(false, false, false), 0x70);
}

#[test]
fn address_from_pin_a0() {
    assert_eq!(address_from_pins(true, false, false), 0x71);
}

#[test]
fn address_from_pin_a1() {
    assert_eq!(address_from_pins(false, true, false), 0x72);
}

#[test]
fn address_from_pins_a0_a2() {
    assert_eq!(address_from_pins(true, false, true), 0x75);
}

#[test]
fn set_port_out_of_range_issues_no_transaction() {
    let i2c = I2cMock::new(&[]);
    let mut mux = PCA9548::new(i2c);
    assert_eq!(mux.set_port(8, true), Err(PCA9548Error::PortError));
    assert_eq!(mux.set_port(255, false), Err(PCA9548Error::PortError));
    mux.destroy().done();
}

#[test]
fn set_port_writes_packed_state() {
    let expectations = [
        I2cTrans::write(0x70, vec![0x01]),
        I2cTrans::write(0x70, vec![0x09]),
        I2cTrans::write(0x70, vec![0x08]),
    ];
    let i2c = I2cMock::new(&expectations);
    let mut mux = PCA9548::new(i2c);
    mux.set_port(0, true).unwrap();
    mux.set_port(3, true).unwrap();
    mux.set_port(0, false).unwrap();
    mux.destroy().done();
}

#[test]
fn set_ports_writes_packed_array() {
    let expectations = [I2cTrans::write(0x70, vec![0xA5])];
    let i2c = I2cMock::new(&expectations);
    let mut mux = PCA9548::new(i2c);
    mux.set_ports([true, false, true, false, false, true, false, true])
        .unwrap();
    mux.destroy().done();
}

#[test]
fn with_ports_enabled_writes_all_ones() {
    let expectations = [I2cTrans::write(0x70, vec![0xFF])];
    let i2c = I2cMock::new(&expectations);
    let mux = PCA9548::new(i2c).with_ports_enabled().unwrap();
    mux.destroy().done();
}

#[test]
fn with_ports_disabled_writes_all_zeros() {
    let expectations = [I2cTrans::write(0x70, vec![0x00])];
    let i2c = I2cMock::new(&expectations);
    let mux = PCA9548::new(i2c).with_ports_disabled().unwrap();
    mux.destroy().done();
}

#[test]
fn with_address_pins_redirects_writes() {
    let expectations = [I2cTrans::write(0x75, vec![0x02])];
    let i2c = I2cMock::new(&expectations);
    let mux = PCA9548::new(i2c)
        .with_address_pins(true, false, true)
        .with_port(1, true)
        .unwrap();
    mux.destroy().done();
}

#[test]
fn with_address_redirects_writes() {
    let expectations = [I2cTrans::write(0x42, vec![0xFF])];
    let i2c = I2cMock::new(&expectations);
    let mut mux = PCA9548::new(i2c).with_address(0x42);
    mux.set_ports_enabled().unwrap();
    mux.destroy().done();
}

#[test]
fn failed_write_keeps_cached_state() {
    let expectations = [
        I2cTrans::write(0x70, vec![0x01]).with_error(ErrorKind::Other),
        I2cTrans::write(0x70, vec![0x02]),
    ];
    let i2c = I2cMock::new(&expectations);
    let mut mux = PCA9548::new(i2c);
    assert_eq!(mux.set_port(0, true), Err(PCA9548Error::I2CError));
    // The cache was not updated by the failed write, so enabling port 1
    // packs a byte where port 0 is still disabled.
    mux.set_port(1, true).unwrap();
    mux.destroy().done();
}

#[test]
fn port_state_from_bool() {
    assert_eq!(PortState::from(true), PortState::Enabled);
    assert_eq!(PortState::from(false), PortState::Disabled);
}
