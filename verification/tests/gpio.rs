use embedded_hal::i2c::ErrorKind;
use embedded_hal_mock::eh1::i2c::{Mock as I2cMock, Transaction as I2cTrans};
use i2c_drivers::qwiic_gpio::{Error, PinConfig, PinLevel, PinPolarity, SparkfunQwiicGpio};

pub const DEV_ADDR: u8 = 0x27;

#[test]
fn can_create_and_destroy() {
    let i2c = I2cMock::new(&[]);
    let dev = SparkfunQwiicGpio::new(i2c);
    dev.destroy().done();
}

#[test]
fn can_init() {
    let expectations = [
        I2cTrans::write(DEV_ADDR, vec![0x03, 0xFF]), // Config register init
        I2cTrans::write(DEV_ADDR, vec![0x01, 0x00]), // OutputPort register init
        I2cTrans::write(DEV_ADDR, vec![0x02, 0x00]), // Polarity register init
    ];
    let i2c = I2cMock::new(&expectations);
    let mut dev = SparkfunQwiicGpio::new(i2c);
    dev.init().unwrap();
    dev.destroy().done();
}

#[test]
fn init_aborts_after_failed_write() {
    let expectations = [
        I2cTrans::write(DEV_ADDR, vec![0x03, 0xFF]),
        I2cTrans::write(DEV_ADDR, vec![0x01, 0x00]).with_error(ErrorKind::Other),
    ];
    let i2c = I2cMock::new(&expectations);
    let mut dev = SparkfunQwiicGpio::new(i2c);
    assert_eq!(dev.init(), Err(Error::I2C));
    dev.destroy().done();
}

#[test]
fn set_pin_output_reads_then_writes() {
    let expectations = [
        I2cTrans::write_read(DEV_ADDR, vec![0x01], vec![0b0000_0000]),
        I2cTrans::write(DEV_ADDR, vec![0x01, 0b0001_0000]),
    ];
    let i2c = I2cMock::new(&expectations);
    let mut dev = SparkfunQwiicGpio::new(i2c);
    dev.set_pin_output(4, PinLevel::High).unwrap();
    dev.destroy().done();
}

#[test]
fn set_pin_output_twice_writes_same_byte() {
    let expectations = [
        I2cTrans::write_read(DEV_ADDR, vec![0x01], vec![0b0000_0000]),
        I2cTrans::write(DEV_ADDR, vec![0x01, 0b0001_0000]),
        I2cTrans::write_read(DEV_ADDR, vec![0x01], vec![0b0001_0000]),
        I2cTrans::write(DEV_ADDR, vec![0x01, 0b0001_0000]),
    ];
    let i2c = I2cMock::new(&expectations);
    let mut dev = SparkfunQwiicGpio::new(i2c);
    dev.set_pin_output(4, PinLevel::High).unwrap();
    dev.set_pin_output(4, PinLevel::High).unwrap();
    dev.destroy().done();
}

#[test]
fn set_pin_output_failed_read_issues_no_write() {
    let expectations = [
        I2cTrans::write_read(DEV_ADDR, vec![0x01], vec![0b0001_0000]),
        I2cTrans::write(DEV_ADDR, vec![0x01, 0b0001_0000]),
        I2cTrans::write_read(DEV_ADDR, vec![0x01], vec![0x00]).with_error(ErrorKind::Other),
    ];
    let i2c = I2cMock::new(&expectations);
    let mut dev = SparkfunQwiicGpio::new(i2c);
    dev.set_pin_output(4, PinLevel::High).unwrap();
    assert_eq!(dev.set_pin_output(4, PinLevel::High), Err(Error::I2C));
    dev.destroy().done();
}

#[test]
fn set_pin_output_low_clears_bit() {
    let expectations = [
        I2cTrans::write_read(DEV_ADDR, vec![0x01], vec![0b1111_1111]),
        I2cTrans::write(DEV_ADDR, vec![0x01, 0b1111_1011]),
    ];
    let i2c = I2cMock::new(&expectations);
    let mut dev = SparkfunQwiicGpio::new(i2c);
    dev.set_pin_output(2, PinLevel::Low).unwrap();
    dev.destroy().done();
}

#[test]
fn toggle_pin_output_flips_single_bit() {
    let expectations = [
        I2cTrans::write_read(DEV_ADDR, vec![0x01], vec![0b0000_0101]),
        I2cTrans::write(DEV_ADDR, vec![0x01, 0b0000_0100]),
        I2cTrans::write_read(DEV_ADDR, vec![0x01], vec![0b0000_0100]),
        I2cTrans::write(DEV_ADDR, vec![0x01, 0b0000_0101]),
    ];
    let i2c = I2cMock::new(&expectations);
    let mut dev = SparkfunQwiicGpio::new(i2c);
    dev.toggle_pin_output(0).unwrap();
    dev.toggle_pin_output(0).unwrap();
    dev.destroy().done();
}

#[test]
fn set_pin_config_output_clears_bit() {
    let expectations = [
        I2cTrans::write_read(DEV_ADDR, vec![0x03], vec![0b1111_1111]),
        I2cTrans::write(DEV_ADDR, vec![0x03, 0b1111_1110]),
    ];
    let i2c = I2cMock::new(&expectations);
    let mut dev = SparkfunQwiicGpio::new(i2c);
    dev.set_pin_config(0, PinConfig::Output).unwrap();
    dev.destroy().done();
}

#[test]
fn set_pin_config_input_sets_bit() {
    let expectations = [
        I2cTrans::write_read(DEV_ADDR, vec![0x03], vec![0b0000_0000]),
        I2cTrans::write(DEV_ADDR, vec![0x03, 0b0000_1000]),
    ];
    let i2c = I2cMock::new(&expectations);
    let mut dev = SparkfunQwiicGpio::new(i2c);
    dev.set_pin_config(3, PinConfig::Input).unwrap();
    dev.destroy().done();
}

#[test]
fn set_pin_polarity_inverted_sets_bit() {
    let expectations = [
        I2cTrans::write_read(DEV_ADDR, vec![0x02], vec![0b0000_0000]),
        I2cTrans::write(DEV_ADDR, vec![0x02, 0b0000_0010]),
    ];
    let i2c = I2cMock::new(&expectations);
    let mut dev = SparkfunQwiicGpio::new(i2c);
    dev.set_pin_polarity(1, PinPolarity::Inverted).unwrap();
    dev.destroy().done();
}

#[test]
fn set_pin_polarity_normal_clears_bit() {
    let expectations = [
        I2cTrans::write_read(DEV_ADDR, vec![0x02], vec![0b1111_1111]),
        I2cTrans::write(DEV_ADDR, vec![0x02, 0b1111_1101]),
    ];
    let i2c = I2cMock::new(&expectations);
    let mut dev = SparkfunQwiicGpio::new(i2c);
    dev.set_pin_polarity(1, PinPolarity::Normal).unwrap();
    dev.destroy().done();
}

#[test]
fn read_pin_input_decodes_bit() {
    let expectations = [
        I2cTrans::write_read(DEV_ADDR, vec![0x00], vec![0b0000_0100]),
        I2cTrans::write_read(DEV_ADDR, vec![0x00], vec![0b0000_0100]),
    ];
    let i2c = I2cMock::new(&expectations);
    let mut dev = SparkfunQwiicGpio::new(i2c);
    assert_eq!(dev.read_pin_input(2), Ok(PinLevel::High));
    assert_eq!(dev.read_pin_input(0), Ok(PinLevel::Low));
    dev.destroy().done();
}

#[test]
fn port_wide_reads_and_writes() {
    let expectations = [
        I2cTrans::write(DEV_ADDR, vec![0x01, 0xAA]),
        I2cTrans::write_read(DEV_ADDR, vec![0x01], vec![0xAA]),
        I2cTrans::write(DEV_ADDR, vec![0x03, 0x0F]),
        I2cTrans::write_read(DEV_ADDR, vec![0x03], vec![0x0F]),
        I2cTrans::write(DEV_ADDR, vec![0x02, 0x55]),
        I2cTrans::write_read(DEV_ADDR, vec![0x02], vec![0x55]),
        I2cTrans::write_read(DEV_ADDR, vec![0x00], vec![0x5A]),
    ];
    let i2c = I2cMock::new(&expectations);
    let mut dev = SparkfunQwiicGpio::new(i2c);
    dev.write_output_port(0xAA).unwrap();
    assert_eq!(dev.read_output_port(), Ok(0xAA));
    dev.set_port_config(0x0F).unwrap();
    assert_eq!(dev.read_port_config(), Ok(0x0F));
    dev.set_port_polarity(0x55).unwrap();
    assert_eq!(dev.read_port_polarity(), Ok(0x55));
    assert_eq!(dev.read_input_port(), Ok(0x5A));
    dev.destroy().done();
}

#[test]
fn new_with_address_redirects_transactions() {
    let expectations = [I2cTrans::write(0x3A, vec![0x01, 0x01])];
    let i2c = I2cMock::new(&expectations);
    let mut dev = SparkfunQwiicGpio::new_with_address(i2c, 0x3A);
    dev.write_output_port(0x01).unwrap();
    dev.destroy().done();
}

#[test]
fn enum_bit_values() {
    assert_eq!(PinConfig::Input.bits(), 1);
    assert_eq!(PinConfig::Output.bits(), 0);
    assert_eq!(PinPolarity::Normal.bits(), 0);
    assert_eq!(PinPolarity::Inverted.bits(), 1);
    assert_eq!(PinLevel::Low.bits(), 0);
    assert_eq!(PinLevel::High.bits(), 1);
}
