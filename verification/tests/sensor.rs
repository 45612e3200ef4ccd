use embedded_hal::i2c::ErrorKind;
use embedded_hal_mock::eh1::i2c::{Mock as I2cMock, Transaction as I2cTrans};
use i2c_drivers::singletact::{
    be16, read_frame, write_frame, Error, SensorFrameMeasurement, SensorInfo, SingleTact,
    DEFAULT_DEVICE_ADDRESS, REG_ADDRESS, REG_FIRMWARE,
};

#[test]
fn sensor_create_and_destroy() {
    let i2c = I2cMock::new(&[]);
    let sensor = SingleTact::new(i2c, DEFAULT_DEVICE_ADDRESS);
    sensor.destroy().done();
}

#[test]
fn write_frame_layout() {
    assert_eq!(write_frame(0x00, 0x12), vec![0x02, 0x00, 0x01, 0x12, 0xFF]);
}

#[test]
fn read_frame_layout() {
    assert_eq!(read_frame(0x07, 1), vec![0x01, 0x07, 0x01, 0xFF]);
}

#[test]
fn be16_is_big_endian() {
    assert_eq!(be16(0x12, 0x34), 0x1234);
    assert_eq!(be16(0x00, 0xFF), 0x00FF);
    assert_eq!(be16(0xFF, 0x00), 0xFF00);
}

#[test]
fn write_register_sends_command_frame() {
    let expectations = [I2cTrans::write(0x04, vec![0x02, 0x00, 0x01, 0x12, 0xFF])];
    let i2c = I2cMock::new(&expectations);
    let mut sensor = SingleTact::new(i2c, DEFAULT_DEVICE_ADDRESS);
    sensor.write_register(REG_ADDRESS, 0x12).unwrap();
    sensor.destroy().done();
}

#[test]
fn read_register_sends_command_frame_and_reads_one_byte() {
    let expectations = [I2cTrans::write_read(
        0x04,
        vec![0x01, 0x07, 0x01, 0xFF],
        vec![0x42],
    )];
    let i2c = I2cMock::new(&expectations);
    let mut sensor = SingleTact::new(i2c, DEFAULT_DEVICE_ADDRESS);
    assert_eq!(sensor.read_register(REG_FIRMWARE), Ok(0x42));
    sensor.destroy().done();
}

#[test]
fn read_registers_requests_exact_count() {
    let expectations = [I2cTrans::write_read(
        0x04,
        vec![0x01, 0x01, 0x02, 0xFF],
        vec![0x12, 0x34],
    )];
    let i2c = I2cMock::new(&expectations);
    let mut sensor = SingleTact::new(i2c, DEFAULT_DEVICE_ADDRESS);
    assert_eq!(sensor.read_registers(0x01, 2), Ok(vec![0x12, 0x34]));
    sensor.destroy().done();
}

#[test]
fn set_address_redirects_following_operations() {
    let expectations = [
        I2cTrans::write(0x04, vec![0x02, 0x00, 0x01, 0x12, 0xFF]),
        I2cTrans::write(0x12, vec![0x02, 0x06, 0x01, 0x01, 0xFF]),
    ];
    let i2c = I2cMock::new(&expectations);
    let mut sensor = SingleTact::new(i2c, DEFAULT_DEVICE_ADDRESS);
    sensor.set_address(0x12).unwrap();
    sensor.write_register(0x06, 0x01).unwrap();
    sensor.destroy().done();
}

#[test]
fn set_address_failure_keeps_old_address() {
    let expectations = [
        I2cTrans::write(0x04, vec![0x02, 0x00, 0x01, 0x12, 0xFF]).with_error(ErrorKind::Other),
        I2cTrans::write(0x04, vec![0x02, 0x06, 0x01, 0x01, 0xFF]),
    ];
    let i2c = I2cMock::new(&expectations);
    let mut sensor = SingleTact::new(i2c, DEFAULT_DEVICE_ADDRESS);
    assert_eq!(sensor.set_address(0x12), Err(Error::I2C));
    sensor.write_register(0x06, 0x01).unwrap();
    sensor.destroy().done();
}

#[test]
fn get_info_reads_four_registers_in_order() {
    let expectations = [
        I2cTrans::write_read(0x04, vec![0x01, 0x00, 0x01, 0xFF], vec![0x04]),
        I2cTrans::write_read(0x04, vec![0x01, 0x01, 0x02, 0xFF], vec![0x12, 0x34]),
        I2cTrans::write_read(0x04, vec![0x01, 0x07, 0x01, 0xFF], vec![0x05]),
        I2cTrans::write_read(0x04, vec![0x01, 0x29, 0x02, 0xFF], vec![0xAB, 0xCD]),
    ];
    let i2c = I2cMock::new(&expectations);
    let mut sensor = SingleTact::new(i2c, DEFAULT_DEVICE_ADDRESS);
    assert_eq!(
        sensor.get_info(),
        Ok(SensorInfo {
            address: 0x04,
            serial: 0x1234,
            firmware: 0x05,
            baseline: 0xABCD,
        })
    );
    sensor.destroy().done();
}

#[test]
fn get_info_aborts_on_first_failure() {
    let expectations = [
        I2cTrans::write_read(0x04, vec![0x01, 0x00, 0x01, 0xFF], vec![0x04]),
        I2cTrans::write_read(0x04, vec![0x01, 0x01, 0x02, 0xFF], vec![0x00, 0x00])
            .with_error(ErrorKind::Other),
    ];
    let i2c = I2cMock::new(&expectations);
    let mut sensor = SingleTact::new(i2c, DEFAULT_DEVICE_ADDRESS);
    assert_eq!(sensor.get_info(), Err(Error::I2C));
    sensor.destroy().done();
}

#[test]
fn read_sensor_frame_decodes_big_endian_fields() {
    let expectations = [I2cTrans::write_read(
        0x04,
        vec![0x01, 0x84, 0x06, 0xFF],
        vec![0x00, 0x01, 0x00, 0x02, 0x00, 0x03],
    )];
    let i2c = I2cMock::new(&expectations);
    let mut sensor = SingleTact::new(i2c, DEFAULT_DEVICE_ADDRESS);
    assert_eq!(
        sensor.read_sensor_frame(),
        Ok(SensorFrameMeasurement {
            index: 1,
            timestamp: 2,
            output: 3,
        })
    );
    sensor.destroy().done();
}

#[test]
fn read_sensor_frame_wide_values() {
    let expectations = [I2cTrans::write_read(
        0x04,
        vec![0x01, 0x84, 0x06, 0xFF],
        vec![0x12, 0x34, 0x56, 0x78, 0x9A, 0xBC],
    )];
    let i2c = I2cMock::new(&expectations);
    let mut sensor = SingleTact::new(i2c, DEFAULT_DEVICE_ADDRESS);
    assert_eq!(
        sensor.read_sensor_frame(),
        Ok(SensorFrameMeasurement {
            index: 0x1234,
            timestamp: 0x5678,
            output: 0x9ABC,
        })
    );
    sensor.destroy().done();
}
