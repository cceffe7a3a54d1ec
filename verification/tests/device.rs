use i2cdev::device::{
    ack_of_reply, block_of_reply, byte_of_reply, word_of_reply, I2CDevice, I2CDeviceOpenError,
};
use i2cdev::mock::MockI2CPort;
use i2cdev::port::{I2CPort, EINVAL, ENOENT, EOPNOTSUPP, EPROTO};
use i2cdev::smbus::SmbusReply;

fn open_mock(path: &str, address: u16) -> I2CDevice<MockI2CPort> {
    match I2CDevice::<MockI2CPort>::new(path, address) {
        Ok(device) => device,
        Err(e) => panic!("mock device should open: {:?}", e),
    }
}

#[test]
fn construction_records_address() {
    let device = open_mock("/mock/i2c-1", 0x50);
    assert_eq!(device.slave_address(), 0x50);
}

#[test]
fn construction_accepts_addressing_limits() {
    assert_eq!(open_mock("/mock/i2c-0", 0x00).slave_address(), 0x00);
    assert_eq!(open_mock("/mock/i2c-0", 0x7F).slave_address(), 0x7F);
}

#[test]
fn construction_rejected_address_is_kernel_error() {
    let result = I2CDevice::<MockI2CPort>::new("/mock/i2c-1", 0x80);
    match result {
        Err(I2CDeviceOpenError::NixError(e)) => assert_eq!(e, EINVAL),
        Err(I2CDeviceOpenError::IOError(_)) => panic!("wrong error category"),
        Ok(_) => panic!("address should be rejected"),
    }
}

#[test]
fn construction_missing_path_is_io_error() {
    let result = I2CDevice::<MockI2CPort>::new("/mock/i2c-9", 0x50);
    match result {
        Err(I2CDeviceOpenError::IOError(e)) => assert_eq!(e, ENOENT),
        Err(I2CDeviceOpenError::NixError(_)) => panic!("wrong error category"),
        Ok(_) => panic!("path should not exist"),
    }
}

#[test]
fn rebind_success_updates_address() {
    let mut device = open_mock("/mock/i2c-1", 0x50);
    assert_eq!(device.set_slave_address(0x51), Ok(()));
    assert_eq!(device.slave_address(), 0x51);
}

#[test]
fn rebind_failure_is_noop_on_state() {
    let mut device = open_mock("/mock/i2c-1", 0x50);
    assert_eq!(device.set_slave_address(0x3FF), Err(EINVAL));
    assert_eq!(device.slave_address(), 0x50);
}

#[test]
fn block_round_trip_preserves_length_and_content() {
    let mut device = open_mock("/mock/i2c-1", 0x50);
    for size in [0usize, 1, 2, 16, 31, 32] {
        let data: Vec<u8> = (0..size).map(|i| (i as u8).wrapping_mul(3)).collect();
        assert_eq!(device.smbus_write_block_data(0x20, &data), Ok(()));
        let read_back = device.smbus_read_block_data(0x20).unwrap();
        assert_eq!(read_back, data);
        assert_eq!(device.smbus_write_block_data(0x20, &read_back), Ok(()));
        assert_eq!(device.smbus_read_block_data(0x20).unwrap(), data);
    }
}

#[test]
fn word_write_then_read_returns_exact_value() {
    let mut device = open_mock("/mock/i2c-1", 0x50);
    assert_eq!(device.smbus_write_word_data(0x10, 0xBEEF), Ok(()));
    assert_eq!(device.smbus_read_word_data(0x10), Ok(0xBEEF));
}

#[test]
fn process_word_echoes_value_plus_one_in_one_transaction() {
    let mut device = open_mock("/mock/i2c-1", 0x50);
    let before = device.port_ref().transaction_count();
    assert_eq!(device.smbus_process_word(0x05, 41), Ok(42));
    let after = device.port_ref().transaction_count();
    assert_eq!(after, before + 1);
}

#[test]
fn process_word_echo_wraps_at_word_limit() {
    let mut device = open_mock("/mock/i2c-1", 0x50);
    assert_eq!(device.smbus_process_word(0x05, 0xFFFF), Ok(0));
}

#[test]
fn byte_data_write_then_read_scenario() {
    let mut device = open_mock("/mock/i2c-1", 0x50);
    assert_eq!(device.smbus_write_byte_data(0x00, 0xAB), Ok(()));
    assert_eq!(device.smbus_read_byte_data(0x00), Ok(0xAB));
}

#[test]
fn quick_only_device_accepts_quick_command() {
    let mut device = open_mock("/mock/quick", 0x10);
    assert_eq!(device.smbus_write_quick(true), Ok(()));
    assert_eq!(device.smbus_write_quick(false), Ok(()));
}

#[test]
fn quick_only_device_refuses_other_transaction_classes() {
    let mut device = open_mock("/mock/quick", 0x10);
    assert_eq!(device.smbus_read_byte(), Err(EOPNOTSUPP));
    assert_eq!(device.smbus_write_byte_data(0x01, 0x02), Err(EOPNOTSUPP));
    assert_eq!(device.smbus_read_word_data(0x01), Err(EOPNOTSUPP));
}

#[test]
fn quick_on_ordinary_device_succeeds() {
    let mut device = open_mock("/mock/i2c-1", 0x50);
    assert_eq!(device.smbus_write_quick(true), Ok(()));
}

#[test]
fn plain_byte_write_then_read() {
    let mut device = open_mock("/mock/i2c-1", 0x50);
    assert_eq!(device.smbus_write_byte(0x7E), Ok(()));
    assert_eq!(device.smbus_read_byte(), Ok(0x7E));
}

#[test]
fn fresh_device_registers_are_zeroed() {
    let mut device = open_mock("/mock/i2c-0", 0x21);
    assert_eq!(device.smbus_read_byte(), Ok(0));
    assert_eq!(device.smbus_read_byte_data(0x42), Ok(0));
    assert_eq!(device.smbus_read_word_data(0x42), Ok(0));
    assert_eq!(device.smbus_read_block_data(0x42), Ok(Vec::new()));
}

#[test]
fn process_block_stores_its_payload() {
    let mut device = open_mock("/mock/i2c-1", 0x50);
    assert_eq!(device.smbus_process_block(0x07, &[1, 2, 3]), Ok(()));
    assert_eq!(device.smbus_read_block_data(0x07), Ok(vec![1, 2, 3]));
}

#[test]
fn every_transaction_steps_the_counter() {
    let mut device = open_mock("/mock/i2c-1", 0x50);
    assert_eq!(device.port_ref().transaction_count(), 0);
    device.smbus_write_quick(false).unwrap();
    device.smbus_write_byte_data(0x01, 0x02).unwrap();
    device.smbus_read_byte_data(0x01).unwrap();
    assert_eq!(device.port_ref().transaction_count(), 3);
}

#[test]
fn raw_stream_reads_are_partial_and_ordered() {
    let mut port = MockI2CPort::open("/mock/i2c-0").unwrap();
    port.push_incoming(&[10, 20, 30]);
    let mut device = match I2CDevice::from_port(port, 0x42) {
        Ok(device) => device,
        Err(e) => panic!("bind should succeed: {:?}", e),
    };
    assert_eq!(device.read(2), Ok(vec![10, 20]));
    assert_eq!(device.read(10), Ok(vec![30]));
    assert_eq!(device.read(5), Ok(Vec::new()));
}

#[test]
fn raw_stream_write_reports_full_count() {
    let mut device = open_mock("/mock/i2c-1", 0x50);
    assert_eq!(device.write(&[7, 8, 9]), Ok(3));
    assert_eq!(device.flush(), Ok(()));
    assert_eq!(device.port_ref().outgoing_bytes(), &vec![7, 8, 9]);
}

#[test]
fn reply_extractors_accept_the_matching_shape() {
    assert_eq!(ack_of_reply(SmbusReply::Ack), Ok(()));
    assert_eq!(byte_of_reply(SmbusReply::Byte { value: 3 }), Ok(3));
    assert_eq!(word_of_reply(SmbusReply::Word { value: 7 }), Ok(7));
    assert_eq!(
        block_of_reply(SmbusReply::Block { data: vec![1, 2] }),
        Ok(vec![1, 2])
    );
}

#[test]
fn reply_extractors_refuse_the_wrong_shape() {
    assert_eq!(ack_of_reply(SmbusReply::Byte { value: 0 }), Err(EPROTO));
    assert_eq!(byte_of_reply(SmbusReply::Ack), Err(EPROTO));
    assert_eq!(word_of_reply(SmbusReply::Byte { value: 1 }), Err(EPROTO));
    assert_eq!(block_of_reply(SmbusReply::Word { value: 1 }), Err(EPROTO));
    assert_eq!(block_of_reply(SmbusReply::Block { data: vec![0; 33] }), Err(EPROTO));
}
