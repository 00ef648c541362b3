use xpt2046::protocol::{
    command_for, decode_reading, sample_from_frames, Channel, CMD_READ_X, CMD_READ_Y,
};

#[test]
fn command_bytes_select_the_channel() {
    assert_eq!(command_for(Channel::X), 0xD0);
    assert_eq!(command_for(Channel::Y), 0x90);
    assert_eq!(CMD_READ_X, 0xD0);
    assert_eq!(CMD_READ_Y, 0x90);
}

#[test]
fn readings_are_the_twelve_bits_after_the_idle_bit() {
    assert_eq!(decode_reading([0x7F, 0xF8]), 4095);
    assert_eq!(decode_reading([0x00, 0x08]), 1);
    assert_eq!(decode_reading([0x12, 0x34]), 0x1234 >> 3);
    assert_eq!(decode_reading([0xFF, 0xFF]), 4095);
    assert_eq!(sample_from_frames([0x3E, 0x80], [0x1F, 0x40]), (2000, 1000));
}
