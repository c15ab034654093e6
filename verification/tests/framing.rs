use drv8301::command::{frame_for_read, frame_for_write, SpiCommand, ADDR_MASK, DATA_MASK};

#[test]
fn read_frame_value() {
    // 0b1_0010_00000000000: read of register address 0x2.
    assert_eq!(frame_for_read(0x2), 0x9000);
}

#[test]
fn write_frame_value() {
    // 0b0_0011_00001010101: write of 0x055 to register address 0x3.
    assert_eq!(frame_for_write(0x3, 0x055), 0x1855);
}

#[test]
fn spi_command_frames() {
    assert_eq!(SpiCommand::read(0x2).frame(), 0x9000);
    assert_eq!(SpiCommand::write(0x3, 0x055).frame(), 0x1855);
}

#[test]
fn oversized_payload_is_truncated() {
    // Payload bit 11 is silently dropped: the frame carries DATA = 0x000.
    assert_eq!(frame_for_write(0x0, 0x0800), 0x0000);
    // Truncation keeps exactly the low 11 bits.
    assert_eq!(frame_for_write(0x1, 0xF923), frame_for_write(0x1, 0xF923 & DATA_MASK));
    assert_eq!(frame_for_write(0x1, 0xF923) & DATA_MASK, 0x123);
}

#[test]
fn address_is_masked() {
    assert_eq!(frame_for_read(0x12), frame_for_read(0x2));
    assert_eq!(frame_for_write(0xF3, 0x055), frame_for_write(0x3, 0x055));
    assert_eq!(ADDR_MASK, 0x0F);
}

#[test]
fn read_frame_carries_no_payload() {
    for addr in 0..16u8 {
        assert_eq!(frame_for_read(addr) & DATA_MASK, 0);
        assert_eq!(frame_for_read(addr) >> 15, 1);
        assert_eq!((frame_for_read(addr) >> 11) & 0xF, addr as u16);
        assert_eq!(frame_for_write(addr, 0x7FF) >> 15, 0);
    }
}
