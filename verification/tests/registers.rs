use cmos::registers::{
    get_update_in_progress_flag, read_all, write_all, PortOp, RegisterOp, ADDRESS_PORT, DATA_PORT,
    REGISTER_COUNT,
};

#[test]
fn the_two_ports() {
    assert_eq!(ADDRESS_PORT, 0x70);
    assert_eq!(DATA_PORT, 0x71);
    assert_eq!(REGISTER_COUNT, 128);
    assert_eq!(PortOp::Select(4).port(), 0x70);
    assert_eq!(PortOp::ReadData.port(), 0x71);
    assert_eq!(PortOp::WriteData(8).port(), 0x71);
}

#[test]
fn the_register_map() {
    assert_eq!(cmos::registers::SECOND, 0x00);
    assert_eq!(cmos::registers::MINUTE, 0x02);
    assert_eq!(cmos::registers::HOUR, 0x04);
    assert_eq!(cmos::registers::DAY, 0x07);
    assert_eq!(cmos::registers::MONTH, 0x08);
    assert_eq!(cmos::registers::YEAR, 0x09);
    assert_eq!(cmos::registers::STATUS_A, 0x0A);
    assert_eq!(cmos::registers::STATUS_B, 0x0B);
    assert_eq!(cmos::registers::UPDATE_IN_PROGRESS, 0x80);
}

#[test]
fn a_read_selects_then_reads() {
    assert_eq!(cmos::registers::read(0x04), RegisterOp::Read(0x04));
    assert_eq!(cmos::registers::read(0x04).transfers(), (PortOp::Select(0x04), PortOp::ReadData));
    assert_eq!(cmos::registers::read(0xFF).transfers(), (PortOp::Select(0xFF), PortOp::ReadData));
}

#[test]
fn a_write_selects_then_writes() {
    assert_eq!(cmos::registers::write(0x04, 0x08), RegisterOp::Write(0x04, 0x08));
    assert_eq!(cmos::registers::write(0x04, 0x08).transfers(), (PortOp::Select(0x04), PortOp::WriteData(0x08)));
}

#[test]
fn read_all_reads_each_register_once_in_ascending_order() {
    let plan = read_all();
    assert_eq!(plan.len(), 128);
    for (index, op) in plan.iter().enumerate() {
        assert_eq!(*op, RegisterOp::Read(index as u8));
    }
}

#[test]
fn write_all_writes_each_byte_to_its_register_in_ascending_order() {
    let mut input = [0u8; 128];
    for (index, byte) in input.iter_mut().enumerate() {
        *byte = (index as u8).wrapping_mul(3).wrapping_add(7);
    }
    let plan = write_all(&input);
    assert_eq!(plan.len(), 128);
    for (index, op) in plan.iter().enumerate() {
        assert_eq!(*op, RegisterOp::Write(index as u8, input[index]));
    }
}

#[test]
fn update_flag_is_the_top_bit_of_status_a() {
    assert_eq!(get_update_in_progress_flag(0x80), 0x80);
    assert_eq!(get_update_in_progress_flag(0xFF), 0x80);
    assert_eq!(get_update_in_progress_flag(0xA6), 0x80);
    assert_eq!(get_update_in_progress_flag(0x00), 0);
    assert_eq!(get_update_in_progress_flag(0x7F), 0);
    assert_eq!(get_update_in_progress_flag(0x26), 0);
}
