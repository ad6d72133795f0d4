use std::cell::RefCell;
use std::rc::Rc;

use lcd_controller::{
    Controller, CtrlDisplay, History, Interface, MemoryAccessControl, PixelFormat, TearingEffect,
};

#[derive(Debug, Clone, PartialEq)]
enum Call {
    Write(u8, Vec<u8>),
    WriteMemory(Vec<u8>),
    Read(u8, usize),
    ReadMemory(usize),
}

/// A transport that records every call, answers reads from `response`, and
/// fails every call with `fail` when it is set.
struct Mock {
    calls: Rc<RefCell<Vec<Call>>>,
    response: Vec<u8>,
    fail: Option<u32>,
}

impl Interface for Mock {
    type Error = u32;

    // A model for proofs only: it is never called when the tests run.
    fn history(&self) -> History<u32> {
        unreachable!()
    }

    fn write_parameters(&mut self, command: u8, data: &[u8]) -> Result<(), u32> {
        self.calls.borrow_mut().push(Call::Write(command, data.to_vec()));
        self.fail.map_or(Ok(()), Err)
    }

    fn write_memory(&mut self, data: &[u8]) -> Result<(), u32> {
        self.calls.borrow_mut().push(Call::WriteMemory(data.to_vec()));
        self.fail.map_or(Ok(()), Err)
    }

    fn read_parameters(&mut self, command: u8, data: &mut [u8]) -> Result<(), u32> {
        self.calls.borrow_mut().push(Call::Read(command, data.len()));
        for (i, b) in data.iter_mut().enumerate() {
            *b = self.response[i % self.response.len()];
        }
        self.fail.map_or(Ok(()), Err)
    }

    fn read_memory(&mut self, data: &mut [u8]) -> Result<(), u32> {
        self.calls.borrow_mut().push(Call::ReadMemory(data.len()));
        for (i, b) in data.iter_mut().enumerate() {
            *b = self.response[i % self.response.len()];
        }
        self.fail.map_or(Ok(()), Err)
    }
}

fn controller(response: Vec<u8>, fail: Option<u32>) -> (Controller<Mock>, Rc<RefCell<Vec<Call>>>) {
    let calls = Rc::new(RefCell::new(Vec::new()));
    let mock = Mock { calls: calls.clone(), response, fail };
    (Controller::new(mock), calls)
}

fn recorded(calls: &Rc<RefCell<Vec<Call>>>) -> Vec<Call> {
    calls.borrow().clone()
}

#[test]
fn new_makes_no_call() {
    let (_c, calls) = controller(vec![0], None);
    assert!(recorded(&calls).is_empty());
}

#[test]
fn zero_parameter_commands_send_their_opcode_alone() {
    type Cmd = fn(&mut Controller<Mock>) -> Result<(), u32>;
    let cases: Vec<(Cmd, u8)> = vec![
        (Controller::nop, 0x00),
        (Controller::software_reset, 0x01),
        (Controller::enter_sleep_mode, 0x10),
        (Controller::sleep_out, 0x11),
        (Controller::partial_mode_on, 0x12),
        (Controller::normal_display_mode_on, 0x13),
        (Controller::memory_read_start, 0x2e),
        (Controller::read_memory_continue, 0x3e),
    ];
    for (cmd, opcode) in cases {
        let (mut c, calls) = controller(vec![0], None);
        assert_eq!(cmd(&mut c), Ok(()));
        assert_eq!(recorded(&calls), vec![Call::Write(opcode, vec![])]);
    }
}

#[test]
fn flag_commands_pick_one_of_two_opcodes() {
    type Cmd = fn(&mut Controller<Mock>, bool) -> Result<(), u32>;
    let cases: Vec<(Cmd, u8, u8)> = vec![
        (Controller::display_inversion, 0x20, 0x21),
        (Controller::display, 0x28, 0x29),
        (Controller::idle_mode, 0x38, 0x39),
    ];
    for (cmd, on, off) in cases {
        let (mut c, calls) = controller(vec![0], None);
        assert_eq!(cmd(&mut c, true), Ok(()));
        assert_eq!(cmd(&mut c, false), Ok(()));
        assert_eq!(recorded(&calls), vec![Call::Write(on, vec![]), Call::Write(off, vec![])]);
    }
}

#[test]
fn column_address_set_is_big_endian() {
    let (mut c, calls) = controller(vec![0], None);
    assert_eq!(c.column_address_set(0x0123, 0x4567), Ok(()));
    assert_eq!(recorded(&calls), vec![Call::Write(0x2a, vec![0x01, 0x23, 0x45, 0x67])]);
}

#[test]
fn window_and_area_commands_are_big_endian() {
    let (mut c, calls) = controller(vec![0], None);
    assert_eq!(c.page_address_set(0x00ef, 0x013f), Ok(()));
    assert_eq!(c.partial_area(0xff00, 0x00ff), Ok(()));
    assert_eq!(c.vertical_scrolling_definition(0x0001, 0x0203, 0xfffe), Ok(()));
    assert_eq!(c.vertical_scrolling_start_address(0xabcd), Ok(()));
    assert_eq!(c.set_tear_scanline(0x0140), Ok(()));
    assert_eq!(
        recorded(&calls),
        vec![
            Call::Write(0x2b, vec![0x00, 0xef, 0x01, 0x3f]),
            Call::Write(0x30, vec![0xff, 0x00, 0x00, 0xff]),
            Call::Write(0x33, vec![0x00, 0x01, 0x02, 0x03, 0xff, 0xfe]),
            Call::Write(0x37, vec![0xab, 0xcd]),
            Call::Write(0x44, vec![0x01, 0x40]),
        ]
    );
}

#[test]
fn tearing_effect_modes() {
    let (mut c, calls) = controller(vec![0], None);
    assert_eq!(c.tearing_effect(TearingEffect::Off), Ok(()));
    assert_eq!(c.tearing_effect(TearingEffect::VBlankOnly), Ok(()));
    assert_eq!(c.tearing_effect(TearingEffect::HAndVBlank), Ok(()));
    assert_eq!(
        recorded(&calls),
        vec![
            Call::Write(0x34, vec![]),
            Call::Write(0x35, vec![0x00]),
            Call::Write(0x35, vec![0x01]),
        ]
    );
}

#[test]
fn one_byte_writes() {
    let (mut c, calls) = controller(vec![0], None);
    assert_eq!(c.gamma_set(0x04), Ok(()));
    assert_eq!(c.write_display_brightness(0xff), Ok(()));
    assert_eq!(c.write_cabc(0x02), Ok(()));
    assert_eq!(c.write_cabc_minimum_brightness(0x10), Ok(()));
    assert_eq!(c.memory_access_control(MemoryAccessControl { raw: [0x48] }), Ok(()));
    assert_eq!(c.pixel_format_set(PixelFormat { raw: [0x55] }), Ok(()));
    assert_eq!(c.write_ctrl_display(CtrlDisplay { raw: [0x2c] }), Ok(()));
    assert_eq!(
        recorded(&calls),
        vec![
            Call::Write(0x26, vec![0x04]),
            Call::Write(0x51, vec![0xff]),
            Call::Write(0x55, vec![0x02]),
            Call::Write(0x5e, vec![0x10]),
            Call::Write(0x36, vec![0x48]),
            Call::Write(0x3a, vec![0x55]),
            Call::Write(0x53, vec![0x2c]),
        ]
    );
}

#[test]
fn memory_writes_carry_their_data() {
    let (mut c, calls) = controller(vec![0], None);
    assert_eq!(c.memory_write_start(&[1, 2, 3]), Ok(()));
    assert_eq!(c.write_memory_continue(&[4, 5]), Ok(()));
    assert_eq!(c.memory_write_start(&[]), Ok(()));
    assert_eq!(c.write_memory(&[6, 7, 8, 9]), Ok(()));
    assert_eq!(c.write_parameters(0xb1, &[0x00, 0x1b]), Ok(()));
    assert_eq!(
        recorded(&calls),
        vec![
            Call::Write(0x2c, vec![1, 2, 3]),
            Call::Write(0x3c, vec![4, 5]),
            Call::Write(0x2c, vec![]),
            Call::WriteMemory(vec![6, 7, 8, 9]),
            Call::Write(0xb1, vec![0x00, 0x1b]),
        ]
    );
}

#[test]
fn color_set_sends_all_128_bytes() {
    let (mut c, calls) = controller(vec![0], None);
    let mut lut = [0u8; 128];
    for (i, b) in lut.iter_mut().enumerate() {
        *b = i as u8;
    }
    assert_eq!(c.color_set(&lut), Ok(()));
    assert_eq!(recorded(&calls), vec![Call::Write(0x2d, lut.to_vec())]);
}

#[test]
fn get_scanline_joins_high_byte_first() {
    let (mut c, calls) = controller(vec![0x01, 0x02], None);
    assert_eq!(c.get_scanline(), Ok(0x0102));
    assert_eq!(recorded(&calls), vec![Call::Read(0x45, 2)]);
}

#[test]
fn structured_reads_request_their_widths() {
    let (mut c, calls) = controller(vec![0xa1, 0xb2, 0xc3, 0xd4], None);
    assert_eq!(c.read_display_identification().unwrap().raw, [0xa1, 0xb2, 0xc3]);
    assert_eq!(c.read_display_status().unwrap().raw, [0xa1, 0xb2, 0xc3, 0xd4]);
    assert_eq!(c.read_display_power_mode().unwrap().raw, [0xa1]);
    assert_eq!(c.read_display_madctl().unwrap().raw, [0xa1]);
    assert_eq!(c.read_pixel_format().unwrap().raw, [0xa1]);
    assert_eq!(c.read_image_format().unwrap().raw, [0xa1]);
    assert_eq!(c.read_signal_mode().unwrap().raw, [0xa1]);
    assert_eq!(c.read_self_diagnostic_result().unwrap().raw, [0xa1]);
    assert_eq!(c.read_ctrl_display().unwrap().raw, [0xa1]);
    assert_eq!(
        recorded(&calls),
        vec![
            Call::Read(0x04, 3),
            Call::Read(0x09, 4),
            Call::Read(0x0a, 1),
            Call::Read(0x0b, 1),
            Call::Read(0x0c, 1),
            Call::Read(0x0d, 1),
            Call::Read(0x0e, 1),
            Call::Read(0x0f, 1),
            Call::Read(0x54, 1),
        ]
    );
}

#[test]
fn byte_reads_request_one_byte() {
    let (mut c, calls) = controller(vec![0x7e], None);
    assert_eq!(c.read_display_brightness(), Ok(0x7e));
    assert_eq!(c.read_cabc(), Ok(0x7e));
    assert_eq!(c.read_cabc_minimum_brightness(), Ok(0x7e));
    assert_eq!(c.read_id1(), Ok(0x7e));
    assert_eq!(c.read_id2(), Ok(0x7e));
    assert_eq!(c.read_id3(), Ok(0x7e));
    assert_eq!(
        recorded(&calls),
        vec![
            Call::Read(0x52, 1),
            Call::Read(0x56, 1),
            Call::Read(0x5f, 1),
            Call::Read(0xda, 1),
            Call::Read(0xdb, 1),
            Call::Read(0xdc, 1),
        ]
    );
}

#[test]
fn read_memory_fills_the_buffer() {
    let (mut c, calls) = controller(vec![9, 8, 7], None);
    let mut buf = [0u8; 5];
    assert_eq!(c.read_memory(&mut buf), Ok(()));
    assert_eq!(buf, [9, 8, 7, 9, 8]);
    assert_eq!(recorded(&calls), vec![Call::ReadMemory(5)]);
}

#[test]
fn repeated_nop_sends_only_opcode_zero() {
    let (mut c, calls) = controller(vec![0], None);
    for _ in 0..5 {
        assert_eq!(c.nop(), Ok(()));
    }
    assert_eq!(recorded(&calls), vec![Call::Write(0x00, vec![]); 5]);
}

#[test]
fn write_failure_is_returned_unchanged_after_one_call() {
    let (mut c, calls) = controller(vec![0], Some(7));
    assert_eq!(c.column_address_set(1, 2), Err(7));
    assert_eq!(recorded(&calls), vec![Call::Write(0x2a, vec![0, 1, 0, 2])]);
    let (mut c, calls) = controller(vec![0], Some(8));
    assert_eq!(c.nop(), Err(8));
    assert_eq!(c.tearing_effect(TearingEffect::VBlankOnly), Err(8));
    assert_eq!(c.write_memory(&[1]), Err(8));
    assert_eq!(
        recorded(&calls),
        vec![Call::Write(0x00, vec![]), Call::Write(0x35, vec![0x00]), Call::WriteMemory(vec![1])]
    );
}

#[test]
fn read_failure_is_returned_unchanged_after_one_call() {
    let (mut c, calls) = controller(vec![0x01, 0x02], Some(3));
    assert_eq!(c.get_scanline(), Err(3));
    assert_eq!(c.read_id1(), Err(3));
    assert!(matches!(c.read_display_status(), Err(3)));
    let mut buf = [0u8; 2];
    assert_eq!(c.read_memory(&mut buf), Err(3));
    assert_eq!(
        recorded(&calls),
        vec![Call::Read(0x45, 2), Call::Read(0xda, 1), Call::Read(0x09, 4), Call::ReadMemory(2)]
    );
}
