use vstd::prelude::*;

use crate::interface::{Exchange, Interface, Request};
use crate::types::{
    CtrlDisplay, DisplayIdentification, DisplayPowerMode, DisplayStatus, ImageFormat, MADCtl,
    MemoryAccessControl, PixelFormat, SelfDiagnosticResult, SignalMode, TearingEffect,
};
use crate::wire::{be16, be16_value, join_be16, split_be16};

verus! {

/// `r` reports `outcome`: an error passed on unchanged, or, on success, a
/// value that `ok` accepts.
pub open spec fn reports<A, E>(r: Result<A, E>, outcome: Result<(), E>, ok: spec_fn(A) -> bool) -> bool {
    match outcome {
        Ok(_) => r is Ok && ok(r->Ok_0),
        Err(e) => r == Err::<A, E>(e),
    }
}

/// `after` is `before` with exactly one more exchange at its end.
pub open spec fn one_more<E>(before: Seq<Exchange<E>>, after: Seq<Exchange<E>>) -> bool {
    after == before.push(after.last())
}

/// `after` is `before` and one more exchange: a read of `width` bytes for
/// `command`.
pub open spec fn read_issued<E>(before: Seq<Exchange<E>>, after: Seq<Exchange<E>>, command: u8, width: nat) -> bool {
    &&& one_more(before, after)
    &&& after.last().request == (Request::ReadParameters { command, width })
    &&& after.last().response.len() == width
}

/// `after` is `before` and one more exchange: `command` written with no
/// parameter bytes, which ended with `outcome`.
pub open spec fn command_sent<E>(before: Seq<Exchange<E>>, after: Seq<Exchange<E>>, command: u8, outcome: Result<(), E>) -> bool {
    after == before.push(Exchange::write(command, Seq::empty(), outcome))
}

/// The opcode that sets tearing-effect output `mode`.
pub open spec fn tearing_opcode(mode: TearingEffect) -> u8 {
    match mode {
        TearingEffect::Off => 0x34,
        _ => 0x35,
    }
}

/// The parameter bytes that go with [`tearing_opcode`] for `mode`.
pub open spec fn tearing_parameters(mode: TearingEffect) -> Seq<u8> {
    match mode {
        TearingEffect::Off => Seq::empty(),
        TearingEffect::VBlankOnly => seq![0x00],
        TearingEffect::HAndVBlank => seq![0x01],
    }
}

/// The command layer: owns one transport and issues the controller's
/// commands over it.
#[derive(Copy, Clone)]
pub struct Controller<T> where T: Interface {
    iface: T,
}

impl<T: Interface> View for Controller<T> {
    type V = Seq<Exchange<T::Error>>;

    /// Every call made on the owned transport, oldest first.
    open spec fn view(&self) -> Seq<Exchange<T::Error>> {
        self.transport().history()
    }
}

impl<T: Interface> Controller<T> {
    /// The transport this controller owns.
    pub closed spec fn transport(&self) -> T {
        self.iface
    }

    /// Takes ownership of `iface`.
    pub fn new(iface: T) -> (r: Controller<T>)
        ensures
            r.transport() == iface,
            r@ == iface.history(),
    {
        Controller { iface }
    }

    /// Sends `command` with the parameter bytes `parameters`.
    pub fn write_parameters(&mut self, command: u8, parameters: &[u8]) -> (r: Result<(), T::Error>)
        ensures
            final(self)@ == old(self)@.push(Exchange::write(command, parameters@, r)),
    {
        let r = self.iface.write_parameters(command, parameters);
        r
    }

    /// Sends `command` with no parameter bytes.
    fn write_command(&mut self, command: u8) -> (r: Result<(), T::Error>)
        ensures
            final(self)@ == old(self)@.push(Exchange::write(command, Seq::empty(), r)),
    {
        let none: [u8; 0] = [];
        assert(none@ =~= Seq::<u8>::empty());
        self.write_parameters(command, &none)
    }

    /// Sends `command` and reads its response into `parameters`.
    fn read_parameters(&mut self, command: u8, parameters: &mut [u8]) -> (r: Result<(), T::Error>)
        ensures
            final(parameters)@.len() == old(parameters)@.len(),
            final(self)@ == old(self)@.push(Exchange {
                request: Request::ReadParameters { command, width: old(parameters)@.len() },
                response: final(parameters)@,
                outcome: r,
            }),
    {
        let r = self.iface.read_parameters(command, parameters);
        r
    }

    /// No operation (opcode 0x00).
    pub fn nop(&mut self) -> (r: Result<(), T::Error>)
        ensures
            command_sent(old(self)@, final(self)@, 0x00, r),
    {
        self.write_command(0x00)
    }

    /// Software reset (opcode 0x01).
    pub fn software_reset(&mut self) -> (r: Result<(), T::Error>)
        ensures
            command_sent(old(self)@, final(self)@, 0x01, r),
    {
        self.write_command(0x01)
    }

    /// Reads the display identification (opcode 0x04): reads 3 bytes.
    pub fn read_display_identification(&mut self) -> (r: Result<DisplayIdentification, T::Error>)
        ensures
            read_issued(old(self)@, final(self)@, 0x04, 3),
            reports(r, final(self)@.last().outcome, |v: DisplayIdentification| v.raw@ == final(self)@.last().response),
    {
        let mut result = DisplayIdentification { raw: [0u8; 3] };
        match self.read_parameters(0x04, &mut result.raw) {
            Ok(()) => Ok(result),
            Err(e) => Err(e),
        }
    }

    /// Reads the display status (opcode 0x09): reads 4 bytes.
    pub fn read_display_status(&mut self) -> (r: Result<DisplayStatus, T::Error>)
        ensures
            read_issued(old(self)@, final(self)@, 0x09, 4),
            reports(r, final(self)@.last().outcome, |v: DisplayStatus| v.raw@ == final(self)@.last().response),
    {
        let mut result = DisplayStatus { raw: [0u8; 4] };
        match self.read_parameters(0x09, &mut result.raw) {
            Ok(()) => Ok(result),
            Err(e) => Err(e),
        }
    }

    /// Reads the display power mode (opcode 0x0a): reads 1 byte.
    pub fn read_display_power_mode(&mut self) -> (r: Result<DisplayPowerMode, T::Error>)
        ensures
            read_issued(old(self)@, final(self)@, 0x0a, 1),
            reports(r, final(self)@.last().outcome, |v: DisplayPowerMode| v.raw@ == final(self)@.last().response),
    {
        let mut result = DisplayPowerMode { raw: [0u8; 1] };
        match self.read_parameters(0x0a, &mut result.raw) {
            Ok(()) => Ok(result),
            Err(e) => Err(e),
        }
    }

    /// Reads the memory access control byte (opcode 0x0b): reads 1 byte.
    pub fn read_display_madctl(&mut self) -> (r: Result<MADCtl, T::Error>)
        ensures
            read_issued(old(self)@, final(self)@, 0x0b, 1),
            reports(r, final(self)@.last().outcome, |v: MADCtl| v.raw@ == final(self)@.last().response),
    {
        let mut result = MADCtl { raw: [0u8; 1] };
        match self.read_parameters(0x0b, &mut result.raw) {
            Ok(()) => Ok(result),
            Err(e) => Err(e),
        }
    }

    /// Reads the pixel format (opcode 0x0c): reads 1 byte.
    pub fn read_pixel_format(&mut self) -> (r: Result<PixelFormat, T::Error>)
        ensures
            read_issued(old(self)@, final(self)@, 0x0c, 1),
            reports(r, final(self)@.last().outcome, |v: PixelFormat| v.raw@ == final(self)@.last().response),
    {
        let mut result = PixelFormat { raw: [0u8; 1] };
        match self.read_parameters(0x0c, &mut result.raw) {
            Ok(()) => Ok(result),
            Err(e) => Err(e),
        }
    }

    /// Reads the image format (opcode 0x0d): reads 1 byte.
    pub fn read_image_format(&mut self) -> (r: Result<ImageFormat, T::Error>)
        ensures
            read_issued(old(self)@, final(self)@, 0x0d, 1),
            reports(r, final(self)@.last().outcome, |v: ImageFormat| v.raw@ == final(self)@.last().response),
    {
        let mut result = ImageFormat { raw: [0u8; 1] };
        match self.read_parameters(0x0d, &mut result.raw) {
            Ok(()) => Ok(result),
            Err(e) => Err(e),
        }
    }

    /// Reads the signal mode (opcode 0x0e): reads 1 byte.
    pub fn read_signal_mode(&mut self) -> (r: Result<SignalMode, T::Error>)
        ensures
            read_issued(old(self)@, final(self)@, 0x0e, 1),
            reports(r, final(self)@.last().outcome, |v: SignalMode| v.raw@ == final(self)@.last().response),
    {
        let mut result = SignalMode { raw: [0u8; 1] };
        match self.read_parameters(0x0e, &mut result.raw) {
            Ok(()) => Ok(result),
            Err(e) => Err(e),
        }
    }

    /// Reads the self-diagnostic result (opcode 0x0f): reads 1 byte.
    pub fn read_self_diagnostic_result(&mut self) -> (r: Result<SelfDiagnosticResult, T::Error>)
        ensures
            read_issued(old(self)@, final(self)@, 0x0f, 1),
            reports(r, final(self)@.last().outcome, |v: SelfDiagnosticResult| v.raw@ == final(self)@.last().response),
    {
        let mut result = SelfDiagnosticResult { raw: [0u8; 1] };
        match self.read_parameters(0x0f, &mut result.raw) {
            Ok(()) => Ok(result),
            Err(e) => Err(e),
        }
    }

    /// Enters sleep mode (opcode 0x10).
    pub fn enter_sleep_mode(&mut self) -> (r: Result<(), T::Error>)
        ensures
            command_sent(old(self)@, final(self)@, 0x10, r),
    {
        self.write_command(0x10)
    }

    /// Leaves sleep mode (opcode 0x11).
    pub fn sleep_out(&mut self) -> (r: Result<(), T::Error>)
        ensures
            command_sent(old(self)@, final(self)@, 0x11, r),
    {
        self.write_command(0x11)
    }

    /// Turns partial mode on (opcode 0x12).
    pub fn partial_mode_on(&mut self) -> (r: Result<(), T::Error>)
        ensures
            command_sent(old(self)@, final(self)@, 0x12, r),
    {
        self.write_command(0x12)
    }

    /// Turns normal display mode on (opcode 0x13).
    pub fn normal_display_mode_on(&mut self) -> (r: Result<(), T::Error>)
        ensures
            command_sent(old(self)@, final(self)@, 0x13, r),
    {
        self.write_command(0x13)
    }

    /// Turns display inversion on or off: opcode 0x20 when `on`, 0x21 otherwise.
    pub fn display_inversion(&mut self, on: bool) -> (r: Result<(), T::Error>)
        ensures
            command_sent(old(self)@, final(self)@, if on { 0x20u8 } else { 0x21u8 }, r),
    {
        let command: u8 = if on {
            0x20
        } else {
            0x21
        };
        self.write_command(command)
    }

    /// Selects a gamma curve (opcode 0x26): the one parameter byte `gc`.
    pub fn gamma_set(&mut self, gc: u8) -> (r: Result<(), T::Error>)
        ensures
            final(self)@ == old(self)@.push(Exchange::write(0x26, seq![gc], r)),
    {
        let data = [gc];
        assert(data@ =~= seq![gc]);
        self.write_parameters(0x26, &data)
    }

    /// Turns the display on or off: opcode 0x28 when `on`, 0x29 otherwise.
    pub fn display(&mut self, on: bool) -> (r: Result<(), T::Error>)
        ensures
            command_sent(old(self)@, final(self)@, if on { 0x28u8 } else { 0x29u8 }, r),
    {
        let command: u8 = if on {
            0x28
        } else {
            0x29
        };
        self.write_command(command)
    }

    /// Sets the column window (opcode 0x2a): `sc` then `ec`, each two bytes, high byte first.
    pub fn column_address_set(&mut self, sc: u16, ec: u16) -> (r: Result<(), T::Error>)
        ensures
            final(self)@ == old(self)@.push(Exchange::write(0x2a, be16(sc) + be16(ec), r)),
    {
        let (sc_hi, sc_lo) = split_be16(sc);
        let (ec_hi, ec_lo) = split_be16(ec);
        let data = [sc_hi, sc_lo, ec_hi, ec_lo];
        assert(data@ =~= be16(sc) + be16(ec));
        self.write_parameters(0x2a, &data)
    }

    /// Sets the page window (opcode 0x2b): `sp` then `ep`, each two bytes, high byte first.
    pub fn page_address_set(&mut self, sp: u16, ep: u16) -> (r: Result<(), T::Error>)
        ensures
            final(self)@ == old(self)@.push(Exchange::write(0x2b, be16(sp) + be16(ep), r)),
    {
        let (sp_hi, sp_lo) = split_be16(sp);
        let (ep_hi, ep_lo) = split_be16(ep);
        let data = [sp_hi, sp_lo, ep_hi, ep_lo];
        assert(data@ =~= be16(sp) + be16(ep));
        self.write_parameters(0x2b, &data)
    }

    /// Starts a memory write (opcode 0x2c), with `data` as its parameter bytes.
    pub fn memory_write_start(&mut self, data: &[u8]) -> (r: Result<(), T::Error>)
        ensures
            final(self)@ == old(self)@.push(Exchange::write(0x2c, data@, r)),
    {
        self.write_parameters(0x2c, data)
    }

    /// Writes the colour lookup table (opcode 0x2d): exactly 128 bytes.
    pub fn color_set(&mut self, data: &[u8; 128]) -> (r: Result<(), T::Error>)
        ensures
            data@.len() == 128,
            final(self)@ == old(self)@.push(Exchange::write(0x2d, data@, r)),
    {
        self.write_parameters(0x2d, data)
    }

    /// Starts a memory read (opcode 0x2e).
    pub fn memory_read_start(&mut self) -> (r: Result<(), T::Error>)
        ensures
            command_sent(old(self)@, final(self)@, 0x2e, r),
    {
        self.write_command(0x2e)
    }

    /// Sets the partial area (opcode 0x30): `sr` then `er`, each two bytes, high byte first.
    pub fn partial_area(&mut self, sr: u16, er: u16) -> (r: Result<(), T::Error>)
        ensures
            final(self)@ == old(self)@.push(Exchange::write(0x30, be16(sr) + be16(er), r)),
    {
        let (sr_hi, sr_lo) = split_be16(sr);
        let (er_hi, er_lo) = split_be16(er);
        let data = [sr_hi, sr_lo, er_hi, er_lo];
        assert(data@ =~= be16(sr) + be16(er));
        self.write_parameters(0x30, &data)
    }

    /// Defines vertical scrolling (opcode 0x33): top fixed area `tfa`,
    /// scrolling area `vsa` and bottom fixed area `bfa`, each two bytes, high
    /// byte first.
    pub fn vertical_scrolling_definition(&mut self, tfa: u16, vsa: u16, bfa: u16) -> (r: Result<(), T::Error>)
        ensures
            final(self)@ == old(self)@.push(Exchange::write(0x33, be16(tfa) + be16(vsa) + be16(bfa), r)),
    {
        let (tfa_hi, tfa_lo) = split_be16(tfa);
        let (vsa_hi, vsa_lo) = split_be16(vsa);
        let (bfa_hi, bfa_lo) = split_be16(bfa);
        let data = [tfa_hi, tfa_lo, vsa_hi, vsa_lo, bfa_hi, bfa_lo];
        assert(data@ =~= be16(tfa) + be16(vsa) + be16(bfa));
        self.write_parameters(0x33, &data)
    }

    /// Sets the tearing-effect output: off is opcode 0x34 with no
    /// parameters; on is opcode 0x35 with one byte, 0x00 for vertical
    /// blanking only and 0x01 for horizontal and vertical blanking.
    pub fn tearing_effect(&mut self, mode: TearingEffect) -> (r: Result<(), T::Error>)
        ensures
            final(self)@ == old(self)@.push(Exchange::write(tearing_opcode(mode), tearing_parameters(mode), r)),
    {
        match mode {
            TearingEffect::VBlankOnly => {
                let data = [0u8];
                assert(data@ =~= seq![0u8]);
                self.write_parameters(0x35, &data)
            },
            TearingEffect::HAndVBlank => {
                let data = [1u8];
                assert(data@ =~= seq![1u8]);
                self.write_parameters(0x35, &data)
            },
            TearingEffect::Off => self.write_command(0x34),
        }
    }

    /// Sets memory access control (opcode 0x36): the value's raw byte.
    pub fn memory_access_control(&mut self, value: MemoryAccessControl) -> (r: Result<(), T::Error>)
        ensures
            final(self)@ == old(self)@.push(Exchange::write(0x36, value.raw@, r)),
    {
        self.write_parameters(0x36, &value.raw)
    }

    /// Sets the vertical scrolling start address (opcode 0x37): `vsp`, two bytes, high byte first.
    pub fn vertical_scrolling_start_address(&mut self, vsp: u16) -> (r: Result<(), T::Error>)
        ensures
            final(self)@ == old(self)@.push(Exchange::write(0x37, be16(vsp), r)),
    {
        let (vsp_hi, vsp_lo) = split_be16(vsp);
        let data = [vsp_hi, vsp_lo];
        assert(data@ =~= be16(vsp));
        self.write_parameters(0x37, &data)
    }

    /// Turns idle mode on or off: opcode 0x38 when `on`, 0x39 otherwise.
    pub fn idle_mode(&mut self, on: bool) -> (r: Result<(), T::Error>)
        ensures
            command_sent(old(self)@, final(self)@, if on { 0x38u8 } else { 0x39u8 }, r),
    {
        let command: u8 = if on {
            0x38
        } else {
            0x39
        };
        self.write_command(command)
    }

    /// Sets the pixel format (opcode 0x3a): the value's raw byte.
    pub fn pixel_format_set(&mut self, value: PixelFormat) -> (r: Result<(), T::Error>)
        ensures
            final(self)@ == old(self)@.push(Exchange::write(0x3a, value.raw@, r)),
    {
        self.write_parameters(0x3a, &value.raw)
    }

    /// Continues a memory write (opcode 0x3c), with `data` as its parameter bytes.
    pub fn write_memory_continue(&mut self, data: &[u8]) -> (r: Result<(), T::Error>)
        ensures
            final(self)@ == old(self)@.push(Exchange::write(0x3c, data@, r)),
    {
        self.write_parameters(0x3c, data)
    }

    /// Streams raw display-memory bytes, with no opcode; a memory write must
    /// have been started.
    pub fn write_memory(&mut self, data: &[u8]) -> (r: Result<(), T::Error>)
        ensures
            final(self)@ == old(self)@.push(Exchange {
                request: Request::WriteMemory { data: data@ },
                response: Seq::empty(),
                outcome: r,
            }),
    {
        let r = self.iface.write_memory(data);
        r
    }

    /// Continues a memory read (opcode 0x3e).
    pub fn read_memory_continue(&mut self) -> (r: Result<(), T::Error>)
        ensures
            command_sent(old(self)@, final(self)@, 0x3e, r),
    {
        self.write_command(0x3e)
    }

    /// Streams raw display-memory bytes into `data`, with no opcode; a memory
    /// read must have been started.
    pub fn read_memory(&mut self, data: &mut [u8]) -> (r: Result<(), T::Error>)
        ensures
            final(data)@.len() == old(data)@.len(),
            final(self)@ == old(self)@.push(Exchange {
                request: Request::ReadMemory { width: old(data)@.len() },
                response: final(data)@,
                outcome: r,
            }),
    {
        let r = self.iface.read_memory(data);
        r
    }

    /// Sets the tear scanline (opcode 0x44): `sts`, two bytes, high byte first.
    pub fn set_tear_scanline(&mut self, sts: u16) -> (r: Result<(), T::Error>)
        ensures
            final(self)@ == old(self)@.push(Exchange::write(0x44, be16(sts), r)),
    {
        let (sts_hi, sts_lo) = split_be16(sts);
        let data = [sts_hi, sts_lo];
        assert(data@ =~= be16(sts));
        self.write_parameters(0x44, &data)
    }

    /// Reads the current scanline (opcode 0x45): two bytes, high byte first.
    pub fn get_scanline(&mut self) -> (r: Result<u16, T::Error>)
        ensures
            read_issued(old(self)@, final(self)@, 0x45, 2),
            reports(r, final(self)@.last().outcome, |v: u16| v == be16_value(final(self)@.last().response[0], final(self)@.last().response[1])),
    {
        let mut result = [0u8; 2];
        match self.read_parameters(0x45, &mut result) {
            Ok(()) => Ok(join_be16(result[0], result[1])),
            Err(e) => Err(e),
        }
    }

    /// Writes the display brightness (opcode 0x51): the one parameter byte `dbv`.
    pub fn write_display_brightness(&mut self, dbv: u8) -> (r: Result<(), T::Error>)
        ensures
            final(self)@ == old(self)@.push(Exchange::write(0x51, seq![dbv], r)),
    {
        let data = [dbv];
        assert(data@ =~= seq![dbv]);
        self.write_parameters(0x51, &data)
    }

    /// Reads the display brightness (opcode 0x52): reads one byte.
    pub fn read_display_brightness(&mut self) -> (r: Result<u8, T::Error>)
        ensures
            read_issued(old(self)@, final(self)@, 0x52, 1),
            reports(r, final(self)@.last().outcome, |v: u8| v == final(self)@.last().response[0]),
    {
        let mut result = [0u8; 1];
        match self.read_parameters(0x52, &mut result) {
            Ok(()) => Ok(result[0]),
            Err(e) => Err(e),
        }
    }

    /// Writes CTRL display (opcode 0x53): the value's raw byte.
    pub fn write_ctrl_display(&mut self, value: CtrlDisplay) -> (r: Result<(), T::Error>)
        ensures
            final(self)@ == old(self)@.push(Exchange::write(0x53, value.raw@, r)),
    {
        self.write_parameters(0x53, &value.raw)
    }

    /// Reads CTRL display (opcode 0x54): reads 1 byte.
    pub fn read_ctrl_display(&mut self) -> (r: Result<CtrlDisplay, T::Error>)
        ensures
            read_issued(old(self)@, final(self)@, 0x54, 1),
            reports(r, final(self)@.last().outcome, |v: CtrlDisplay| v.raw@ == final(self)@.last().response),
    {
        let mut result = CtrlDisplay { raw: [0u8; 1] };
        match self.read_parameters(0x54, &mut result.raw) {
            Ok(()) => Ok(result),
            Err(e) => Err(e),
        }
    }

    /// Writes the content adaptive brightness control mode (opcode 0x55): the one parameter byte `c`.
    pub fn write_cabc(&mut self, c: u8) -> (r: Result<(), T::Error>)
        ensures
            final(self)@ == old(self)@.push(Exchange::write(0x55, seq![c], r)),
    {
        let data = [c];
        assert(data@ =~= seq![c]);
        self.write_parameters(0x55, &data)
    }

    /// Reads the content adaptive brightness control mode (opcode 0x56): reads one byte.
    pub fn read_cabc(&mut self) -> (r: Result<u8, T::Error>)
        ensures
            read_issued(old(self)@, final(self)@, 0x56, 1),
            reports(r, final(self)@.last().outcome, |v: u8| v == final(self)@.last().response[0]),
    {
        let mut result = [0u8; 1];
        match self.read_parameters(0x56, &mut result) {
            Ok(()) => Ok(result[0]),
            Err(e) => Err(e),
        }
    }

    /// Writes the CABC minimum brightness (opcode 0x5e): the one parameter byte `cmb`.
    pub fn write_cabc_minimum_brightness(&mut self, cmb: u8) -> (r: Result<(), T::Error>)
        ensures
            final(self)@ == old(self)@.push(Exchange::write(0x5e, seq![cmb], r)),
    {
        let data = [cmb];
        assert(data@ =~= seq![cmb]);
        self.write_parameters(0x5e, &data)
    }

    /// Reads the CABC minimum brightness (opcode 0x5f): reads one byte.
    pub fn read_cabc_minimum_brightness(&mut self) -> (r: Result<u8, T::Error>)
        ensures
            read_issued(old(self)@, final(self)@, 0x5f, 1),
            reports(r, final(self)@.last().outcome, |v: u8| v == final(self)@.last().response[0]),
    {
        let mut result = [0u8; 1];
        match self.read_parameters(0x5f, &mut result) {
            Ok(()) => Ok(result[0]),
            Err(e) => Err(e),
        }
    }

    /// Reads ID1 (opcode 0xda): reads one byte.
    pub fn read_id1(&mut self) -> (r: Result<u8, T::Error>)
        ensures
            read_issued(old(self)@, final(self)@, 0xda, 1),
            reports(r, final(self)@.last().outcome, |v: u8| v == final(self)@.last().response[0]),
    {
        let mut result = [0u8; 1];
        match self.read_parameters(0xda, &mut result) {
            Ok(()) => Ok(result[0]),
            Err(e) => Err(e),
        }
    }

    /// Reads ID2 (opcode 0xdb): reads one byte.
    pub fn read_id2(&mut self) -> (r: Result<u8, T::Error>)
        ensures
            read_issued(old(self)@, final(self)@, 0xdb, 1),
            reports(r, final(self)@.last().outcome, |v: u8| v == final(self)@.last().response[0]),
    {
        let mut result = [0u8; 1];
        match self.read_parameters(0xdb, &mut result) {
            Ok(()) => Ok(result[0]),
            Err(e) => Err(e),
        }
    }

    /// Reads ID3 (opcode 0xdc): reads one byte.
    pub fn read_id3(&mut self) -> (r: Result<u8, T::Error>)
        ensures
            read_issued(old(self)@, final(self)@, 0xdc, 1),
            reports(r, final(self)@.last().outcome, |v: u8| v == final(self)@.last().response[0]),
    {
        let mut result = [0u8; 1];
        match self.read_parameters(0xdc, &mut result) {
            Ok(()) => Ok(result[0]),
            Err(e) => Err(e),
        }
    }
}

} // verus!
