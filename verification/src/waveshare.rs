//! Driver core for the ST7789-based display, modelled by the sequence of
//! command writes it issues: each entry is the command byte and its
//! argument bytes, in the order they must go out on the bus.  The
//! surrounding application drains this queue to the SPI bus and handles the
//! reset line and delays.

use vstd::prelude::*;

verus! {

/// Commands of the ST7789 display controller used by this driver.
#[derive(Clone, Copy, PartialEq, Eq, Structural, Debug)]
pub enum DisplayCommand {
    /// Sleep Out
    SLPOUT,
    /// Display Inversion On
    INVON,
    /// Display On
    DISPON,
    /// Column Address Set
    CASET,
    /// Row Address Set
    RASET,
    /// Memory Write
    RAMWR,
    /// Memory Data Access Control
    MADCTL,
    /// Interface Pixel Format
    COLMOD,
    /// Porch Setting
    PORCTRL,
    /// Gate Control
    GCTRL,
    /// VCOM Setting
    VCOMS,
    /// LCM Control
    LCMCTRL,
    /// VDV and VRH Command Enable
    VDVVRHEN,
    /// VRH Set
    VRHS,
    /// VDV Set
    VDVS,
    /// Frame Rate Control in Normal Mode
    FRCTRL2,
    /// Power Control 1
    PWCTRL1,
    /// Positive Voltage Gamma Control
    PVGAMCTRL,
    /// Negative Voltage Gamma Control
    NVGAMCTRL,
}

/// The byte a command goes out as.
pub open spec fn spec_command_byte(c: DisplayCommand) -> u8 {
    match c {
        DisplayCommand::SLPOUT => 0x11,
        DisplayCommand::INVON => 0x21,
        DisplayCommand::DISPON => 0x29,
        DisplayCommand::CASET => 0x2A,
        DisplayCommand::RASET => 0x2B,
        DisplayCommand::RAMWR => 0x2C,
        DisplayCommand::MADCTL => 0x36,
        DisplayCommand::COLMOD => 0x3A,
        DisplayCommand::PORCTRL => 0xB2,
        DisplayCommand::GCTRL => 0xB7,
        DisplayCommand::VCOMS => 0xBB,
        DisplayCommand::LCMCTRL => 0xC0,
        DisplayCommand::VDVVRHEN => 0xC2,
        DisplayCommand::VRHS => 0xC3,
        DisplayCommand::VDVS => 0xC4,
        DisplayCommand::FRCTRL2 => 0xC6,
        DisplayCommand::PWCTRL1 => 0xD0,
        DisplayCommand::PVGAMCTRL => 0xE0,
        DisplayCommand::NVGAMCTRL => 0xE1,
    }
}

/// The byte a command goes out as.
pub fn command_byte(c: DisplayCommand) -> (r: u8)
    ensures
        r == spec_command_byte(c),
{
    match c {
        DisplayCommand::SLPOUT => 0x11,
        DisplayCommand::INVON => 0x21,
        DisplayCommand::DISPON => 0x29,
        DisplayCommand::CASET => 0x2A,
        DisplayCommand::RASET => 0x2B,
        DisplayCommand::RAMWR => 0x2C,
        DisplayCommand::MADCTL => 0x36,
        DisplayCommand::COLMOD => 0x3A,
        DisplayCommand::PORCTRL => 0xB2,
        DisplayCommand::GCTRL => 0xB7,
        DisplayCommand::VCOMS => 0xBB,
        DisplayCommand::LCMCTRL => 0xC0,
        DisplayCommand::VDVVRHEN => 0xC2,
        DisplayCommand::VRHS => 0xC3,
        DisplayCommand::VDVS => 0xC4,
        DisplayCommand::FRCTRL2 => 0xC6,
        DisplayCommand::PWCTRL1 => 0xD0,
        DisplayCommand::PVGAMCTRL => 0xE0,
        DisplayCommand::NVGAMCTRL => 0xE1,
    }
}

/// Ways driving the display can fail.  In this model the bus and the
/// control pins are represented by the command queue, which cannot fail,
/// so every operation reports success; the type remains for the driver's
/// interface.
#[derive(Clone, Copy, PartialEq, Eq, Structural, Debug)]
pub enum DisplayError {
    /// Error on the SPI bus.
    BusError,
    /// Error while setting the chip-select pin.
    CsError,
    /// Error while setting the data/command pin.
    DcError,
    /// Error while setting the reset pin.
    RstError,
}

/// One command write: the command byte and its argument bytes.
pub struct DisplayOp {
    /// The command byte.
    pub command: u8,
    /// The argument bytes, sent after the command byte.
    pub args: Vec<u8>,
}

/// Big-endian bytes of a 16-bit coordinate.
pub open spec fn spec_be_bytes(v: u16) -> Seq<u8> {
    seq![(v / 256) as u8, (v % 256) as u8]
}

/// A sequence of `n` zero bytes.
pub open spec fn spec_zero_bytes(n: nat) -> Seq<u8> {
    Seq::new(n, |i: int| 0u8)
}

/// Group `g` of a sequence of command writes laid out in threes after a
/// common prefix of length `base`.
pub open spec fn spec_op_group(s: Seq<(u8, Seq<u8>)>, base: int, g: int) -> Seq<(u8, Seq<u8>)> {
    s.subrange(base + 3 * g, base + 3 * g + 3)
}

/// The three command writes of one partial framebuffer write: a column
/// window, a row window displaced by the panel's 80-row offset, and the
/// pixel data.
pub open spec fn spec_fb_partial_ops(
    xstart: u16,
    ystart: u16,
    xend: u16,
    yend: u16,
    fb: Seq<u8>,
) -> Seq<(u8, Seq<u8>)> {
    seq![
        (0x2Au8, spec_be_bytes(xstart) + spec_be_bytes(xend)),
        (0x2Bu8, spec_be_bytes((ystart + 80) as u16) + spec_be_bytes((yend + 80) as u16)),
        (0x2Cu8, fb),
    ]
}

/// The command writes of the controller initialization sequence, in order.
pub open spec fn spec_init_ops() -> Seq<(u8, Seq<u8>)> {
    seq![
        (0x36u8, seq![0x00u8]),
        (0x3Au8, seq![0x55u8]),
        (0xB2u8, seq![0x0Cu8, 0x0C, 0x00, 0x33, 0x33]),
        (0xB7u8, seq![0x35u8]),
        (0xBBu8, seq![0x19u8]),
        (0xC0u8, seq![0x60u8]),
        (0xC2u8, seq![0x01u8]),
        (0xC3u8, seq![0x12u8]),
        (0xC4u8, seq![0x20u8]),
        (0xC6u8, seq![0x0Fu8]),
        (0xD0u8, seq![0xA4u8, 0xA1]),
        (
            0xE0u8,
            seq![0xD0u8, 0x04, 0x0D, 0x11, 0x13, 0x2B, 0x3F, 0x54, 0x4C, 0x18, 0x0D, 0x0B, 0x1F,
                0x23],
        ),
        (
            0xE1u8,
            seq![0xD0u8, 0x04, 0x0C, 0x11, 0x13, 0x2C, 0x3F, 0x44, 0x51, 0x2F, 0x1F, 0x1F, 0x20,
                0x23],
        ),
        (0x21u8, Seq::<u8>::empty()),
        (0x11u8, Seq::<u8>::empty()),
        (0x29u8, Seq::<u8>::empty()),
    ]
}

/// Driver for the ST7789 controller, as the sequence of command writes it
/// has issued and not yet had drained to the bus.
pub struct WaveshareDisplay {
    /// Command writes in issue order.
    pub ops: Vec<DisplayOp>,
}

impl WaveshareDisplay {
    /// The issued command writes as pairs of command byte and argument
    /// bytes.
    pub open spec fn ops_view(self) -> Seq<(u8, Seq<u8>)> {
        self.ops@.map_values(|op: DisplayOp| (op.command, op.args@))
    }

    /// A fresh driver with nothing issued yet.
    pub fn new() -> (r: Self)
        ensures
            r.ops_view() =~= Seq::<(u8, Seq<u8>)>::empty(),
    {
        WaveshareDisplay { ops: Vec::new() }
    }

    /// Issue one command write.
    pub(crate) fn send_command(&mut self, command: DisplayCommand, args: &[u8]) -> (r: Result<
        (),
        DisplayError,
    >)
        ensures
            r is Ok,
            final(self).ops_view() =~= old(self).ops_view().push(
                (spec_command_byte(command), args@),
            ),
    {
        let mut arg_vec: Vec<u8> = Vec::new();
        let n = args.len();
        let mut i: usize = 0;
        while i < n
            invariant
                n == args@.len(),
                i <= n,
                arg_vec@ =~= args@.take(i as int),
            decreases n - i,
        {
            arg_vec.push(args[i]);
            proof {
                assert(arg_vec@ =~= args@.take(i + 1));
            }
            i += 1;
        }
        proof {
            assert(arg_vec@ =~= args@);
        }
        self.ops.push(DisplayOp { command: command_byte(command), args: arg_vec });
        Ok(())
    }

    /// Configure the controller after a hard reset: pixel format, voltages,
    /// gamma tables, inversion, then sleep-out and display-on.  The caller
    /// performs the hard reset itself before draining these writes.
    pub fn initialize(&mut self) -> (r: Result<(), DisplayError>)
        ensures
            r is Ok,
            final(self).ops_view() =~~= old(self).ops_view() + spec_init_ops(),
    {
        // Pixel and color access order.
        self.send_command(DisplayCommand::MADCTL, &[0x00])?;
        // 16-bit pixel format.
        self.send_command(DisplayCommand::COLMOD, &[0x55])?;
        // Porch settings.
        self.send_command(DisplayCommand::PORCTRL, &[0x0C, 0x0C, 0x00, 0x33, 0x33])?;
        // VGH = 13.26 V; VGL = -10.43 V.
        self.send_command(DisplayCommand::GCTRL, &[0x35])?;
        // VCOM = 0.725 V.
        self.send_command(DisplayCommand::VCOMS, &[0x19])?;
        // LCM control: XBGR with XMY mirroring.
        self.send_command(DisplayCommand::LCMCTRL, &[0x60])?;
        // VAP = 4.45 V; VAN = -4.45 V; VDV = 0 V.
        self.send_command(DisplayCommand::VDVVRHEN, &[0x01])?;
        self.send_command(DisplayCommand::VRHS, &[0x12])?;
        self.send_command(DisplayCommand::VDVS, &[0x20])?;
        // 60 Hz frame rate.
        self.send_command(DisplayCommand::FRCTRL2, &[0x0F])?;
        // Power control: AVDD = 6.8 V, AVCL = -4.8 V, VDS = 2.3 V.
        self.send_command(DisplayCommand::PWCTRL1, &[0xA4, 0xA1])?;
        // Positive and negative gamma voltage control tables.
        self.send_command(
            DisplayCommand::PVGAMCTRL,
            &[
                0xD0,
                0x04,
                0x0D,
                0x11,
                0x13,
                0x2B,
                0x3F,
                0x54,
                0x4C,
                0x18,
                0x0D,
                0x0B,
                0x1F,
                0x23,
            ],
        )?;
        self.send_command(
            DisplayCommand::NVGAMCTRL,
            &[
                0xD0,
                0x04,
                0x0C,
                0x11,
                0x13,
                0x2C,
                0x3F,
                0x44,
                0x51,
                0x2F,
                0x1F,
                0x1F,
                0x20,
                0x23,
            ],
        )?;
        // Invert the display.
        self.send_command(DisplayCommand::INVON, &[])?;
        // Exit sleep.
        self.send_command(DisplayCommand::SLPOUT, &[])?;
        // Turn the display on.
        self.send_command(DisplayCommand::DISPON, &[])?;
        Ok(())
    }

    /// Write pixel data to the window `xstart..=xend` by `ystart..=yend`.
    /// The panel's visible rows start 80 rows into the controller's RAM, so
    /// the row window goes out displaced by 80.
    pub fn write_fb_partial(
        &mut self,
        xstart: u16,
        ystart: u16,
        xend: u16,
        yend: u16,
        fb: &[u8],
    ) -> (r: Result<(), DisplayError>)
        requires
            ystart + 80 <= u16::MAX,
            yend + 80 <= u16::MAX,
        ensures
            r is Ok,
            final(self).ops_view() =~= old(self).ops_view() + spec_fb_partial_ops(
                xstart,
                ystart,
                xend,
                yend,
                fb@,
            ),
    {
        let colstart = xstart;
        let colend = xend;
        let caset_args: [u8; 4] = [
            (colstart / 256) as u8,
            (colstart % 256) as u8,
            (colend / 256) as u8,
            (colend % 256) as u8,
        ];
        proof {
            assert(caset_args@ =~= spec_be_bytes(xstart) + spec_be_bytes(xend));
        }
        self.send_command(DisplayCommand::CASET, caset_args.as_slice())?;

        let rowstart = ystart + 80;
        let rowend = yend + 80;
        let raset_args: [u8; 4] = [
            (rowstart / 256) as u8,
            (rowstart % 256) as u8,
            (rowend / 256) as u8,
            (rowend % 256) as u8,
        ];
        proof {
            assert(raset_args@ =~= spec_be_bytes((ystart + 80) as u16) + spec_be_bytes(
                (yend + 80) as u16,
            ));
        }
        self.send_command(DisplayCommand::RASET, raset_args.as_slice())?;

        self.send_command(DisplayCommand::RAMWR, fb)?;
        Ok(())
    }

    /// Write a full 240 by 240 frame.
    pub fn write_fb(&mut self, fb: &[u8]) -> (r: Result<(), DisplayError>)
        ensures
            r is Ok,
            final(self).ops_view() =~= old(self).ops_view() + spec_fb_partial_ops(
                0,
                0,
                239,
                239,
                fb@,
            ),
    {
        self.write_fb_partial(0, 0, 239, 239, fb)
    }

    /// Blank the whole panel, four rows of zero pixels at a time.
    pub fn clear_screen(&mut self) -> (r: Result<(), DisplayError>)
        ensures
            r is Ok,
            final(self).ops_view().len() == old(self).ops_view().len() + 180,
            final(self).ops_view().take(old(self).ops_view().len() as int) =~= old(
                self,
            ).ops_view(),
            forall|g: int|
                0 <= g < 60 ==> spec_op_group(
                    final(self).ops_view(),
                    old(self).ops_view().len() as int,
                    g,
                ) =~= spec_fb_partial_ops(
                    0,
                    (4 * g) as u16,
                    239,
                    (4 * g + 3) as u16,
                    spec_zero_bytes(1920),
                ),
    {
        let ghost base = self.ops_view();
        let mut clearbuf: Vec<u8> = Vec::new();
        let mut i: usize = 0;
        while i < 1920
            invariant
                i <= 1920,
                clearbuf@ =~= spec_zero_bytes(i as nat),
                self.ops_view() == base,
            decreases 1920 - i,
        {
            clearbuf.push(0);
            i += 1;
        }
        let mut row: u16 = 0;
        let mut g: usize = 0;
        while g < 60
            invariant
                g <= 60,
                row == 4 * g,
                clearbuf@ =~= spec_zero_bytes(1920),
                self.ops_view().len() == base.len() + 3 * g,
                self.ops_view().take(base.len() as int) =~= base,
                forall|k: int|
                    0 <= k < g ==> spec_op_group(self.ops_view(), base.len() as int, k)
                        =~= spec_fb_partial_ops(
                        0,
                        (4 * k) as u16,
                        239,
                        (4 * k + 3) as u16,
                        spec_zero_bytes(1920),
                    ),
            decreases 60 - g,
        {
            let ghost prev = self.ops_view();
            self.write_fb_partial(0, row, 239, row + 3, clearbuf.as_slice())?;
            proof {
                let cur = self.ops_view();
                assert(cur.take(base.len() as int) =~= base);
                assert forall|k: int| 0 <= k < g + 1 implies spec_op_group(
                    cur,
                    base.len() as int,
                    k,
                ) =~= spec_fb_partial_ops(
                    0,
                    (4 * k) as u16,
                    239,
                    (4 * k + 3) as u16,
                    spec_zero_bytes(1920),
                ) by {
                    if k < g {
                        assert(spec_op_group(cur, base.len() as int, k) =~= spec_op_group(
                            prev,
                            base.len() as int,
                            k,
                        ));
                    } else {
                        assert(spec_op_group(cur, base.len() as int, k) =~= spec_fb_partial_ops(
                            0,
                            row,
                            239,
                            (row + 3) as u16,
                            clearbuf@,
                        ));
                    }
                }
            }
            row += 4;
            g += 1;
        }
        Ok(())
    }
}

} // verus!
