//! Device GUI: the backlight, the per-channel icon regions on the display,
//! and the assembly of icon bitmaps arriving in chunks over the bulk
//! channel.
//!
//! An icon is a fixed-size RGB565 pixel buffer.  Chunks accumulate in a
//! buffer of exactly [`ICON_BYTES`] bytes and are committed to the display
//! only once the whole buffer is filled.

use vstd::prelude::*;

use crate::common::Channel;
use crate::common::ICON_SIZE;
use crate::waveshare::WaveshareDisplay;
use crate::waveshare::spec_fb_partial_ops;
use crate::waveshare::spec_op_group;
use crate::waveshare::spec_zero_bytes;

verus! {

/// Size of an icon bitmap: `ICON_SIZE` squared pixels, two bytes each.
pub const ICON_BYTES: usize = ICON_SIZE * ICON_SIZE * 2;

/// An icon bulk transfer in progress.
#[derive(Clone, Copy, PartialEq, Eq, Structural, Debug)]
pub struct ActiveIconStream {
    /// The channel whose icon region the bitmap is for.
    pub ch: Channel,
    /// How many bytes of the bitmap have arrived so far.
    pub cursor: usize,
}

/// The display region of a channel's icon: left, top, right, bottom,
/// inclusive.  The main channel has no icon region.
pub open spec fn spec_icon_coords(ch: Channel) -> (u16, u16, u16, u16) {
    match ch {
        Channel::Ch1 => (10, 10, 109, 109),
        Channel::Ch2 => (10, 130, 109, 229),
        Channel::Ch3 => (130, 10, 229, 109),
        Channel::Ch4 => (130, 130, 229, 229),
        Channel::Main => arbitrary(),
    }
}

/// The device GUI state: display, backlight, and icon-transfer progress.
pub struct Gui {
    /// The display driver the GUI draws through.
    pub display: WaveshareDisplay,
    /// Whether the backlight is lit.
    pub backlight_on: bool,
    /// Assembly buffer for the icon bitmap currently being transferred;
    /// always exactly [`ICON_BYTES`] long.
    pub icon_buf: Vec<u8>,
    /// The icon transfer in progress, if one is.
    pub active_icon_stream: Option<ActiveIconStream>,
}

impl Gui {
    /// The assembly buffer has its fixed size, and an active transfer
    /// points into it and at a channel with an icon region.
    pub open spec fn wf(self) -> bool {
        self.icon_buf@.len() == ICON_BYTES && match self.active_icon_stream {
            Some(a) => a.cursor <= ICON_BYTES && a.ch != Channel::Main,
            None => true,
        }
    }

    /// A fresh GUI over a display: backlight off, a zeroed assembly
    /// buffer, no transfer in progress.
    pub fn new(display: WaveshareDisplay) -> (r: Self)
        ensures
            r.wf(),
            r.display == display,
            !r.backlight_on,
            r.icon_buf@ =~= spec_zero_bytes(ICON_BYTES as nat),
            r.active_icon_stream is None,
    {
        let mut icon_buf: Vec<u8> = Vec::new();
        let mut i: usize = 0;
        while i < ICON_BYTES
            invariant
                i <= ICON_BYTES,
                icon_buf@ =~= spec_zero_bytes(i as nat),
            decreases ICON_BYTES - i,
        {
            icon_buf.push(0);
            i += 1;
        }
        Gui { display, backlight_on: false, icon_buf, active_icon_stream: None }
    }

    /// Enter the suspended UI mode: the backlight goes dark.  Nothing else
    /// is touched; on resume the host's own updates re-synchronize the UI.
    pub fn suspend(&mut self)
        ensures
            *final(self) == (Gui {
                backlight_on: false,
                ..*old(self)
            }),
    {
        self.backlight_on = false;
    }

    /// Leave the suspended UI mode: the screen is blanked and the
    /// backlight lit again.
    pub fn resume(&mut self)
        ensures
            final(self).backlight_on,
            final(self).icon_buf == old(self).icon_buf,
            final(self).active_icon_stream == old(self).active_icon_stream,
            final(self).display.ops_view().len() == old(self).display.ops_view().len() + 180,
            final(self).display.ops_view().take(old(self).display.ops_view().len() as int)
                =~= old(self).display.ops_view(),
            forall|g: int|
                0 <= g < 60 ==> spec_op_group(
                    final(self).display.ops_view(),
                    old(self).display.ops_view().len() as int,
                    g,
                ) =~= spec_fb_partial_ops(
                    0,
                    (4 * g) as u16,
                    239,
                    (4 * g + 3) as u16,
                    spec_zero_bytes(1920),
                ),
    {
        let _ = self.display.clear_screen();
        self.backlight_on = true;
    }

    /// The display region of a channel's icon: left, top, right, bottom,
    /// inclusive.
    pub fn icon_coords(ch: Channel) -> (r: (u16, u16, u16, u16))
        requires
            ch != Channel::Main,
        ensures
            r == spec_icon_coords(ch),
    {
        match ch {
            Channel::Ch1 => (10, 10, 109, 109),
            Channel::Ch2 => (10, 130, 109, 229),
            Channel::Ch3 => (130, 10, 229, 109),
            _ => (130, 130, 229, 229),
        }
    }

    /// Blank a channel's icon region, four rows of zero pixels at a time:
    /// stale icon data must never remain visible for a channel with no
    /// attached stream.
    pub fn clear_icon(&mut self, ch: Channel)
        requires
            ch != Channel::Main,
        ensures
            final(self).backlight_on == old(self).backlight_on,
            final(self).icon_buf == old(self).icon_buf,
            final(self).active_icon_stream == old(self).active_icon_stream,
            final(self).display.ops_view().len() == old(self).display.ops_view().len() + 75,
            final(self).display.ops_view().take(old(self).display.ops_view().len() as int)
                =~= old(self).display.ops_view(),
            forall|g: int|
                0 <= g < 25 ==> spec_op_group(
                    final(self).display.ops_view(),
                    old(self).display.ops_view().len() as int,
                    g,
                ) =~= spec_fb_partial_ops(
                    spec_icon_coords(ch).0,
                    (spec_icon_coords(ch).1 + 4 * g) as u16,
                    spec_icon_coords(ch).2,
                    (spec_icon_coords(ch).1 + 4 * g + 3) as u16,
                    spec_zero_bytes(800),
                ),
    {
        let (x, y, x2, _) = Self::icon_coords(ch);
        let ghost base = self.display.ops_view();
        let mut clearbuf: Vec<u8> = Vec::new();
        let mut i: usize = 0;
        while i < 800
            invariant
                i <= 800,
                clearbuf@ =~= spec_zero_bytes(i as nat),
                self.display.ops_view() == base,
                self.backlight_on == old(self).backlight_on,
                self.icon_buf == old(self).icon_buf,
                self.active_icon_stream == old(self).active_icon_stream,
            decreases 800 - i,
        {
            clearbuf.push(0);
            i += 1;
        }
        let mut g: usize = 0;
        while g < 25
            invariant
                g <= 25,
                x == spec_icon_coords(ch).0,
                y == spec_icon_coords(ch).1,
                x2 == spec_icon_coords(ch).2,
                ch != Channel::Main,
                clearbuf@ =~= spec_zero_bytes(800),
                self.backlight_on == old(self).backlight_on,
                self.icon_buf == old(self).icon_buf,
                self.active_icon_stream == old(self).active_icon_stream,
                self.display.ops_view().len() == base.len() + 3 * g,
                self.display.ops_view().take(base.len() as int) =~= base,
                forall|k: int|
                    0 <= k < g ==> spec_op_group(self.display.ops_view(), base.len() as int, k)
                        =~= spec_fb_partial_ops(
                        spec_icon_coords(ch).0,
                        (spec_icon_coords(ch).1 + 4 * k) as u16,
                        spec_icon_coords(ch).2,
                        (spec_icon_coords(ch).1 + 4 * k + 3) as u16,
                        spec_zero_bytes(800),
                    ),
            decreases 25 - g,
        {
            let ghost prev = self.display.ops_view();
            let row: u16 = y + 4 * (g as u16);
            let _ = self.display.write_fb_partial(x, row, x2, row + 3, clearbuf.as_slice());
            proof {
                let cur = self.display.ops_view();
                assert(cur.take(base.len() as int) =~= base);
                assert forall|k: int| 0 <= k < g + 1 implies spec_op_group(
                    cur,
                    base.len() as int,
                    k,
                ) =~= spec_fb_partial_ops(
                    spec_icon_coords(ch).0,
                    (spec_icon_coords(ch).1 + 4 * k) as u16,
                    spec_icon_coords(ch).2,
                    (spec_icon_coords(ch).1 + 4 * k + 3) as u16,
                    spec_zero_bytes(800),
                ) by {
                    if k < g {
                        assert(spec_op_group(cur, base.len() as int, k) =~= spec_op_group(
                            prev,
                            base.len() as int,
                            k,
                        ));
                    } else {
                        assert(spec_op_group(cur, base.len() as int, k) =~= spec_fb_partial_ops(
                            x,
                            row,
                            x2,
                            (row + 3) as u16,
                            clearbuf@,
                        ));
                    }
                }
            }
            g += 1;
        }
    }

    /// Announce that an icon bitmap for this channel is about to arrive
    /// over the bulk channel; assembly starts at the beginning of the
    /// buffer.
    pub fn start_icon_stream(&mut self, ch: Channel)
        requires
            old(self).wf(),
            ch != Channel::Main,
        ensures
            final(self).wf(),
            *final(self) == (Gui {
                active_icon_stream: Some(ActiveIconStream { ch, cursor: 0 }),
                ..*old(self)
            }),
    {
        self.active_icon_stream = Some(ActiveIconStream { ch, cursor: 0 });
    }

    /// Whether an icon transfer is in progress, so bulk data should be
    /// polled for.
    pub fn icon_stream_active(&self) -> (r: bool)
        ensures
            r == (self.active_icon_stream is Some),
    {
        self.active_icon_stream.is_some()
    }

    /// How many bytes of the active icon transfer are still missing.
    pub fn icon_remaining(&self) -> (r: usize)
        requires
            self.wf(),
            self.active_icon_stream is Some,
        ensures
            r == ICON_BYTES - self.active_icon_stream->0.cursor,
    {
        match &self.active_icon_stream {
            Some(a) => ICON_BYTES - a.cursor,
            None => 0,
        }
    }

    /// Accept newly received bulk bytes of the active icon transfer, if
    /// one is active.  Once the buffer is full, the bitmap is committed to
    /// the channel's icon region in a single write and the transfer ends.
    pub fn try_push_icon_data_if_active(&mut self, data: &[u8])
        requires
            old(self).wf(),
            old(self).active_icon_stream matches Some(a) ==> data@.len() <= ICON_BYTES - a.cursor,
        ensures
            final(self).wf(),
            final(self).backlight_on == old(self).backlight_on,
            match old(self).active_icon_stream {
                None => *final(self) == *old(self),
                Some(a) => {
                    let newcur = (a.cursor + data@.len()) as usize;
                    &&& final(self).icon_buf@ =~= old(self).icon_buf@.subrange(0, a.cursor as int)
                        + data@ + old(self).icon_buf@.subrange(newcur as int, ICON_BYTES as int)
                    &&& if newcur < ICON_BYTES {
                        final(self).active_icon_stream == Some(
                            ActiveIconStream { ch: a.ch, cursor: newcur },
                        ) && final(self).display == old(self).display
                    } else {
                        final(self).active_icon_stream is None && final(self).display.ops_view()
                            =~= old(self).display.ops_view() + spec_fb_partial_ops(
                            spec_icon_coords(a.ch).0,
                            spec_icon_coords(a.ch).1,
                            spec_icon_coords(a.ch).2,
                            spec_icon_coords(a.ch).3,
                            final(self).icon_buf@,
                        )
                    }
                },
            },
    {
        let (ch, cursor) = match &self.active_icon_stream {
            Some(a) => (a.ch, a.cursor),
            None => {
                return ;
            }
        };

        let ghost buf0 = self.icon_buf@;
        let ghost disp0 = self.display;
        let ghost stream0 = self.active_icon_stream;
        let ghost bl0 = self.backlight_on;
        let n = data.len();
        let mut k: usize = 0;
        while k < n
            invariant
                n == data@.len(),
                k <= n,
                cursor + n <= ICON_BYTES,
                buf0.len() == ICON_BYTES,
                self.icon_buf@.len() == ICON_BYTES,
                self.display == disp0,
                self.backlight_on == bl0,
                self.active_icon_stream == stream0,
                self.icon_buf@ =~= buf0.subrange(0, cursor as int) + data@.take(
                    k as int,
                ) + buf0.subrange((cursor + k) as int, ICON_BYTES as int),
            decreases n - k,
        {
            self.icon_buf.set(cursor + k, data[k]);
            proof {
                assert(self.icon_buf@ =~= buf0.subrange(0, cursor as int)
                    + data@.take(k + 1) + buf0.subrange(
                    (cursor + k + 1) as int,
                    ICON_BYTES as int,
                ));
            }
            k += 1;
        }
        proof {
            assert(data@.take(n as int) =~= data@);
        }

        let newcur = cursor + n;
        if newcur < ICON_BYTES {
            self.active_icon_stream = Some(ActiveIconStream { ch, cursor: newcur });
        } else {
            let (x1, y1, x2, y2) = Self::icon_coords(ch);
            let _ = self.display.write_fb_partial(x1, y1, x2, y2, self.icon_buf.as_slice());
            self.active_icon_stream = None;
        }
    }
}

} // verus!
