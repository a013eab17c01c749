//! The packets that the engine hands out, and the cursor that walks them.

use core::marker::PhantomData;
use vstd::prelude::*;

use crate::encoder::SessionState;

verus! {

/// Flag of an encoded frame: the frame is a keyframe.
pub const VPX_FRAME_IS_KEY: u32 = 0x1;

/// Flag of an encoded frame: the frame can be dropped without affecting the stream.
pub const VPX_FRAME_IS_DROPPABLE: u32 = 0x2;

/// Flag of an encoded frame: the frame is decoded but not shown.
pub const VPX_FRAME_IS_INVISIBLE: u32 = 0x4;

/// Flag of an encoded frame: the packet holds a fragment of a frame.
pub const VPX_FRAME_IS_FRAGMENT: u32 = 0x8;

/// Kind of an output packet: a compressed video frame.
pub const VPX_CODEC_CX_FRAME_PKT: u32 = 0;

/// Kind of an output packet: two-pass statistics for the frame.
pub const VPX_CODEC_STATS_PKT: u32 = 1;

/// Kind of an output packet: first-pass statistics of the macroblocks.
pub const VPX_CODEC_FPMB_STATS_PKT: u32 = 2;

/// Kind of an output packet: PSNR statistics for the frame.
pub const VPX_CODEC_PSNR_PKT: u32 = 3;

/// One item of the engine's output queue as the engine describes it. The
/// fields after `kind` are those of a compressed frame and are read only
/// where `kind` says that the packet is one.
#[derive(Clone, Copy, Debug)]
pub struct RawPacket<'encoder> {
    /// The engine's code for what the packet holds.
    pub kind: u32,
    /// The compressed data, owned by the engine.
    pub data: &'encoder [u8],
    /// Presentation timestamp, in units of the session's timebase.
    pub pts: i64,
    /// Duration of the frame, in units of the session's timebase.
    pub duration: u64,
    /// Flags of the frame.
    pub flags: u32,
    /// Number of the partition that the data belongs to.
    pub partition_id: i32,
}

/// What a [`Frame`] stands for.
pub struct FrameView {
    pub data: Seq<u8>,
    pub pts: i64,
    pub duration: u64,
    pub flags: u32,
    pub partition_id: i32,
}

/// A compressed frame. Its data belongs to the engine and stays in place
/// until the session is next encoded to or asked for output.
pub struct Frame<'encoder> {
    data: &'encoder [u8],
    pts: i64,
    duration: u64,
    flags: u32,
    partition_id: i32,
}

impl<'encoder> View for Frame<'encoder> {
    type V = FrameView;

    closed spec fn view(&self) -> FrameView {
        FrameView {
            data: self.data@,
            pts: self.pts,
            duration: self.duration,
            flags: self.flags,
            partition_id: self.partition_id,
        }
    }
}

impl<'encoder> Frame<'encoder> {
    pub fn data(&self) -> (data: &'encoder [u8])
        ensures
            data@ == self@.data,
    {
        self.data
    }

    pub fn is_keyframe(&self) -> (key: bool)
        ensures
            key == (self@.flags & VPX_FRAME_IS_KEY != 0),
    {
        self.flags & VPX_FRAME_IS_KEY != 0
    }

    pub fn is_droppable(&self) -> (droppable: bool)
        ensures
            droppable == (self@.flags & VPX_FRAME_IS_DROPPABLE != 0),
    {
        self.flags & VPX_FRAME_IS_DROPPABLE != 0
    }

    pub fn is_invisible(&self) -> (invisible: bool)
        ensures
            invisible == (self@.flags & VPX_FRAME_IS_INVISIBLE != 0),
    {
        self.flags & VPX_FRAME_IS_INVISIBLE != 0
    }

    pub fn is_fragment(&self) -> (fragment: bool)
        ensures
            fragment == (self@.flags & VPX_FRAME_IS_FRAGMENT != 0),
    {
        self.flags & VPX_FRAME_IS_FRAGMENT != 0
    }

    pub fn pts(&self) -> (pts: i64)
        ensures
            pts == self@.pts,
    {
        self.pts
    }

    pub fn duration(&self) -> (duration: u64)
        ensures
            duration == self@.duration,
    {
        self.duration
    }

    pub fn partition(&self) -> (partition: i32)
        ensures
            partition == self@.partition_id,
    {
        self.partition_id
    }
}

/// What a [`PacketKind`] stands for.
pub enum PacketView {
    EncodedFrame(FrameView),
    Stats,
    FPMB,
    PSNR,
    Unknown,
}

/// One item taken from the output queue of the engine.
pub enum PacketKind<'encoder> {
    EncodedFrame(Frame<'encoder>),
    Stats,
    FPMB,
    PSNR,
    Unknown,
}

impl<'encoder> View for PacketKind<'encoder> {
    type V = PacketView;

    open spec fn view(&self) -> PacketView {
        match self {
            PacketKind::EncodedFrame(frame) => PacketView::EncodedFrame(frame@),
            PacketKind::Stats => PacketView::Stats,
            PacketKind::FPMB => PacketView::FPMB,
            PacketKind::PSNR => PacketView::PSNR,
            PacketKind::Unknown => PacketView::Unknown,
        }
    }
}

/// The item that a packet of the engine is handed out as: a frame with the
/// packet's own fields where the engine calls it a frame, the bare kind for
/// the three kinds of statistics, and `Unknown` for every other code.
pub open spec fn packet_of(raw: RawPacket) -> PacketView {
    if raw.kind == VPX_CODEC_CX_FRAME_PKT {
        PacketView::EncodedFrame(
            FrameView {
                data: raw.data@,
                pts: raw.pts,
                duration: raw.duration,
                flags: raw.flags,
                partition_id: raw.partition_id,
            },
        )
    } else if raw.kind == VPX_CODEC_STATS_PKT {
        PacketView::Stats
    } else if raw.kind == VPX_CODEC_FPMB_STATS_PKT {
        PacketView::FPMB
    } else if raw.kind == VPX_CODEC_PSNR_PKT {
        PacketView::PSNR
    } else {
        PacketView::Unknown
    }
}

impl<'encoder> PacketKind<'encoder> {
    /// The item that a packet of the engine is handed out as.
    pub fn new(raw: RawPacket<'encoder>) -> (item: Self)
        ensures
            item@ == packet_of(raw),
    {
        if raw.kind == VPX_CODEC_CX_FRAME_PKT {
            PacketKind::EncodedFrame(
                Frame {
                    data: raw.data,
                    pts: raw.pts,
                    duration: raw.duration,
                    flags: raw.flags,
                    partition_id: raw.partition_id,
                },
            )
        } else if raw.kind == VPX_CODEC_STATS_PKT {
            PacketKind::Stats
        } else if raw.kind == VPX_CODEC_FPMB_STATS_PKT {
            PacketKind::FPMB
        } else if raw.kind == VPX_CODEC_PSNR_PKT {
            PacketKind::PSNR
        } else {
            PacketKind::Unknown
        }
    }
}

/// A cursor over the output queue of a session. It holds the session for
/// itself as long as it lives: the session can neither be encoded to, nor
/// asked for a second cursor, nor torn down before the cursor is gone, and
/// what the cursor hands out does not outlive it. The cursor starts at the
/// head of the queue and is exhausted once the engine has reported that
/// nothing is left; from then on it hands out nothing more.
pub struct FramesIter<'encoder> {
    at_start: bool,
    exhausted: bool,
    handed_out: Ghost<Seq<PacketView>>,
    _session: PhantomData<&'encoder mut SessionState>,
}

/// The number of compressed frames among `items`.
pub open spec fn frames_in(items: Seq<PacketView>) -> nat
    decreases items.len(),
{
    if items.len() == 0 {
        0
    } else {
        frames_in(items.drop_last()) + if items.last() is EncodedFrame {
            1nat
        } else {
            0nat
        }
    }
}

impl<'encoder> FramesIter<'encoder> {
    /// Whether the cursor still stands at the head of the queue, so that
    /// the engine is to be asked for its first packet and not for the one
    /// after the last.
    pub closed spec fn at_start(&self) -> bool {
        self.at_start
    }

    /// Whether the engine has reported the end of its queue to this cursor.
    pub closed spec fn exhausted(&self) -> bool {
        self.exhausted
    }

    /// The items that the cursor has handed out so far, oldest first.
    pub closed spec fn handed_out(&self) -> Seq<PacketView> {
        self.handed_out@
    }

    /// A cursor at the head of the queue of an active session, which it
    /// holds from now on.
    pub fn new(session: &'encoder mut SessionState) -> (iter: Self)
        requires
            *old(session) == SessionState::Active,
        ensures
            *final(session) == SessionState::Active,
            iter.at_start(),
            !iter.exhausted(),
            iter.handed_out() == Seq::<PacketView>::empty(),
    {
        FramesIter {
            at_start: true,
            exhausted: false,
            handed_out: Ghost(Seq::empty()),
            _session: PhantomData,
        }
    }

    /// Whether the engine is to be asked for the first packet of its queue.
    pub fn is_at_start(&self) -> (first: bool)
        ensures
            first == self.at_start(),
    {
        self.at_start
    }

    /// Whether the cursor has reached the end of the queue. The engine is
    /// asked for its next packet only while it has not.
    pub fn is_exhausted(&self) -> (done: bool)
        ensures
            done == self.exhausted(),
    {
        self.exhausted
    }

    /// Advances the cursor by one step, given what the engine returned when
    /// asked for its next packet: `None` where it had none. A packet is
    /// handed out as the item that its kind calls for, and moves the cursor
    /// off the head of the queue; the end of the queue exhausts the cursor.
    /// An exhausted cursor stays so and hands out nothing, whatever it is
    /// given.
    pub fn next(&mut self, output: Option<RawPacket<'encoder>>) -> (item: Option<
        PacketKind<'encoder>,
    >)
        ensures
            final(self).exhausted() == (old(self).exhausted() || output is None),
            final(self).at_start() == (old(self).at_start() && item is None),
            item is Some <==> !final(self).exhausted(),
            item is Some ==> item->0@ == packet_of(output->0),
            item is Some ==> final(self).handed_out() == old(self).handed_out().push(item->0@),
            item is None ==> final(self).handed_out() == old(self).handed_out(),
    {
        if self.exhausted {
            return None;
        }
        match output {
            None => {
                self.exhausted = true;
                None
            },
            Some(raw) => {
                let item = PacketKind::new(raw);
                self.at_start = false;
                self.handed_out = Ghost(self.handed_out@.push(item@));
                Some(item)
            },
        }
    }
}

/// A cursor hands out one item for each packet that the engine gave it and
/// none besides, so the frames it has handed out are at most as many as
/// the packets it was given: an item more is a frame more exactly when it
/// is a frame, and there are never more frames than items.
pub proof fn lemma_frames_in_bounded(items: Seq<PacketView>, item: PacketView)
    ensures
        frames_in(Seq::<PacketView>::empty()) == 0,
        frames_in(items.push(item)) == frames_in(items) + if item is EncodedFrame {
            1nat
        } else {
            0nat
        },
        frames_in(items) <= items.len(),
    decreases items.len(),
{
    assert(items.push(item).drop_last() == items);
    if items.len() > 0 {
        lemma_frames_in_bounded(items.drop_last(), items.last());
    }
}

} // verus!
