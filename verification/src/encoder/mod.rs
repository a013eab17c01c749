//! Common video encoder functions for VP8/VP9 codecs.

use core::marker::PhantomData;
use vstd::prelude::*;
use vstd::std_specs::convert::{FromSpec, FromSpecImpl, IntoSpec};

use crate::error::{check_err, error_of_status, CodecError, VPXResult, VPX_CODEC_OK};
use crate::image::Image;

pub use self::config::{CodecFlags, EncoderConfig, Settings};
pub use self::frame::{Frame, FramesIter, PacketKind, RawPacket};

pub mod config;
pub mod frame;
pub mod vp8;
pub mod vp9;

verus! {

/// Frame directive understood by every codec: make this frame a keyframe.
pub const VPX_EFLAG_FORCE_KF: i64 = 0x1;

/// Effort budget of the engine, in microseconds: work in real time.
pub const VPX_DL_REALTIME: u64 = 1;

/// Effort budget of the engine, in microseconds: aim at good quality.
pub const VPX_DL_GOOD_QUALITY: u64 = 1000000;

/// Effort budget of the engine: take whatever time the best quality takes.
pub const VPX_DL_BEST_QUALITY: u64 = 0;

/// The entry points of the engine, one for each codec.
#[derive(Clone, Copy, Debug, PartialEq, Eq, Structural)]
pub enum CodecInterface {
    /// The VP8 encoder.
    VP8,
    /// The VP9 encoder.
    VP9,
}

/// This trait has to be implemented by every codec which can be used by libvpx library.
pub trait VpxEncoder {
    /// Codec specific frame flags. The set of encoding flags differs between VP8 and VP9.
    type FrameFlags: Into<i64> + Default;

    /// The entry point of the codec.
    spec fn codec() -> CodecInterface;

    /// Returns the entry point of the codec inside the engine.
    fn interface() -> (iface: CodecInterface)
        ensures
            iface == Self::codec(),
    ;
}

/// Whole seconds of the longest [`Duration`], which is `i64::MAX`
/// milliseconds.
pub const MAX_SECONDS: i64 = 9223372036854775;

/// Whole seconds, counted downward, of the shortest [`Duration`], which is
/// `i64::MIN` milliseconds.
pub const MIN_SECONDS: i64 = -9223372036854776;

/// A span of time with nanosecond precision, possibly negative: a number of
/// whole seconds and the nanoseconds to add to them. It lies between
/// `i64::MIN` and `i64::MAX` milliseconds.
#[derive(Clone, Copy, Debug)]
pub struct Duration {
    secs: i64,
    nanos: u32,
}

/// Whether a span of `nanoseconds` lies between `i64::MIN` and `i64::MAX`
/// milliseconds, the range of a [`Duration`].
pub open spec fn in_duration_range(nanoseconds: int) -> bool {
    i64::MIN * 1_000_000 <= nanoseconds <= i64::MAX * 1_000_000
}

/// The whole microseconds in a span of `nanoseconds`, rounded toward zero.
pub open spec fn whole_microseconds(nanoseconds: int) -> int {
    if nanoseconds >= 0 {
        nanoseconds / 1000
    } else {
        -((-nanoseconds) / 1000)
    }
}

/// The whole microseconds in a span of `nanoseconds` where an `i64` can hold
/// them, nothing where it cannot.
pub open spec fn checked_microseconds(nanoseconds: int) -> Option<i64> {
    let micros = whole_microseconds(nanoseconds);
    if i64::MIN <= micros <= i64::MAX {
        Some(micros as i64)
    } else {
        None
    }
}

/// `time::Duration::num_microseconds`, on the duration that
/// `time::Duration::milliseconds` and `time::Duration::nanoseconds` make of
/// the two parts and `+` joins. The contract claims what the method's
/// documentation says: the result is the total number of whole
/// microseconds, rounded toward zero, or nothing where that number
/// overflows an `i64`. With less than a millisecond of nanoseconds the sum
/// carries nothing over, and none of the calls panics.
#[verifier::external_body]
fn time_num_microseconds(millis: i64, nanos: u32) -> (micros: Option<i64>)
    requires
        nanos < 1_000_000,
    ensures
        micros == checked_microseconds(millis * 1_000_000 + nanos),
{
    let whole = time::Duration::milliseconds(millis);
    let part = time::Duration::nanoseconds(i64::from(nanos));
    (whole + part).num_microseconds()
}

impl Duration {
    #[verifier::type_invariant]
    spec fn in_range(self) -> bool {
        self.nanos < 1_000_000_000 && in_duration_range(self.secs * 1_000_000_000 + self.nanos)
    }

    /// The span as a number of nanoseconds.
    pub closed spec fn nanoseconds(self) -> int {
        self.secs * 1_000_000_000 + self.nanos
    }

    /// The span of `seconds` whole seconds and `nanoseconds` nanoseconds
    /// more, where `nanoseconds` is less than a second and the span lies
    /// between `i64::MIN` and `i64::MAX` milliseconds; nothing otherwise.
    pub fn new(seconds: i64, nanoseconds: u32) -> (span: Option<Duration>)
        ensures
            span is Some <==> nanoseconds < 1_000_000_000 && in_duration_range(
                seconds * 1_000_000_000 + nanoseconds,
            ),
            span is Some ==> span->0.nanoseconds() == seconds * 1_000_000_000 + nanoseconds,
    {
        if nanoseconds < 1_000_000_000 && (seconds > MIN_SECONDS || (seconds == MIN_SECONDS
            && nanoseconds >= 192_000_000)) && (seconds < MAX_SECONDS || (seconds == MAX_SECONDS
            && nanoseconds <= 807_000_000)) {
            Some(Duration { secs: seconds, nanos: nanoseconds })
        } else {
            None
        }
    }

    /// Returns the total number of whole microseconds in the duration,
    /// or `None` on overflow (exceeding 2<sup>63</sup> microseconds in either direction).
    pub fn num_microseconds(&self) -> (micros: Option<i64>)
        ensures
            micros == checked_microseconds(self.nanoseconds()),
    {
        proof {
            use_type_invariant(self);
        }
        let whole: u32 = self.nanos / 1_000_000;
        let part: u32 = self.nanos % 1_000_000;
        let millis: i64 = if self.secs < 0 {
            (self.secs + 1) * 1000 - (1000 - whole as i64)
        } else {
            self.secs * 1000 + whole as i64
        };
        assert(millis * 1_000_000 + part == self.secs * 1_000_000_000 + self.nanos);
        time_num_microseconds(millis, part)
    }
}

/// Soft realtime deadline parameters for libvpx encoder.
pub enum Deadline {
    Realtime,
    GoodQuality,
    BestQuality,
    Custom(Duration),
}

impl Deadline {
    /// The effort budget that the engine is given for this deadline: the
    /// engine's constant for each of the three presets, and for a custom
    /// span its count of whole microseconds. A span that is no such budget,
    /// because it is negative or an `i64` cannot hold its count, gets the
    /// constant of the best quality.
    pub open spec fn budget(self) -> int {
        match self {
            Deadline::Realtime => VPX_DL_REALTIME as int,
            Deadline::GoodQuality => VPX_DL_GOOD_QUALITY as int,
            Deadline::BestQuality => VPX_DL_BEST_QUALITY as int,
            Deadline::Custom(duration) => match checked_microseconds(duration.nanoseconds()) {
                Some(micros) => if micros >= 0 {
                    micros as int
                } else {
                    VPX_DL_BEST_QUALITY as int
                },
                None => VPX_DL_BEST_QUALITY as int,
            },
        }
    }
}

impl From<Deadline> for u64 {
    /// The effort budget of a deadline.
    fn from(deadline: Deadline) -> (budget: u64) {
        match deadline {
            Deadline::Realtime => VPX_DL_REALTIME,
            Deadline::GoodQuality => VPX_DL_GOOD_QUALITY,
            Deadline::BestQuality => VPX_DL_BEST_QUALITY,
            Deadline::Custom(duration) => match duration.num_microseconds() {
                Some(micros) => if micros >= 0 {
                    micros as u64
                } else {
                    VPX_DL_BEST_QUALITY
                },
                None => VPX_DL_BEST_QUALITY,
            },
        }
    }
}

impl FromSpecImpl<Deadline> for u64 {
    open spec fn obeys_from_spec() -> bool {
        true
    }

    open spec fn from_spec(deadline: Deadline) -> u64 {
        deadline.budget() as u64
    }
}

/// Where a session stands between its creation and the release of its
/// engine handle.
#[derive(Clone, Copy, Debug, PartialEq, Eq, Structural)]
pub enum SessionState {
    /// Frames are encoded and packets taken out.
    Active,
    /// The end of the stream was signalled; the engine's status is awaited.
    Flushing,
    /// The engine accepted the end of the stream; its queue is being emptied.
    Draining,
    /// The queue is empty: the handle is to be released, and nothing else.
    Disposed,
    /// The engine refused the end of the stream. The handle can no longer
    /// be trusted and teardown is not tried again.
    Failed,
}

/// What the engine's initialisation is called with.
#[derive(Clone, Copy, Debug, PartialEq, Eq, Structural)]
pub struct InitCall {
    /// Entry point of the codec.
    pub interface: CodecInterface,
    /// Values of the configuration record.
    pub config: Settings,
    /// Bit mask of the session's options.
    pub flags: i64,
}

/// What the engine's encode operation is called with.
pub struct EncodeCall<'image, 'data> {
    /// The frame to encode; none signals the end of the stream.
    pub image: Option<&'image Image<'data>>,
    /// Presentation timestamp, in units of the session's timebase.
    pub pts: i64,
    /// Duration of the frame, in units of the session's timebase.
    pub duration: u64,
    /// Bit mask of the frame's directives.
    pub flags: i64,
    /// Effort budget in microseconds.
    pub deadline: u64,
}

/// The configuration that a session is created with: the caller's where
/// there is one, the codec's defaults otherwise.
pub open spec fn chosen_config<Enc>(
    config: Option<EncoderConfig<Enc>>,
    defaults: VPXResult<EncoderConfig<Enc>>,
) -> VPXResult<Settings> {
    match config {
        Some(config) => Ok(config@),
        None => match defaults {
            Ok(config) => Ok(config@),
            Err(e) => Err(e),
        },
    }
}

/// The options that a session is created with: the caller's where there
/// are any, none set otherwise.
pub open spec fn chosen_flags(flags: Option<CodecFlags>) -> int {
    match flags {
        Some(flags) => flags.mask(),
        None => 0,
    }
}

/// An instance of libvpx-based encoder, you have to specify which codec you want to use, current
/// the supported encoders are: `Encoder<VP8>`, `Encoder<VP9>`.
///
/// The instance follows the session through its life and decides what the
/// engine is called with and what its answers mean; the calls themselves
/// are made by the owner of the engine handle.
pub struct Encoder<Enc: VpxEncoder> {
    state: SessionState,
    _phantom: PhantomData<Enc>,
}

impl<Enc: VpxEncoder> Encoder<Enc> {
    /// Where the session stands.
    pub closed spec fn state(&self) -> SessionState {
        self.state
    }

    /// Where the session stands.
    pub fn current_state(&self) -> (state: SessionState)
        ensures
            state == self.state(),
    {
        self.state
    }

    /// Decides what the engine is initialised with, given the configurations given by the user.
    /// In case if the configurations are not explicitly specified, the default configuration
    /// will be used: `defaults` is the answer to the query for it, and its
    /// error is returned where it is needed and the query failed.
    pub fn init_call(
        config: Option<EncoderConfig<Enc>>,
        defaults: VPXResult<EncoderConfig<Enc>>,
        flags: Option<CodecFlags>,
    ) -> (call: VPXResult<InitCall>)
        ensures
            match chosen_config(config, defaults) {
                Ok(settings) => call == Ok::<InitCall, CodecError>(
                    InitCall {
                        interface: Enc::codec(),
                        config: settings,
                        flags: chosen_flags(flags) as i64,
                    },
                ),
                Err(e) => call == Err::<InitCall, CodecError>(e),
            },
    {
        let iface = Enc::interface();
        let config = match config {
            Some(config) => config,
            None => match defaults {
                Ok(config) => config,
                Err(e) => {
                    return Err(e);
                },
            },
        };
        let flags = match flags {
            Some(flags) => flags,
            None => CodecFlags::default(),
        };
        Ok(InitCall { interface: iface, config: Settings::from(config), flags: i64::from(flags) })
    }

    /// Creates a new encoder from the status that the engine's
    /// initialisation returned: an active session where it reported
    /// success, its error otherwise.
    pub fn new(status: u32) -> (res: VPXResult<Self>)
        ensures
            status == VPX_CODEC_OK ==> res is Ok && res->Ok_0.state() == SessionState::Active,
            status != VPX_CODEC_OK ==> res is Err && res->Err_0 == error_of_status(status),
    {
        match check_err(status) {
            Ok(_) => Ok(Encoder { state: SessionState::Active, _phantom: PhantomData }),
            Err(e) => Err(e),
        }
    }

    /// Decides what the engine's encode operation is called with for a
    /// single frame. Refer to `vpx_codec_encode()` to get more info about each parameter.
    pub fn encode<'image, 'data>(
        &mut self,
        image: &'image Image<'data>,
        pts: i64,
        duration: u64,
        flags: Enc::FrameFlags,
        deadline: Deadline,
    ) -> (call: EncodeCall<'image, 'data>)
        requires
            old(self).state() == SessionState::Active,
        ensures
            final(self).state() == SessionState::Active,
            call.image == Some(image),
            call.pts == pts,
            call.duration == duration,
            Enc::FrameFlags::obeys_into_spec() ==> call.flags == flags.into_spec(),
            call.deadline == deadline.budget(),
    {
        EncodeCall {
            image: Some(image),
            pts,
            duration,
            flags: flags.into(),
            deadline: u64::from(deadline),
        }
    }

    /// Reads the status that the engine's encode operation returned for a
    /// frame: fails in case if the encoding could not be done.
    pub fn encoded(&self, status: u32) -> (res: VPXResult<()>)
        ensures
            status == VPX_CODEC_OK ==> res is Ok,
            status != VPX_CODEC_OK ==> res == Err::<(), CodecError>(error_of_status(status)),
    {
        match check_err(status) {
            Ok(_) => Ok(()),
            Err(e) => Err(e),
        }
    }

    /// Returns a frame iterator which can be used to iterate over encoded frames so far. You can
    /// call this function directly after `encode()`, but you are not obliged to. You cannot call
    /// any encoding functions while you own a frame iterator: it holds the
    /// session until it is gone.
    pub fn frames_iter<'encoder>(&'encoder mut self) -> (iter: FramesIter<'encoder>)
        requires
            old(self).state() == SessionState::Active,
        ensures
            final(self).state() == SessionState::Active,
            iter.at_start(),
            !iter.exhausted(),
            iter.handed_out() == Seq::<frame::PacketView>::empty(),
    {
        FramesIter::new(&mut self.state)
    }

    /// Begins the teardown of the session: decides the call that signals
    /// the end of the stream to the engine, which carries no image.
    pub fn flush(&mut self) -> (call: EncodeCall<'static, 'static>)
        requires
            old(self).state() == SessionState::Active,
        ensures
            final(self).state() == SessionState::Flushing,
            call.image is None,
            call.pts == -1,
            call.duration == 1,
            call.flags == 0,
            call.deadline == VPX_DL_GOOD_QUALITY,
    {
        self.state = SessionState::Flushing;
        EncodeCall {
            image: None,
            pts: -1,
            duration: 1,
            flags: 0,
            deadline: u64::from(Deadline::GoodQuality),
        }
    }

    /// Reads the status that the engine returned for the end of the stream.
    /// On success the queue of the engine is to be emptied; an error ends
    /// the session for good.
    pub fn flushed(&mut self, status: u32) -> (res: VPXResult<()>)
        requires
            old(self).state() == SessionState::Flushing,
        ensures
            status == VPX_CODEC_OK ==> res is Ok && final(self).state() == SessionState::Draining,
            status != VPX_CODEC_OK ==> res == Err::<(), CodecError>(error_of_status(status))
                && final(self).state() == SessionState::Failed,
    {
        match check_err(status) {
            Ok(_) => {
                self.state = SessionState::Draining;
                Ok(())
            },
            Err(e) => {
                self.state = SessionState::Failed;
                Err(e)
            },
        }
    }

    /// Takes one step of emptying the queue, given what the engine returned
    /// when asked for its next packet: `None` where it had none. As long as
    /// packets come the session keeps draining and hands each one out; the
    /// session is disposed when, and only when, the engine has reported
    /// that nothing is left.
    pub fn drain<'encoder>(&mut self, output: Option<RawPacket<'encoder>>) -> (item: Option<
        PacketKind<'encoder>,
    >)
        requires
            old(self).state() == SessionState::Draining,
        ensures
            output is None ==> item is None && final(self).state() == SessionState::Disposed,
            output is Some ==> item is Some && item->0@ == frame::packet_of(output->0)
                && final(self).state() == SessionState::Draining,
    {
        match output {
            None => {
                self.state = SessionState::Disposed;
                None
            },
            Some(raw) => Some(PacketKind::new(raw)),
        }
    }
}

/// A configuration built from the defaults of a codec and given up at once
/// for the values handed to the engine carries those defaults, all five of
/// them and unchanged; a session created without a configuration of the
/// caller's is initialised with exactly them. This holds of every codec.
pub proof fn lemma_default_config_round_trip<Enc>(
    defaults: Settings,
    built: VPXResult<EncoderConfig<Enc>>,
)
    requires
        built is Ok,
        built->Ok_0@ == defaults,
    ensures
        <Settings as FromSpec<EncoderConfig<Enc>>>::from_spec(built->Ok_0) == defaults,
        chosen_config(None, built) == Ok::<Settings, CodecError>(defaults),
{
}

} // verus!
