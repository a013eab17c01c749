//! Contains the structures which describe the main encoder configuration.

use core::marker::PhantomData;
use vstd::prelude::*;
use vstd::std_specs::convert::FromSpecImpl;

use crate::error::{check_err, error_of_status, CodecError, VPXResult, VPX_CODEC_OK};

verus! {

/// Session flag of the engine: collect PSNR statistics.
pub const VPX_CODEC_USE_PSNR: i64 = 0x10000;

/// Session flag of the engine: hand each partition out as a packet of its own.
pub const VPX_CODEC_USE_OUTPUT_PARTITION: i64 = 0x20000;

/// Session flag of the engine: work with more than eight bits per sample.
pub const VPX_CODEC_USE_HIGHBITDEPTH: i64 = 0x40000;

/// Session flag of the engine: post-process the output.
pub const VPX_CODEC_USE_POSTPROC: i64 = 0x10000;

/// Session flag of the engine: conceal errors of the stream.
pub const VPX_CODEC_USE_ERROR_CONCEALMENT: i64 = 0x20000;

/// Session flag of the engine: the input arrives in fragments.
pub const VPX_CODEC_USE_INPUT_FRAGMENTS: i64 = 0x40000;

/// Session flag of the engine: give each frame a thread.
pub const VPX_CODEC_USE_FRAME_THREADING: i64 = 0x80000;

/// The fields of the engine's configuration record that a session sets:
/// frame geometry, the timebase in which timestamps are read, and the
/// bitrate aimed at.
#[derive(Clone, Copy, Debug, PartialEq, Eq, Structural)]
pub struct Settings {
    /// Width of a frame in pixels.
    pub width: u32,
    /// Height of a frame in pixels.
    pub height: u32,
    /// Numerator of the timebase.
    pub timebase_num: i32,
    /// Denominator of the timebase.
    pub timebase_den: i32,
    /// Target bitrate, in the engine's unit.
    pub target_bitrate: u32,
}

/// The signed number with the bit pattern of `v`: what the engine's signed
/// timebase fields hold after an unsigned value was stored in them.
pub open spec fn reinterpret_i32(v: u32) -> int {
    if v <= 0x7fff_ffff {
        v as int
    } else {
        v - 0x1_0000_0000
    }
}

/// An encoder configuration for a specific codec `Encoder`.
pub struct EncoderConfig<Encoder> {
    inner: Settings,
    _phantom: PhantomData<Encoder>,
}

impl<Encoder> View for EncoderConfig<Encoder> {
    type V = Settings;

    closed spec fn view(&self) -> Settings {
        self.inner
    }
}

impl<Encoder> EncoderConfig<Encoder> {
    /// Builds the configuration of a codec from the answer to a query for
    /// its defaults: the status of the query and the values it filled in.
    /// A query that failed yields its error; the defaults are taken over
    /// unchanged otherwise.
    pub fn new(status: u32, defaults: Settings) -> (res: VPXResult<Self>)
        ensures
            status == VPX_CODEC_OK ==> res is Ok && res->Ok_0@ == defaults,
            status != VPX_CODEC_OK ==> res is Err && res->Err_0 == error_of_status(status),
    {
        match check_err(status) {
            Ok(_) => Ok(EncoderConfig { inner: defaults, _phantom: PhantomData }),
            Err(e) => Err(e),
        }
    }

    pub fn set_frame_dimensions(&mut self, width: u32, height: u32)
        ensures
            final(self)@ == (Settings { width, height, ..old(self)@ }),
    {
        self.inner.width = width;
        self.inner.height = height;
    }

    /// Set the timebase.
    ///
    /// > **EXAMPLE**: if you want to write a simple encoder which encodes frames
    /// > and writes them to the file and the FPS is 30, the `numerator` could be `1` and the
    /// > denominator should be `30` in this case. The `pts` (presentation timestamp) during the
    /// > encoding process should be in timebase units (so each frame would have a monotonic pts
    /// > equal to the frame number in case of our example).
    ///
    /// The engine keeps both numbers signed: a value above `i32::MAX` is
    /// stored with its bit pattern and reads as negative.
    pub fn set_timebase(&mut self, numerator: u32, denominator: u32)
        ensures
            final(self)@.timebase_num == reinterpret_i32(numerator),
            final(self)@.timebase_den == reinterpret_i32(denominator),
            final(self)@.width == old(self)@.width,
            final(self)@.height == old(self)@.height,
            final(self)@.target_bitrate == old(self)@.target_bitrate,
    {
        assert(numerator as i32 == reinterpret_i32(numerator)) by (bit_vector);
        assert(denominator as i32 == reinterpret_i32(denominator)) by (bit_vector);
        self.inner.timebase_num = numerator as i32;
        self.inner.timebase_den = denominator as i32;
    }

    pub fn set_target_bitrate(&mut self, bitrate: u32)
        ensures
            final(self)@ == (Settings { target_bitrate: bitrate, ..old(self)@ }),
    {
        self.inner.target_bitrate = bitrate;
    }
}

impl<Encoder> From<EncoderConfig<Encoder>> for Settings {
    /// Gives up the configuration for the values that the engine is to be
    /// initialised with.
    fn from(config: EncoderConfig<Encoder>) -> (settings: Settings) {
        config.inner
    }
}

impl<Encoder> FromSpecImpl<EncoderConfig<Encoder>> for Settings {
    open spec fn obeys_from_spec() -> bool {
        true
    }

    open spec fn from_spec(config: EncoderConfig<Encoder>) -> Settings {
        config@
    }
}

/// Options of a session as a whole.
#[derive(Copy, Clone, Debug, Eq, PartialEq, Structural)]
pub struct CodecFlags {
    pub use_psnr: bool,
    pub use_output_partition: bool,
    pub use_highbitdepth: bool,
    pub use_postproc: bool,
    pub use_error_concealment: bool,
    pub use_input_fragments: bool,
    pub use_frame_threading: bool,
}

impl CodecFlags {
    /// The bit mask that the engine is given for these options. The
    /// engine has four bits for the seven of them: three bits are shared by
    /// two options each, and such a bit is set when either option is.
    pub open spec fn mask(self) -> int {
        (if self.use_psnr || self.use_postproc { 0x10000int } else { 0 })
        + (if self.use_output_partition || self.use_error_concealment { 0x20000int } else { 0 })
        + (if self.use_highbitdepth || self.use_input_fragments { 0x40000int } else { 0 })
        + (if self.use_frame_threading { 0x80000int } else { 0 })
    }
}

impl Default for CodecFlags {
    /// No option is set.
    fn default() -> (flags: CodecFlags)
        ensures
            flags == (CodecFlags {
                use_psnr: false,
                use_output_partition: false,
                use_highbitdepth: false,
                use_postproc: false,
                use_error_concealment: false,
                use_input_fragments: false,
                use_frame_threading: false,
            }),
    {
        CodecFlags {
            use_psnr: false,
            use_output_partition: false,
            use_highbitdepth: false,
            use_postproc: false,
            use_error_concealment: false,
            use_input_fragments: false,
            use_frame_threading: false,
        }
    }
}

impl From<CodecFlags> for i64 {
    /// Folds the options into the bit mask of the engine.
    fn from(options: CodecFlags) -> (bits: i64) {
        let mut flags: i64 = 0;
        if options.use_psnr {
            flags = flags | VPX_CODEC_USE_PSNR;
        }
        let ghost f1 = flags;
        if options.use_output_partition {
            flags = flags | VPX_CODEC_USE_OUTPUT_PARTITION;
        }
        let ghost f2 = flags;
        if options.use_highbitdepth {
            flags = flags | VPX_CODEC_USE_HIGHBITDEPTH;
        }
        let ghost f3 = flags;
        if options.use_postproc {
            flags = flags | VPX_CODEC_USE_POSTPROC;
        }
        let ghost f4 = flags;
        if options.use_error_concealment {
            flags = flags | VPX_CODEC_USE_ERROR_CONCEALMENT;
        }
        let ghost f5 = flags;
        if options.use_input_fragments {
            flags = flags | VPX_CODEC_USE_INPUT_FRAGMENTS;
        }
        let ghost f6 = flags;
        if options.use_frame_threading {
            flags = flags | VPX_CODEC_USE_FRAME_THREADING;
        }
        proof {
            lemma_fold_option_bits(
                options.use_psnr,
                options.use_output_partition,
                options.use_highbitdepth,
                options.use_postproc,
                options.use_error_concealment,
                options.use_input_fragments,
                options.use_frame_threading,
                f1,
                f2,
                f3,
                f4,
                f5,
                f6,
                flags,
            );
        }
        flags
    }
}

impl FromSpecImpl<CodecFlags> for i64 {
    open spec fn obeys_from_spec() -> bool {
        true
    }

    open spec fn from_spec(options: CodecFlags) -> i64 {
        options.mask() as i64
    }
}

/// Setting the option bits of the engine one after the other, a bit
/// whenever its option is asked for, ends in the sum of the bits that were
/// asked for at least once.
proof fn lemma_fold_option_bits(
    o1: bool,
    o2: bool,
    o3: bool,
    o4: bool,
    o5: bool,
    o6: bool,
    o7: bool,
    f1: i64,
    f2: i64,
    f3: i64,
    f4: i64,
    f5: i64,
    f6: i64,
    f7: i64,
)
    by (bit_vector)
    requires
        f1 == if o1 { 0i64 | 0x10000i64 } else { 0i64 },
        f2 == if o2 { f1 | 0x20000i64 } else { f1 },
        f3 == if o3 { f2 | 0x40000i64 } else { f2 },
        f4 == if o4 { f3 | 0x10000i64 } else { f3 },
        f5 == if o5 { f4 | 0x20000i64 } else { f4 },
        f6 == if o6 { f5 | 0x40000i64 } else { f5 },
        f7 == if o7 { f6 | 0x80000i64 } else { f6 },
    ensures
        f7 == (if o1 || o4 { 0x10000i64 } else { 0i64 })
            + (if o2 || o5 { 0x20000i64 } else { 0i64 })
            + (if o3 || o6 { 0x40000i64 } else { 0i64 })
            + (if o7 { 0x80000i64 } else { 0i64 }),
{
}

} // verus!
