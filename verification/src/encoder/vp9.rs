//! The VP9 codec and the directive it takes with each frame.

use vstd::prelude::*;
use vstd::std_specs::convert::FromSpecImpl;

use crate::encoder::vp8::{
    VP8_EFLAG_NO_REF_ARF, VP8_EFLAG_NO_REF_GF, VP8_EFLAG_NO_REF_LAST, VP8_EFLAG_NO_UPD_ARF,
    VP8_EFLAG_NO_UPD_ENTROPY, VP8_EFLAG_NO_UPD_GF, VP8_EFLAG_NO_UPD_LAST,
};
use crate::encoder::{CodecInterface, VpxEncoder, VPX_EFLAG_FORCE_KF};

verus! {

pub struct VP9;

impl VpxEncoder for VP9 {
    type FrameFlags = FrameFlags;

    open spec fn codec() -> CodecInterface {
        CodecInterface::VP9
    }

    fn interface() -> (iface: CodecInterface) {
        CodecInterface::VP9
    }
}

/// The one directive that VP9 takes with a frame.
#[derive(Copy, Clone, Debug, Eq, PartialEq, Structural)]
pub struct FrameFlags {
    pub force_kf: bool,
}

impl FrameFlags {
    /// The bit mask that the engine is given for the directive.
    pub open spec fn mask(self) -> int {
        if self.force_kf {
            VPX_EFLAG_FORCE_KF as int
        } else {
            0
        }
    }

    /// Asks for the frame to be a keyframe, or takes the request back.
    pub fn keyframe(&mut self, keyframe: bool)
        ensures
            *final(self) == (FrameFlags { force_kf: keyframe }),
    {
        self.force_kf = keyframe;
    }
}

impl Default for FrameFlags {
    /// The directive is not set.
    fn default() -> (flags: FrameFlags)
        ensures
            flags == (FrameFlags { force_kf: false }),
    {
        FrameFlags { force_kf: false }
    }
}

impl From<FrameFlags> for i64 {
    /// Folds the directive into the bit mask of the engine.
    fn from(directives: FrameFlags) -> (bits: i64) {
        let mut flags: i64 = 0;
        if directives.force_kf {
            assert(0i64 | 1i64 == 1i64) by (bit_vector);
            flags = flags | VPX_EFLAG_FORCE_KF;
        }
        flags
    }
}

impl FromSpecImpl<FrameFlags> for i64 {
    open spec fn obeys_from_spec() -> bool {
        true
    }

    open spec fn from_spec(directives: FrameFlags) -> i64 {
        directives.mask() as i64
    }
}

/// The mask of VP9 holds the keyframe bit and no other: the engine is asked
/// for a keyframe exactly when `force_kf` is set, and none of the bits that
/// VP8 has for its reference and update directives can be set.
pub proof fn lemma_mask_bits(directives: FrameFlags)
    ensures
        directives.mask() == 0 || directives.mask() == VPX_EFLAG_FORCE_KF,
        (directives.mask() as i64 & VPX_EFLAG_FORCE_KF != 0) == directives.force_kf,
        directives.mask() as i64 & VP8_EFLAG_NO_REF_LAST == 0,
        directives.mask() as i64 & VP8_EFLAG_NO_REF_GF == 0,
        directives.mask() as i64 & VP8_EFLAG_NO_REF_ARF == 0,
        directives.mask() as i64 & VP8_EFLAG_NO_UPD_LAST == 0,
        directives.mask() as i64 & VP8_EFLAG_NO_UPD_GF == 0,
        directives.mask() as i64 & VP8_EFLAG_NO_UPD_ARF == 0,
        directives.mask() as i64 & VP8_EFLAG_NO_UPD_ENTROPY == 0,
{
    let m = directives.mask() as i64;
    assert(m == 0 || m == 1);
    assert((m == 0i64 || m == 1i64) ==> ((m & 0x1i64 != 0) == (m == 1i64)) && m & 0x10000i64 == 0
        && m & 0x20000i64 == 0 && m & 0x200000i64 == 0 && m & 0x40000i64 == 0 && m
        & 0x400000i64 == 0 && m & 0x800000i64 == 0 && m & 0x100000i64 == 0) by (bit_vector);
}

} // verus!
