//! The VP8 codec and the directives it takes with each frame.

use vstd::prelude::*;
use vstd::std_specs::convert::FromSpecImpl;

use crate::encoder::{CodecInterface, VpxEncoder, VPX_EFLAG_FORCE_KF};

verus! {

/// Frame directive: do not predict from the last frame.
pub const VP8_EFLAG_NO_REF_LAST: i64 = 0x10000;

/// Frame directive: do not predict from the golden frame.
pub const VP8_EFLAG_NO_REF_GF: i64 = 0x20000;

/// Frame directive: do not predict from the alternate reference frame.
pub const VP8_EFLAG_NO_REF_ARF: i64 = 0x200000;

/// Frame directive: do not update the last frame.
pub const VP8_EFLAG_NO_UPD_LAST: i64 = 0x40000;

/// Frame directive: do not update the golden frame.
pub const VP8_EFLAG_NO_UPD_GF: i64 = 0x400000;

/// Frame directive: do not update the alternate reference frame.
pub const VP8_EFLAG_NO_UPD_ARF: i64 = 0x800000;

/// Frame directive: do not update the entropy context.
pub const VP8_EFLAG_NO_UPD_ENTROPY: i64 = 0x100000;

pub struct VP8;

impl VpxEncoder for VP8 {
    type FrameFlags = FrameFlags;

    open spec fn codec() -> CodecInterface {
        CodecInterface::VP8
    }

    fn interface() -> (iface: CodecInterface) {
        CodecInterface::VP8
    }
}

/// The directives that VP8 takes with a frame, each on its own.
#[derive(Copy, Clone, Debug, Eq, PartialEq, Structural)]
pub struct FrameFlags {
    pub force_kf: bool,
    pub no_ref_last: bool,
    pub no_ref_gf: bool,
    pub no_ref_arf: bool,
    pub no_upd_last: bool,
    pub no_upd_gf: bool,
    pub no_upd_arf: bool,
    pub no_upd_entropy: bool,
}

impl FrameFlags {
    /// The bit mask that the engine is given for these directives: the sum
    /// of the bits of those that are set.
    pub open spec fn mask(self) -> int {
        (if self.force_kf { VPX_EFLAG_FORCE_KF as int } else { 0 })
        + (if self.no_ref_last { VP8_EFLAG_NO_REF_LAST as int } else { 0 })
        + (if self.no_ref_gf { VP8_EFLAG_NO_REF_GF as int } else { 0 })
        + (if self.no_ref_arf { VP8_EFLAG_NO_REF_ARF as int } else { 0 })
        + (if self.no_upd_last { VP8_EFLAG_NO_UPD_LAST as int } else { 0 })
        + (if self.no_upd_gf { VP8_EFLAG_NO_UPD_GF as int } else { 0 })
        + (if self.no_upd_arf { VP8_EFLAG_NO_UPD_ARF as int } else { 0 })
        + (if self.no_upd_entropy { VP8_EFLAG_NO_UPD_ENTROPY as int } else { 0 })
    }

    /// Asks for the frame to be a keyframe, or takes the request back.
    pub fn keyframe(&mut self, keyframe: bool)
        ensures
            *final(self) == (FrameFlags { force_kf: keyframe, ..*old(self) }),
    {
        self.force_kf = keyframe;
    }
}

impl Default for FrameFlags {
    /// No directive is set.
    fn default() -> (flags: FrameFlags)
        ensures
            flags == (FrameFlags {
                force_kf: false,
                no_ref_last: false,
                no_ref_gf: false,
                no_ref_arf: false,
                no_upd_last: false,
                no_upd_gf: false,
                no_upd_arf: false,
                no_upd_entropy: false,
            }),
    {
        FrameFlags {
            force_kf: false,
            no_ref_last: false,
            no_ref_gf: false,
            no_ref_arf: false,
            no_upd_last: false,
            no_upd_gf: false,
            no_upd_arf: false,
            no_upd_entropy: false,
        }
    }
}

impl From<FrameFlags> for i64 {
    /// Folds the directives into the bit mask of the engine.
    fn from(directives: FrameFlags) -> (bits: i64) {
        let mut flags: i64 = 0;
        if directives.force_kf {
            flags = flags | VPX_EFLAG_FORCE_KF;
        }
        let ghost f1 = flags;
        if directives.no_ref_last {
            flags = flags | VP8_EFLAG_NO_REF_LAST;
        }
        let ghost f2 = flags;
        if directives.no_ref_gf {
            flags = flags | VP8_EFLAG_NO_REF_GF;
        }
        let ghost f3 = flags;
        if directives.no_ref_arf {
            flags = flags | VP8_EFLAG_NO_REF_ARF;
        }
        let ghost f4 = flags;
        if directives.no_upd_last {
            flags = flags | VP8_EFLAG_NO_UPD_LAST;
        }
        let ghost f5 = flags;
        if directives.no_upd_gf {
            flags = flags | VP8_EFLAG_NO_UPD_GF;
        }
        let ghost f6 = flags;
        if directives.no_upd_arf {
            flags = flags | VP8_EFLAG_NO_UPD_ARF;
        }
        let ghost f7 = flags;
        if directives.no_upd_entropy {
            flags = flags | VP8_EFLAG_NO_UPD_ENTROPY;
        }
        proof {
            lemma_fold_directive_bits(
                directives.force_kf,
                directives.no_ref_last,
                directives.no_ref_gf,
                directives.no_ref_arf,
                directives.no_upd_last,
                directives.no_upd_gf,
                directives.no_upd_arf,
                directives.no_upd_entropy,
                f1,
                f2,
                f3,
                f4,
                f5,
                f6,
                f7,
                flags,
            );
        }
        flags
    }
}

impl FromSpecImpl<FrameFlags> for i64 {
    open spec fn obeys_from_spec() -> bool {
        true
    }

    open spec fn from_spec(directives: FrameFlags) -> i64 {
        directives.mask() as i64
    }
}

/// Setting the directive bits one after the other, a bit whenever its
/// directive is set, ends in the sum of the bits of the directives set.
proof fn lemma_fold_directive_bits(
    d1: bool,
    d2: bool,
    d3: bool,
    d4: bool,
    d5: bool,
    d6: bool,
    d7: bool,
    d8: bool,
    f1: i64,
    f2: i64,
    f3: i64,
    f4: i64,
    f5: i64,
    f6: i64,
    f7: i64,
    f8: i64,
)
    by (bit_vector)
    requires
        f1 == if d1 { 0i64 | 0x1i64 } else { 0i64 },
        f2 == if d2 { f1 | 0x10000i64 } else { f1 },
        f3 == if d3 { f2 | 0x20000i64 } else { f2 },
        f4 == if d4 { f3 | 0x200000i64 } else { f3 },
        f5 == if d5 { f4 | 0x40000i64 } else { f4 },
        f6 == if d6 { f5 | 0x400000i64 } else { f5 },
        f7 == if d7 { f6 | 0x800000i64 } else { f6 },
        f8 == if d8 { f7 | 0x100000i64 } else { f7 },
    ensures
        f8 == (if d1 { 0x1i64 } else { 0i64 })
            + (if d2 { 0x10000i64 } else { 0i64 })
            + (if d3 { 0x20000i64 } else { 0i64 })
            + (if d4 { 0x200000i64 } else { 0i64 })
            + (if d5 { 0x40000i64 } else { 0i64 })
            + (if d6 { 0x400000i64 } else { 0i64 })
            + (if d7 { 0x800000i64 } else { 0i64 })
            + (if d8 { 0x100000i64 } else { 0i64 }),
{
}

/// Each directive has a bit of its own in the mask: a bit is set exactly
/// when its directive is, whatever the other seven are. In particular the
/// engine is asked for a keyframe exactly when `force_kf` is set.
pub proof fn lemma_mask_bits(directives: FrameFlags)
    ensures
        0 <= directives.mask() <= 0xf70001,
        (directives.mask() as i64 & VPX_EFLAG_FORCE_KF != 0) == directives.force_kf,
        (directives.mask() as i64 & VP8_EFLAG_NO_REF_LAST != 0) == directives.no_ref_last,
        (directives.mask() as i64 & VP8_EFLAG_NO_REF_GF != 0) == directives.no_ref_gf,
        (directives.mask() as i64 & VP8_EFLAG_NO_REF_ARF != 0) == directives.no_ref_arf,
        (directives.mask() as i64 & VP8_EFLAG_NO_UPD_LAST != 0) == directives.no_upd_last,
        (directives.mask() as i64 & VP8_EFLAG_NO_UPD_GF != 0) == directives.no_upd_gf,
        (directives.mask() as i64 & VP8_EFLAG_NO_UPD_ARF != 0) == directives.no_upd_arf,
        (directives.mask() as i64 & VP8_EFLAG_NO_UPD_ENTROPY != 0) == directives.no_upd_entropy,
{
    lemma_sum_bits(
        directives.force_kf,
        directives.no_ref_last,
        directives.no_ref_gf,
        directives.no_ref_arf,
        directives.no_upd_last,
        directives.no_upd_gf,
        directives.no_upd_arf,
        directives.no_upd_entropy,
        directives.mask() as i64,
    );
}

/// In a sum of distinct bits each bit can be read off again.
proof fn lemma_sum_bits(
    d1: bool,
    d2: bool,
    d3: bool,
    d4: bool,
    d5: bool,
    d6: bool,
    d7: bool,
    d8: bool,
    m: i64,
)
    by (bit_vector)
    requires
        m == (if d1 { 0x1i64 } else { 0i64 })
            + (if d2 { 0x10000i64 } else { 0i64 })
            + (if d3 { 0x20000i64 } else { 0i64 })
            + (if d4 { 0x200000i64 } else { 0i64 })
            + (if d5 { 0x40000i64 } else { 0i64 })
            + (if d6 { 0x400000i64 } else { 0i64 })
            + (if d7 { 0x800000i64 } else { 0i64 })
            + (if d8 { 0x100000i64 } else { 0i64 }),
    ensures
        (m & 0x1i64 != 0) == d1,
        (m & 0x10000i64 != 0) == d2,
        (m & 0x20000i64 != 0) == d3,
        (m & 0x200000i64 != 0) == d4,
        (m & 0x40000i64 != 0) == d5,
        (m & 0x400000i64 != 0) == d6,
        (m & 0x800000i64 != 0) == d7,
        (m & 0x100000i64 != 0) == d8,
{
}

} // verus!
