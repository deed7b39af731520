//! The three 16-bit attribute registers: per-sector, per-wall and per-sprite
//! flag words whose named sub-fields are adjacent, deliberately overlapping
//! bit ranges of one unsigned 16-bit value.
//!
//! Each register is a plain wrapper around its word, with one mask-and-shift
//! accessor per named range. The ranges come from the legacy format and many
//! neighbours share a boundary bit; the `lemma_*_reassemble` proofs show that
//! OR-ing every extracted range back into place reproduces the word bit for
//! bit, so the table leaves no bit unaccounted for.

use vstd::prelude::*;

use crate::stream::ByteStream;
use crate::stream::MapError;
use crate::stream::le16;

verus! {

/// Named range `parallaxing`, bits 0 through 1 of a sector register.
pub open spec fn sector_parallaxing(w: u16) -> u16 {
    w & 3
}

/// Named range `slopped`, bits 1 through 2 of a sector register.
pub open spec fn sector_slopped(w: u16) -> u16 {
    (w >> 1) & 3
}

/// Named range `swap`, bits 2 through 3 of a sector register.
pub open spec fn sector_swap(w: u16) -> u16 {
    (w >> 2) & 3
}

/// Named range `double`, bits 3 through 4 of a sector register.
pub open spec fn sector_double(w: u16) -> u16 {
    (w >> 3) & 3
}

/// Named range `xflip`, bits 4 through 5 of a sector register.
pub open spec fn sector_xflip(w: u16) -> u16 {
    (w >> 4) & 3
}

/// Named range `yflip`, bits 5 through 6 of a sector register.
pub open spec fn sector_yflip(w: u16) -> u16 {
    (w >> 5) & 3
}

/// Named range `align`, bits 6 through 7 of a sector register.
pub open spec fn sector_align(w: u16) -> u16 {
    (w >> 6) & 3
}

/// Named range `unk`, bits 7 through 15 of a sector register.
pub open spec fn sector_unk(w: u16) -> u16 {
    (w >> 7) & 0x1ff
}

/// The ceiling or floor attribute register of a sector.
#[derive(Debug, Clone, Copy, PartialEq, Eq, Structural)]
pub struct SectorStats(pub u16);

impl SectorStats {
    /// Reads the register as one little-endian 16-bit word.
    pub fn read(s: &mut ByteStream) -> (r: Result<SectorStats, MapError>)
        ensures
            final(s).bytes() == old(s).bytes(),
            old(s).spec_pos() + 2 <= old(s).bytes().len() ==> {
                &&& r is Ok
                &&& r->Ok_0.0 == le16(old(s).bytes(), old(s).spec_pos())
                &&& final(s).spec_pos() == old(s).spec_pos() + 2
            },
            old(s).spec_pos() + 2 > old(s).bytes().len() ==> {
                &&& r == Err::<SectorStats, MapError>(MapError::TruncatedInput)
                &&& final(s).spec_pos() == old(s).spec_pos()
            },
    {
        match s.read_u16() {
            Ok(w) => Ok(SectorStats(w)),
            Err(e) => Err(e),
        }
    }

    pub fn parallaxing(&self) -> (r: u16)
        ensures
            r == sector_parallaxing(self.0),
    {
        self.0 & 3
    }

    pub fn slopped(&self) -> (r: u16)
        ensures
            r == sector_slopped(self.0),
    {
        (self.0 >> 1) & 3
    }

    pub fn swap(&self) -> (r: u16)
        ensures
            r == sector_swap(self.0),
    {
        (self.0 >> 2) & 3
    }

    pub fn double(&self) -> (r: u16)
        ensures
            r == sector_double(self.0),
    {
        (self.0 >> 3) & 3
    }

    pub fn xflip(&self) -> (r: u16)
        ensures
            r == sector_xflip(self.0),
    {
        (self.0 >> 4) & 3
    }

    pub fn yflip(&self) -> (r: u16)
        ensures
            r == sector_yflip(self.0),
    {
        (self.0 >> 5) & 3
    }

    pub fn align(&self) -> (r: u16)
        ensures
            r == sector_align(self.0),
    {
        (self.0 >> 6) & 3
    }

    pub fn unk(&self) -> (r: u16)
        ensures
            r == sector_unk(self.0),
    {
        (self.0 >> 7) & 0x1ff
    }
}

/// OR-ing every named sector range back into its bit position reproduces the
/// register word exactly: the table covers all 16 bits, overlaps included.
pub proof fn lemma_sector_stats_reassemble(w: u16)
    by (bit_vector)
    ensures
        sector_parallaxing(w) | (sector_slopped(w) << 1) | (sector_swap(w) << 2) | (sector_double(w)
            << 3) | (sector_xflip(w) << 4) | (sector_yflip(w) << 5) | (sector_align(w) << 6) | (
        sector_unk(w) << 7) == w,
{
}

/// Named range `blocking`, bits 0 through 1 of a wall register.
pub open spec fn wall_blocking(w: u16) -> u16 {
    w & 3
}

/// Named range `swap`, bits 1 through 2 of a wall register.
pub open spec fn wall_swap(w: u16) -> u16 {
    (w >> 1) & 3
}

/// Named range `align`, bits 2 through 3 of a wall register.
pub open spec fn wall_align(w: u16) -> u16 {
    (w >> 2) & 3
}

/// Named range `xflip`, bits 3 through 4 of a wall register.
pub open spec fn wall_xflip(w: u16) -> u16 {
    (w >> 3) & 3
}

/// Named range `masking`, bits 4 through 5 of a wall register.
pub open spec fn wall_masking(w: u16) -> u16 {
    (w >> 4) & 3
}

/// Named range `one`, bits 5 through 6 of a wall register.
pub open spec fn wall_one(w: u16) -> u16 {
    (w >> 5) & 3
}

/// Named range `blocking2`, bits 6 through 7 of a wall register.
pub open spec fn wall_blocking2(w: u16) -> u16 {
    (w >> 6) & 3
}

/// Named range `translucent`, bits 7 through 8 of a wall register.
pub open spec fn wall_translucent(w: u16) -> u16 {
    (w >> 7) & 3
}

/// Named range `yflip`, bits 8 through 9 of a wall register.
pub open spec fn wall_yflip(w: u16) -> u16 {
    (w >> 8) & 3
}

/// Named range `translucent_reversed`, bits 9 through 10 of a wall register.
pub open spec fn wall_translucent_reversed(w: u16) -> u16 {
    (w >> 9) & 3
}

/// Named range `unk`, bits 10 through 15 of a wall register.
pub open spec fn wall_unk(w: u16) -> u16 {
    (w >> 10) & 0x3f
}

/// The attribute register of a wall.
#[derive(Debug, Clone, Copy, PartialEq, Eq, Structural)]
pub struct WallStats(pub u16);

impl WallStats {
    /// Reads the register as one little-endian 16-bit word.
    pub fn read(s: &mut ByteStream) -> (r: Result<WallStats, MapError>)
        ensures
            final(s).bytes() == old(s).bytes(),
            old(s).spec_pos() + 2 <= old(s).bytes().len() ==> {
                &&& r is Ok
                &&& r->Ok_0.0 == le16(old(s).bytes(), old(s).spec_pos())
                &&& final(s).spec_pos() == old(s).spec_pos() + 2
            },
            old(s).spec_pos() + 2 > old(s).bytes().len() ==> {
                &&& r == Err::<WallStats, MapError>(MapError::TruncatedInput)
                &&& final(s).spec_pos() == old(s).spec_pos()
            },
    {
        match s.read_u16() {
            Ok(w) => Ok(WallStats(w)),
            Err(e) => Err(e),
        }
    }

    pub fn blocking(&self) -> (r: u16)
        ensures
            r == wall_blocking(self.0),
    {
        self.0 & 3
    }

    pub fn swap(&self) -> (r: u16)
        ensures
            r == wall_swap(self.0),
    {
        (self.0 >> 1) & 3
    }

    pub fn align(&self) -> (r: u16)
        ensures
            r == wall_align(self.0),
    {
        (self.0 >> 2) & 3
    }

    pub fn xflip(&self) -> (r: u16)
        ensures
            r == wall_xflip(self.0),
    {
        (self.0 >> 3) & 3
    }

    pub fn masking(&self) -> (r: u16)
        ensures
            r == wall_masking(self.0),
    {
        (self.0 >> 4) & 3
    }

    pub fn one(&self) -> (r: u16)
        ensures
            r == wall_one(self.0),
    {
        (self.0 >> 5) & 3
    }

    pub fn blocking2(&self) -> (r: u16)
        ensures
            r == wall_blocking2(self.0),
    {
        (self.0 >> 6) & 3
    }

    pub fn translucent(&self) -> (r: u16)
        ensures
            r == wall_translucent(self.0),
    {
        (self.0 >> 7) & 3
    }

    pub fn yflip(&self) -> (r: u16)
        ensures
            r == wall_yflip(self.0),
    {
        (self.0 >> 8) & 3
    }

    pub fn translucent_reversed(&self) -> (r: u16)
        ensures
            r == wall_translucent_reversed(self.0),
    {
        (self.0 >> 9) & 3
    }

    pub fn unk(&self) -> (r: u16)
        ensures
            r == wall_unk(self.0),
    {
        (self.0 >> 10) & 0x3f
    }
}

/// OR-ing every named wall range back into its bit position reproduces the
/// register word exactly: the table covers all 16 bits, overlaps included.
pub proof fn lemma_wall_stats_reassemble(w: u16)
    by (bit_vector)
    ensures
        wall_blocking(w) | (wall_swap(w) << 1) | (wall_align(w) << 2) | (wall_xflip(w) << 3) | (
        wall_masking(w) << 4) | (wall_one(w) << 5) | (wall_blocking2(w) << 6) | (wall_translucent(w)
            << 7) | (wall_yflip(w) << 8) | (wall_translucent_reversed(w) << 9) | (wall_unk(w)
            << 10) == w,
{
}

/// Named range `blocking`, bits 0 through 1 of a sprite register.
pub open spec fn sprite_blocking(w: u16) -> u16 {
    w & 3
}

/// Named range `translucent`, bits 1 through 2 of a sprite register.
pub open spec fn sprite_translucent(w: u16) -> u16 {
    (w >> 1) & 3
}

/// Named range `xflip`, bits 2 through 3 of a sprite register.
pub open spec fn sprite_xflip(w: u16) -> u16 {
    (w >> 2) & 3
}

/// Named range `yflip`, bits 3 through 4 of a sprite register.
pub open spec fn sprite_yflip(w: u16) -> u16 {
    (w >> 3) & 3
}

/// Named range `sprite_type`, bits 4 through 5 of a sprite register.
pub open spec fn sprite_sprite_type(w: u16) -> u16 {
    (w >> 4) & 3
}

/// Named range `onesided`, bits 5 through 6 of a sprite register.
pub open spec fn sprite_onesided(w: u16) -> u16 {
    (w >> 5) & 3
}

/// Named range `real_center`, bits 6 through 7 of a sprite register.
pub open spec fn sprite_real_center(w: u16) -> u16 {
    (w >> 6) & 3
}

/// Named range `blocking2`, bits 7 through 8 of a sprite register.
pub open spec fn sprite_blocking2(w: u16) -> u16 {
    (w >> 7) & 3
}

/// Named range `reverse_translucent`, bits 8 through 9 of a sprite register.
pub open spec fn sprite_reverse_translucent(w: u16) -> u16 {
    (w >> 8) & 3
}

/// Named range `noautoshading`, bits 9 through 10 of a sprite register.
pub open spec fn sprite_noautoshading(w: u16) -> u16 {
    (w >> 9) & 3
}

/// Named range `unk`, bits 10 through 14 of a sprite register.
pub open spec fn sprite_unk(w: u16) -> u16 {
    (w >> 10) & 0x1f
}

/// Named range `invisible`, bits 14 through 15 of a sprite register.
pub open spec fn sprite_invisible(w: u16) -> u16 {
    (w >> 14) & 3
}

/// The attribute register of a sprite.
#[derive(Debug, Clone, Copy, PartialEq, Eq, Structural)]
pub struct SpriteStats(pub u16);

impl SpriteStats {
    /// Reads the register as one little-endian 16-bit word.
    pub fn read(s: &mut ByteStream) -> (r: Result<SpriteStats, MapError>)
        ensures
            final(s).bytes() == old(s).bytes(),
            old(s).spec_pos() + 2 <= old(s).bytes().len() ==> {
                &&& r is Ok
                &&& r->Ok_0.0 == le16(old(s).bytes(), old(s).spec_pos())
                &&& final(s).spec_pos() == old(s).spec_pos() + 2
            },
            old(s).spec_pos() + 2 > old(s).bytes().len() ==> {
                &&& r == Err::<SpriteStats, MapError>(MapError::TruncatedInput)
                &&& final(s).spec_pos() == old(s).spec_pos()
            },
    {
        match s.read_u16() {
            Ok(w) => Ok(SpriteStats(w)),
            Err(e) => Err(e),
        }
    }

    pub fn blocking(&self) -> (r: u16)
        ensures
            r == sprite_blocking(self.0),
    {
        self.0 & 3
    }

    pub fn translucent(&self) -> (r: u16)
        ensures
            r == sprite_translucent(self.0),
    {
        (self.0 >> 1) & 3
    }

    pub fn xflip(&self) -> (r: u16)
        ensures
            r == sprite_xflip(self.0),
    {
        (self.0 >> 2) & 3
    }

    pub fn yflip(&self) -> (r: u16)
        ensures
            r == sprite_yflip(self.0),
    {
        (self.0 >> 3) & 3
    }

    pub fn sprite_type(&self) -> (r: u16)
        ensures
            r == sprite_sprite_type(self.0),
    {
        (self.0 >> 4) & 3
    }

    pub fn onesided(&self) -> (r: u16)
        ensures
            r == sprite_onesided(self.0),
    {
        (self.0 >> 5) & 3
    }

    pub fn real_center(&self) -> (r: u16)
        ensures
            r == sprite_real_center(self.0),
    {
        (self.0 >> 6) & 3
    }

    pub fn blocking2(&self) -> (r: u16)
        ensures
            r == sprite_blocking2(self.0),
    {
        (self.0 >> 7) & 3
    }

    pub fn reverse_translucent(&self) -> (r: u16)
        ensures
            r == sprite_reverse_translucent(self.0),
    {
        (self.0 >> 8) & 3
    }

    pub fn noautoshading(&self) -> (r: u16)
        ensures
            r == sprite_noautoshading(self.0),
    {
        (self.0 >> 9) & 3
    }

    pub fn unk(&self) -> (r: u16)
        ensures
            r == sprite_unk(self.0),
    {
        (self.0 >> 10) & 0x1f
    }

    pub fn invisible(&self) -> (r: u16)
        ensures
            r == sprite_invisible(self.0),
    {
        (self.0 >> 14) & 3
    }
}

/// OR-ing every named sprite range back into its bit position reproduces the
/// register word exactly: the table covers all 16 bits, overlaps included.
pub proof fn lemma_sprite_stats_reassemble(w: u16)
    by (bit_vector)
    ensures
        sprite_blocking(w) | (sprite_translucent(w) << 1) | (sprite_xflip(w) << 2) | (sprite_yflip(
            w,
        ) << 3) | (sprite_sprite_type(w) << 4) | (sprite_onesided(w) << 5) | (sprite_real_center(w)
            << 6) | (sprite_blocking2(w) << 7) | (sprite_reverse_translucent(w) << 8) | (
        sprite_noautoshading(w) << 9) | (sprite_unk(w) << 10) | (sprite_invisible(w) << 14) == w,
{
}

} // verus!
