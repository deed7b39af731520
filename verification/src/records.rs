//! The four fixed-size record types of a map file: Header (20 bytes),
//! Sector (40 bytes), Wall (32 bytes) and Sprite (44 bytes).
//!
//! For each record there are three faces of the same layout:
//! - `spec_<record>(d, i)`: the record denoted by the bytes of `d` starting
//!   at `i`, field by field in the exact order and width of the format;
//! - `<record>_byte(r, k)` / `<record>_bytes(r)`: the byte layout a record
//!   value occupies, the inverse direction;
//! - `<Record>::read`: the executable decoder, proved to return exactly
//!   `spec_<record>` of the consumed bytes, or `TruncatedInput` with the
//!   stream untouched when fewer bytes remain than the record needs.
//!
//! The `lemma_*_round_trip` proofs tie the directions together: decoding the
//! layout of any record value gives that value back, sign and all.

use vstd::prelude::*;

use crate::stats::SectorStats;
use crate::stats::SpriteStats;
use crate::stats::WallStats;
use crate::stream::ByteStream;
use crate::stream::MapError;
use crate::stream::i16_byte;
use crate::stream::i32_byte;
use crate::stream::le16;
use crate::stream::le32;
use crate::stream::lemma_i16_round_trip;
use crate::stream::lemma_i32_round_trip;
use crate::stream::lemma_i8_round_trip;
use crate::stream::lemma_u16_round_trip;
use crate::stream::lemma_u32_round_trip;
use crate::stream::signed16;
use crate::stream::signed32;
use crate::stream::signed8;
use crate::stream::u16_byte;
use crate::stream::u16_rep_i16;
use crate::stream::u32_byte;
use crate::stream::u32_rep_i32;
use crate::stream::u8_rep_i8;

verus! {

/// The 20-byte file header: format version, player start position, starting
/// view angle and starting sector.
#[derive(Debug, Clone, Copy, PartialEq, Eq, Structural)]
pub struct Header {
    pub version: u32,
    pub posx: i32,
    pub posy: i32,
    pub posz: i32,
    pub ang: u16,
    pub cursectnum: u16,
}

/// The header denoted by the 20 bytes of `d` starting at `i`.
pub open spec fn spec_header(d: Seq<u8>, i: int) -> Header {
    Header {
        version: le32(d, i) as u32,
        posx: signed32(le32(d, i + 4)) as i32,
        posy: signed32(le32(d, i + 8)) as i32,
        posz: signed32(le32(d, i + 12)) as i32,
        ang: le16(d, i + 16) as u16,
        cursectnum: le16(d, i + 18) as u16,
    }
}

/// Byte `k` of the 20-byte layout of a header.
pub open spec fn header_byte(h: Header, k: int) -> u8 {
    if k < 4 {
        u32_byte(h.version, k)
    } else if k < 8 {
        i32_byte(h.posx, k - 4)
    } else if k < 12 {
        i32_byte(h.posy, k - 8)
    } else if k < 16 {
        i32_byte(h.posz, k - 12)
    } else if k < 18 {
        u16_byte(h.ang, k - 16)
    } else {
        u16_byte(h.cursectnum, k - 18)
    }
}

/// The 20-byte layout of a header.
pub open spec fn header_bytes(h: Header) -> Seq<u8> {
    Seq::new(20, |k: int| header_byte(h, k))
}

impl Header {
    /// Reads the 20 header fields in layout order.
    pub fn read(s: &mut ByteStream) -> (r: Result<Header, MapError>)
        ensures
            final(s).bytes() == old(s).bytes(),
            old(s).spec_pos() + 20 <= old(s).bytes().len() ==> {
                &&& r == Ok::<Header, MapError>(spec_header(old(s).bytes(), old(s).spec_pos()))
                &&& final(s).spec_pos() == old(s).spec_pos() + 20
            },
            old(s).spec_pos() + 20 > old(s).bytes().len() ==> {
                &&& r == Err::<Header, MapError>(MapError::TruncatedInput)
                &&& final(s).spec_pos() == old(s).spec_pos()
            },
    {
        if !s.has_bytes(20) {
            return Err(MapError::TruncatedInput);
        }
        let version = s.read_u32()?;
        let posx = s.read_i32()?;
        let posy = s.read_i32()?;
        let posz = s.read_i32()?;
        let ang = s.read_u16()?;
        let cursectnum = s.read_u16()?;
        Ok(Header { version, posx, posy, posz, ang, cursectnum })
    }
}

/// Decoding the 20-byte layout of any header gives that header back.
pub proof fn lemma_header_round_trip(h: Header)
    ensures
        spec_header(header_bytes(h), 0) == h,
{
    lemma_u32_round_trip(h.version);
    lemma_u32_round_trip(u32_rep_i32(h.posx));
    lemma_i32_round_trip(h.posx);
    lemma_u32_round_trip(u32_rep_i32(h.posy));
    lemma_i32_round_trip(h.posy);
    lemma_u32_round_trip(u32_rep_i32(h.posz));
    lemma_i32_round_trip(h.posz);
    lemma_u16_round_trip(h.ang);
    lemma_u16_round_trip(h.cursectnum);
}

/// A 40-byte sector record: a contiguous run of walls plus ceiling and floor
/// surface attributes.
#[derive(Debug, Clone, Copy, PartialEq, Eq, Structural)]
pub struct Sector {
    pub wallptr: u16,
    pub wallnum: u16,
    pub ceilingz: i32,
    pub floorz: i32,
    pub ceilingstat: SectorStats,
    pub floorstat: SectorStats,
    pub ceilingpicnum: u16,
    pub ceilingheinum: i16,
    pub ceilingshade: i8,
    pub ceilingpal: u8,
    pub ceilingxpanning: u8,
    pub ceilingypanning: u8,
    pub floorpicnum: u16,
    pub floorheinum: i16,
    pub floorshade: i8,
    pub floorpal: u8,
    pub floorxpanning: u8,
    pub floorypanning: u8,
    pub visibility: i8,
    pub filler: i8,
    pub lotag: u16,
    pub hitag: u16,
    pub extra: u16,
}

/// The sector denoted by the 40 bytes of `d` starting at `i`.
pub open spec fn spec_sector(d: Seq<u8>, i: int) -> Sector {
    Sector {
        wallptr: le16(d, i) as u16,
        wallnum: le16(d, i + 2) as u16,
        ceilingz: signed32(le32(d, i + 4)) as i32,
        floorz: signed32(le32(d, i + 8)) as i32,
        ceilingstat: SectorStats(le16(d, i + 12) as u16),
        floorstat: SectorStats(le16(d, i + 14) as u16),
        ceilingpicnum: le16(d, i + 16) as u16,
        ceilingheinum: signed16(le16(d, i + 18)) as i16,
        ceilingshade: signed8(d[i + 20] as int) as i8,
        ceilingpal: d[i + 21],
        ceilingxpanning: d[i + 22],
        ceilingypanning: d[i + 23],
        floorpicnum: le16(d, i + 24) as u16,
        floorheinum: signed16(le16(d, i + 26)) as i16,
        floorshade: signed8(d[i + 28] as int) as i8,
        floorpal: d[i + 29],
        floorxpanning: d[i + 30],
        floorypanning: d[i + 31],
        visibility: signed8(d[i + 32] as int) as i8,
        filler: signed8(d[i + 33] as int) as i8,
        lotag: le16(d, i + 34) as u16,
        hitag: le16(d, i + 36) as u16,
        extra: le16(d, i + 38) as u16,
    }
}

/// Byte `k` of the 40-byte layout of a sector.
pub open spec fn sector_byte(c: Sector, k: int) -> u8 {
    if k < 2 {
        u16_byte(c.wallptr, k)
    } else if k < 4 {
        u16_byte(c.wallnum, k - 2)
    } else if k < 8 {
        i32_byte(c.ceilingz, k - 4)
    } else if k < 12 {
        i32_byte(c.floorz, k - 8)
    } else if k < 14 {
        u16_byte(c.ceilingstat.0, k - 12)
    } else if k < 16 {
        u16_byte(c.floorstat.0, k - 14)
    } else if k < 18 {
        u16_byte(c.ceilingpicnum, k - 16)
    } else if k < 20 {
        i16_byte(c.ceilingheinum, k - 18)
    } else if k == 20 {
        u8_rep_i8(c.ceilingshade)
    } else if k == 21 {
        c.ceilingpal
    } else if k == 22 {
        c.ceilingxpanning
    } else if k == 23 {
        c.ceilingypanning
    } else if k < 26 {
        u16_byte(c.floorpicnum, k - 24)
    } else if k < 28 {
        i16_byte(c.floorheinum, k - 26)
    } else if k == 28 {
        u8_rep_i8(c.floorshade)
    } else if k == 29 {
        c.floorpal
    } else if k == 30 {
        c.floorxpanning
    } else if k == 31 {
        c.floorypanning
    } else if k == 32 {
        u8_rep_i8(c.visibility)
    } else if k == 33 {
        u8_rep_i8(c.filler)
    } else if k < 36 {
        u16_byte(c.lotag, k - 34)
    } else if k < 38 {
        u16_byte(c.hitag, k - 36)
    } else {
        u16_byte(c.extra, k - 38)
    }
}

/// The 40-byte layout of a sector.
pub open spec fn sector_bytes(c: Sector) -> Seq<u8> {
    Seq::new(40, |k: int| sector_byte(c, k))
}

impl Sector {
    /// Reads the 23 sector fields in layout order.
    pub fn read(s: &mut ByteStream) -> (r: Result<Sector, MapError>)
        ensures
            final(s).bytes() == old(s).bytes(),
            old(s).spec_pos() + 40 <= old(s).bytes().len() ==> {
                &&& r == Ok::<Sector, MapError>(spec_sector(old(s).bytes(), old(s).spec_pos()))
                &&& final(s).spec_pos() == old(s).spec_pos() + 40
            },
            old(s).spec_pos() + 40 > old(s).bytes().len() ==> {
                &&& r == Err::<Sector, MapError>(MapError::TruncatedInput)
                &&& final(s).spec_pos() == old(s).spec_pos()
            },
    {
        if !s.has_bytes(40) {
            return Err(MapError::TruncatedInput);
        }
        Ok(
            Sector {
                wallptr: s.read_u16()?,
                wallnum: s.read_u16()?,
                ceilingz: s.read_i32()?,
                floorz: s.read_i32()?,
                ceilingstat: SectorStats::read(s)?,
                floorstat: SectorStats::read(s)?,
                ceilingpicnum: s.read_u16()?,
                ceilingheinum: s.read_i16()?,
                ceilingshade: s.read_i8()?,
                ceilingpal: s.read_u8()?,
                ceilingxpanning: s.read_u8()?,
                ceilingypanning: s.read_u8()?,
                floorpicnum: s.read_u16()?,
                floorheinum: s.read_i16()?,
                floorshade: s.read_i8()?,
                floorpal: s.read_u8()?,
                floorxpanning: s.read_u8()?,
                floorypanning: s.read_u8()?,
                visibility: s.read_i8()?,
                filler: s.read_i8()?,
                lotag: s.read_u16()?,
                hitag: s.read_u16()?,
                extra: s.read_u16()?,
            },
        )
    }
}

/// Decoding the 40-byte layout of any sector gives that sector back.
pub proof fn lemma_sector_round_trip(c: Sector)
    ensures
        spec_sector(sector_bytes(c), 0) == c,
{
    lemma_u16_round_trip(c.wallptr);
    lemma_u16_round_trip(c.wallnum);
    lemma_u32_round_trip(u32_rep_i32(c.ceilingz));
    lemma_i32_round_trip(c.ceilingz);
    lemma_u32_round_trip(u32_rep_i32(c.floorz));
    lemma_i32_round_trip(c.floorz);
    lemma_u16_round_trip(c.ceilingstat.0);
    lemma_u16_round_trip(c.floorstat.0);
    lemma_u16_round_trip(c.ceilingpicnum);
    lemma_u16_round_trip(u16_rep_i16(c.ceilingheinum));
    lemma_i16_round_trip(c.ceilingheinum);
    lemma_i8_round_trip(c.ceilingshade);
    lemma_u16_round_trip(c.floorpicnum);
    lemma_u16_round_trip(u16_rep_i16(c.floorheinum));
    lemma_i16_round_trip(c.floorheinum);
    lemma_i8_round_trip(c.floorshade);
    lemma_i8_round_trip(c.visibility);
    lemma_i8_round_trip(c.filler);
    lemma_u16_round_trip(c.lotag);
    lemma_u16_round_trip(c.hitag);
    lemma_u16_round_trip(c.extra);
}

/// A 32-byte wall record: one directed edge of a sector's boundary polygon.
#[derive(Debug, Clone, Copy, PartialEq, Eq, Structural)]
pub struct Wall {
    pub x: i32,
    pub y: i32,
    pub point2: u16,
    pub nextwall: i16,
    pub nextsector: i16,
    pub cstat: WallStats,
    pub picnum: u16,
    pub overpicnum: u16,
    pub shade: i8,
    pub pal: u8,
    pub xrepeat: u8,
    pub yrepeat: u8,
    pub xpanning: u8,
    pub ypanning: u8,
    pub lotag: u16,
    pub hitag: u16,
    pub extra: u16,
}

/// The wall denoted by the 32 bytes of `d` starting at `i`.
pub open spec fn spec_wall(d: Seq<u8>, i: int) -> Wall {
    Wall {
        x: signed32(le32(d, i)) as i32,
        y: signed32(le32(d, i + 4)) as i32,
        point2: le16(d, i + 8) as u16,
        nextwall: signed16(le16(d, i + 10)) as i16,
        nextsector: signed16(le16(d, i + 12)) as i16,
        cstat: WallStats(le16(d, i + 14) as u16),
        picnum: le16(d, i + 16) as u16,
        overpicnum: le16(d, i + 18) as u16,
        shade: signed8(d[i + 20] as int) as i8,
        pal: d[i + 21],
        xrepeat: d[i + 22],
        yrepeat: d[i + 23],
        xpanning: d[i + 24],
        ypanning: d[i + 25],
        lotag: le16(d, i + 26) as u16,
        hitag: le16(d, i + 28) as u16,
        extra: le16(d, i + 30) as u16,
    }
}

/// Byte `k` of the 32-byte layout of a wall.
pub open spec fn wall_byte(w: Wall, k: int) -> u8 {
    if k < 4 {
        i32_byte(w.x, k)
    } else if k < 8 {
        i32_byte(w.y, k - 4)
    } else if k < 10 {
        u16_byte(w.point2, k - 8)
    } else if k < 12 {
        i16_byte(w.nextwall, k - 10)
    } else if k < 14 {
        i16_byte(w.nextsector, k - 12)
    } else if k < 16 {
        u16_byte(w.cstat.0, k - 14)
    } else if k < 18 {
        u16_byte(w.picnum, k - 16)
    } else if k < 20 {
        u16_byte(w.overpicnum, k - 18)
    } else if k == 20 {
        u8_rep_i8(w.shade)
    } else if k == 21 {
        w.pal
    } else if k == 22 {
        w.xrepeat
    } else if k == 23 {
        w.yrepeat
    } else if k == 24 {
        w.xpanning
    } else if k == 25 {
        w.ypanning
    } else if k < 28 {
        u16_byte(w.lotag, k - 26)
    } else if k < 30 {
        u16_byte(w.hitag, k - 28)
    } else {
        u16_byte(w.extra, k - 30)
    }
}

/// The 32-byte layout of a wall.
pub open spec fn wall_bytes(w: Wall) -> Seq<u8> {
    Seq::new(32, |k: int| wall_byte(w, k))
}

impl Wall {
    /// Reads the 17 wall fields in layout order.
    pub fn read(s: &mut ByteStream) -> (r: Result<Wall, MapError>)
        ensures
            final(s).bytes() == old(s).bytes(),
            old(s).spec_pos() + 32 <= old(s).bytes().len() ==> {
                &&& r == Ok::<Wall, MapError>(spec_wall(old(s).bytes(), old(s).spec_pos()))
                &&& final(s).spec_pos() == old(s).spec_pos() + 32
            },
            old(s).spec_pos() + 32 > old(s).bytes().len() ==> {
                &&& r == Err::<Wall, MapError>(MapError::TruncatedInput)
                &&& final(s).spec_pos() == old(s).spec_pos()
            },
    {
        if !s.has_bytes(32) {
            return Err(MapError::TruncatedInput);
        }
        Ok(
            Wall {
                x: s.read_i32()?,
                y: s.read_i32()?,
                point2: s.read_u16()?,
                nextwall: s.read_i16()?,
                nextsector: s.read_i16()?,
                cstat: WallStats::read(s)?,
                picnum: s.read_u16()?,
                overpicnum: s.read_u16()?,
                shade: s.read_i8()?,
                pal: s.read_u8()?,
                xrepeat: s.read_u8()?,
                yrepeat: s.read_u8()?,
                xpanning: s.read_u8()?,
                ypanning: s.read_u8()?,
                lotag: s.read_u16()?,
                hitag: s.read_u16()?,
                extra: s.read_u16()?,
            },
        )
    }
}

/// Decoding the 32-byte layout of any wall gives that wall back.
pub proof fn lemma_wall_round_trip(w: Wall)
    ensures
        spec_wall(wall_bytes(w), 0) == w,
{
    lemma_u32_round_trip(u32_rep_i32(w.x));
    lemma_i32_round_trip(w.x);
    lemma_u32_round_trip(u32_rep_i32(w.y));
    lemma_i32_round_trip(w.y);
    lemma_u16_round_trip(w.point2);
    lemma_u16_round_trip(u16_rep_i16(w.nextwall));
    lemma_i16_round_trip(w.nextwall);
    lemma_u16_round_trip(u16_rep_i16(w.nextsector));
    lemma_i16_round_trip(w.nextsector);
    lemma_u16_round_trip(w.cstat.0);
    lemma_u16_round_trip(w.picnum);
    lemma_u16_round_trip(w.overpicnum);
    lemma_i8_round_trip(w.shade);
    lemma_u16_round_trip(w.lotag);
    lemma_u16_round_trip(w.hitag);
    lemma_u16_round_trip(w.extra);
}

/// A 44-byte sprite record: a positioned game entity within a sector.
#[derive(Debug, Clone, Copy, PartialEq, Eq, Structural)]
pub struct Sprite {
    pub x: i32,
    pub y: i32,
    pub z: i32,
    pub cstat: SpriteStats,
    pub picnum: u16,
    pub shade: i8,
    pub pal: u8,
    pub clipdist: u8,
    pub filler: u8,
    pub xrepeat: u8,
    pub yrepeat: u8,
    pub xoffset: u8,
    pub yoffset: u8,
    pub sectnum: u16,
    pub statnum: u16,
    pub ang: u16,
    pub owner: u16,
    pub xvel: i16,
    pub yvel: i16,
    pub zvel: i16,
    pub lotag: u16,
    pub hitag: u16,
    pub extra: u16,
}

/// The sprite denoted by the 44 bytes of `d` starting at `i`.
pub open spec fn spec_sprite(d: Seq<u8>, i: int) -> Sprite {
    Sprite {
        x: signed32(le32(d, i)) as i32,
        y: signed32(le32(d, i + 4)) as i32,
        z: signed32(le32(d, i + 8)) as i32,
        cstat: SpriteStats(le16(d, i + 12) as u16),
        picnum: le16(d, i + 14) as u16,
        shade: signed8(d[i + 16] as int) as i8,
        pal: d[i + 17],
        clipdist: d[i + 18],
        filler: d[i + 19],
        xrepeat: d[i + 20],
        yrepeat: d[i + 21],
        xoffset: d[i + 22],
        yoffset: d[i + 23],
        sectnum: le16(d, i + 24) as u16,
        statnum: le16(d, i + 26) as u16,
        ang: le16(d, i + 28) as u16,
        owner: le16(d, i + 30) as u16,
        xvel: signed16(le16(d, i + 32)) as i16,
        yvel: signed16(le16(d, i + 34)) as i16,
        zvel: signed16(le16(d, i + 36)) as i16,
        lotag: le16(d, i + 38) as u16,
        hitag: le16(d, i + 40) as u16,
        extra: le16(d, i + 42) as u16,
    }
}

/// Byte `k` of the 44-byte layout of a sprite.
pub open spec fn sprite_byte(p: Sprite, k: int) -> u8 {
    if k < 4 {
        i32_byte(p.x, k)
    } else if k < 8 {
        i32_byte(p.y, k - 4)
    } else if k < 12 {
        i32_byte(p.z, k - 8)
    } else if k < 14 {
        u16_byte(p.cstat.0, k - 12)
    } else if k < 16 {
        u16_byte(p.picnum, k - 14)
    } else if k == 16 {
        u8_rep_i8(p.shade)
    } else if k == 17 {
        p.pal
    } else if k == 18 {
        p.clipdist
    } else if k == 19 {
        p.filler
    } else if k == 20 {
        p.xrepeat
    } else if k == 21 {
        p.yrepeat
    } else if k == 22 {
        p.xoffset
    } else if k == 23 {
        p.yoffset
    } else if k < 26 {
        u16_byte(p.sectnum, k - 24)
    } else if k < 28 {
        u16_byte(p.statnum, k - 26)
    } else if k < 30 {
        u16_byte(p.ang, k - 28)
    } else if k < 32 {
        u16_byte(p.owner, k - 30)
    } else if k < 34 {
        i16_byte(p.xvel, k - 32)
    } else if k < 36 {
        i16_byte(p.yvel, k - 34)
    } else if k < 38 {
        i16_byte(p.zvel, k - 36)
    } else if k < 40 {
        u16_byte(p.lotag, k - 38)
    } else if k < 42 {
        u16_byte(p.hitag, k - 40)
    } else {
        u16_byte(p.extra, k - 42)
    }
}

/// The 44-byte layout of a sprite.
pub open spec fn sprite_bytes(p: Sprite) -> Seq<u8> {
    Seq::new(44, |k: int| sprite_byte(p, k))
}

impl Sprite {
    /// Reads the 23 sprite fields in layout order.
    pub fn read(s: &mut ByteStream) -> (r: Result<Sprite, MapError>)
        ensures
            final(s).bytes() == old(s).bytes(),
            old(s).spec_pos() + 44 <= old(s).bytes().len() ==> {
                &&& r == Ok::<Sprite, MapError>(spec_sprite(old(s).bytes(), old(s).spec_pos()))
                &&& final(s).spec_pos() == old(s).spec_pos() + 44
            },
            old(s).spec_pos() + 44 > old(s).bytes().len() ==> {
                &&& r == Err::<Sprite, MapError>(MapError::TruncatedInput)
                &&& final(s).spec_pos() == old(s).spec_pos()
            },
    {
        if !s.has_bytes(44) {
            return Err(MapError::TruncatedInput);
        }
        Ok(
            Sprite {
                x: s.read_i32()?,
                y: s.read_i32()?,
                z: s.read_i32()?,
                cstat: SpriteStats::read(s)?,
                picnum: s.read_u16()?,
                shade: s.read_i8()?,
                pal: s.read_u8()?,
                clipdist: s.read_u8()?,
                filler: s.read_u8()?,
                xrepeat: s.read_u8()?,
                yrepeat: s.read_u8()?,
                xoffset: s.read_u8()?,
                yoffset: s.read_u8()?,
                sectnum: s.read_u16()?,
                statnum: s.read_u16()?,
                ang: s.read_u16()?,
                owner: s.read_u16()?,
                xvel: s.read_i16()?,
                yvel: s.read_i16()?,
                zvel: s.read_i16()?,
                lotag: s.read_u16()?,
                hitag: s.read_u16()?,
                extra: s.read_u16()?,
            },
        )
    }
}

/// Decoding the 44-byte layout of any sprite gives that sprite back.
pub proof fn lemma_sprite_round_trip(p: Sprite)
    ensures
        spec_sprite(sprite_bytes(p), 0) == p,
{
    lemma_u32_round_trip(u32_rep_i32(p.x));
    lemma_i32_round_trip(p.x);
    lemma_u32_round_trip(u32_rep_i32(p.y));
    lemma_i32_round_trip(p.y);
    lemma_u32_round_trip(u32_rep_i32(p.z));
    lemma_i32_round_trip(p.z);
    lemma_u16_round_trip(p.cstat.0);
    lemma_u16_round_trip(p.picnum);
    lemma_i8_round_trip(p.shade);
    lemma_u16_round_trip(p.sectnum);
    lemma_u16_round_trip(p.statnum);
    lemma_u16_round_trip(p.ang);
    lemma_u16_round_trip(p.owner);
    lemma_u16_round_trip(u16_rep_i16(p.xvel));
    lemma_i16_round_trip(p.xvel);
    lemma_u16_round_trip(u16_rep_i16(p.yvel));
    lemma_i16_round_trip(p.yvel);
    lemma_u16_round_trip(u16_rep_i16(p.zvel));
    lemma_i16_round_trip(p.zvel);
    lemma_u16_round_trip(p.lotag);
    lemma_u16_round_trip(p.hitag);
    lemma_u16_round_trip(p.extra);
}

} // verus!
