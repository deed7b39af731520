//! The Board container: one header followed by three length-prefixed runs of
//! records, decoded in one pass over the stream.
//!
//! The counts sit at offsets that depend on the earlier counts, so the layout
//! is described by a chain of spec functions: `spec_num_sectors` reads the
//! sector count behind the header, `spec_sectors_end` is where that run ends,
//! and so on up to `spec_board_end`, the total extent of the board. The wall
//! count is the one signed count in the format; a negative value means no
//! walls are read. `Board::read` is proved to succeed exactly on the inputs
//! where the whole extent fits (`spec_board_readable`), consuming exactly the
//! extent and returning record sequences whose every element is the spec
//! decode of its bytes; on shorter input it fails with `TruncatedInput` and
//! puts the read position back where it started.

use vstd::prelude::*;

use crate::records::Header;
use crate::records::Sector;
use crate::records::Sprite;
use crate::records::Wall;
use crate::records::spec_header;
use crate::records::spec_sector;
use crate::records::spec_sprite;
use crate::records::spec_wall;
use crate::stream::ByteStream;
use crate::stream::MapError;
use crate::stream::le16;
use crate::stream::signed16;

verus! {

/// The sector count of a board starting at `i`: the unsigned 16-bit word
/// just behind the 20-byte header.
pub open spec fn spec_num_sectors(d: Seq<u8>, i: int) -> int {
    le16(d, i + 20)
}

/// Where the sector run of a board starting at `i` ends.
pub open spec fn spec_sectors_end(d: Seq<u8>, i: int) -> int {
    i + 22 + 40 * spec_num_sectors(d, i)
}

/// The wall count: the one signed count in the format. A negative word
/// means no walls are read.
pub open spec fn spec_num_walls(d: Seq<u8>, i: int) -> int {
    let n = signed16(le16(d, spec_sectors_end(d, i)));
    if n < 0 {
        0
    } else {
        n
    }
}

/// Where the wall run of a board starting at `i` ends.
pub open spec fn spec_walls_end(d: Seq<u8>, i: int) -> int {
    spec_sectors_end(d, i) + 2 + 32 * spec_num_walls(d, i)
}

/// The sprite count: the unsigned 16-bit word behind the wall run.
pub open spec fn spec_num_sprites(d: Seq<u8>, i: int) -> int {
    le16(d, spec_walls_end(d, i))
}

/// Where a board starting at `i` ends: the position of the first byte the
/// decoder does not consume.
pub open spec fn spec_board_end(d: Seq<u8>, i: int) -> int {
    spec_walls_end(d, i) + 2 + 44 * spec_num_sprites(d, i)
}

/// Whether `d` holds a complete board at `i`: the header and each count
/// word are present, and each run of records fits before the end of `d`.
pub open spec fn spec_board_readable(d: Seq<u8>, i: int) -> bool {
    &&& i + 22 <= d.len()
    &&& spec_sectors_end(d, i) + 2 <= d.len()
    &&& spec_walls_end(d, i) + 2 <= d.len()
    &&& spec_board_end(d, i) <= d.len()
}

/// A fully decoded map: the header and the three record sequences, in file
/// order.
#[derive(Debug)]
pub struct Board {
    pub header: Header,
    pub sectors: Vec<Sector>,
    pub walls: Vec<Wall>,
    pub sprites: Vec<Sprite>,
}

/// The squared length of the wall segment from wall `i` to the wall at its
/// `point2` index, over the walls' exact integer coordinates.
pub open spec fn spec_wall_len_sq(ws: Seq<Wall>, i: int) -> int {
    let a = ws[i];
    let b = ws[a.point2 as int];
    (a.x - b.x) * (a.x - b.x) + (a.y - b.y) * (a.y - b.y)
}

impl Board {
    /// Decodes one complete board: the header, then each count followed by
    /// exactly that many fixed-size records. Succeeds if and only if the
    /// whole board fits in the remaining bytes, consuming exactly
    /// `20 + 2 + 40*num_sectors + 2 + 32*num_walls + 2 + 44*num_sprites`
    /// bytes; otherwise fails with `TruncatedInput`, the position restored.
    /// Bytes behind the last sprite are left unread.
    #[verifier::loop_isolation(false)]
    pub fn read(s: &mut ByteStream) -> (r: Result<Board, MapError>)
        ensures
            final(s).bytes() == old(s).bytes(),
            spec_board_readable(old(s).bytes(), old(s).spec_pos()) ==> {
                let d = old(s).bytes();
                let i = old(s).spec_pos();
                &&& r is Ok
                &&& r->Ok_0.header == spec_header(d, i)
                &&& r->Ok_0.sectors@.len() == spec_num_sectors(d, i)
                &&& (forall|j: int|
                    0 <= j < spec_num_sectors(d, i) ==> r->Ok_0.sectors@[j] == spec_sector(
                        d,
                        i + 22 + 40 * j,
                    ))
                &&& r->Ok_0.walls@.len() == spec_num_walls(d, i)
                &&& (forall|j: int|
                    0 <= j < spec_num_walls(d, i) ==> r->Ok_0.walls@[j] == spec_wall(
                        d,
                        spec_sectors_end(d, i) + 2 + 32 * j,
                    ))
                &&& r->Ok_0.sprites@.len() == spec_num_sprites(d, i)
                &&& (forall|j: int|
                    0 <= j < spec_num_sprites(d, i) ==> r->Ok_0.sprites@[j] == spec_sprite(
                        d,
                        spec_walls_end(d, i) + 2 + 44 * j,
                    ))
                &&& final(s).spec_pos() == spec_board_end(d, i)
            },
            !spec_board_readable(old(s).bytes(), old(s).spec_pos()) ==> {
                &&& r == Err::<Board, MapError>(MapError::TruncatedInput)
                &&& final(s).spec_pos() == old(s).spec_pos()
            },
    {
        let ghost d = s.bytes();
        let ghost i = s.spec_pos();
        let start = s.position();

        let header = match Header::read(s) {
            Ok(h) => h,
            Err(e) => {
                s.set_pos(start);
                return Err(e);
            },
        };
        let num_sectors = match s.read_u16() {
            Ok(n) => n,
            Err(e) => {
                s.set_pos(start);
                return Err(e);
            },
        };
        let mut sectors: Vec<Sector> = Vec::new();
        let mut j: u16 = 0;
        while j < num_sectors
            invariant
                s.bytes() == d,
                s.spec_pos() == i + 22 + 40 * j,
                s.spec_pos() <= d.len(),
                i + 22 <= d.len(),
                j <= num_sectors,
                num_sectors == spec_num_sectors(d, i),
                sectors@.len() == j,
                forall|k: int| 0 <= k < j ==> sectors@[k] == spec_sector(d, i + 22 + 40 * k),
            decreases num_sectors - j,
        {
            match Sector::read(s) {
                Ok(c) => sectors.push(c),
                Err(e) => {
                    proof {
                        assert(spec_sectors_end(d, i) >= i + 22 + 40 * (j + 1));
                    }
                    s.set_pos(start);
                    return Err(e);
                },
            }
            j = j + 1;
        }
        let num_walls_raw = match s.read_i16() {
            Ok(n) => n,
            Err(e) => {
                s.set_pos(start);
                return Err(e);
            },
        };
        let num_walls: u16 = if num_walls_raw < 0 {
            0
        } else {
            num_walls_raw as u16
        };
        let mut walls: Vec<Wall> = Vec::new();
        let mut j: u16 = 0;
        while j < num_walls
            invariant
                s.bytes() == d,
                s.spec_pos() == spec_sectors_end(d, i) + 2 + 32 * j,
                s.spec_pos() <= d.len(),
                spec_sectors_end(d, i) + 2 <= d.len(),
                i + 22 <= d.len(),
                j <= num_walls,
                num_walls == spec_num_walls(d, i),
                walls@.len() == j,
                forall|k: int|
                    0 <= k < j ==> walls@[k] == spec_wall(d, spec_sectors_end(d, i) + 2 + 32 * k),
            decreases num_walls - j,
        {
            match Wall::read(s) {
                Ok(w) => walls.push(w),
                Err(e) => {
                    proof {
                        assert(spec_walls_end(d, i) >= spec_sectors_end(d, i) + 2 + 32 * (j + 1));
                    }
                    s.set_pos(start);
                    return Err(e);
                },
            }
            j = j + 1;
        }
        let num_sprites = match s.read_u16() {
            Ok(n) => n,
            Err(e) => {
                s.set_pos(start);
                return Err(e);
            },
        };
        let mut sprites: Vec<Sprite> = Vec::new();
        let mut j: u16 = 0;
        while j < num_sprites
            invariant
                s.bytes() == d,
                s.spec_pos() == spec_walls_end(d, i) + 2 + 44 * j,
                s.spec_pos() <= d.len(),
                spec_walls_end(d, i) + 2 <= d.len(),
                spec_sectors_end(d, i) + 2 <= d.len(),
                i + 22 <= d.len(),
                j <= num_sprites,
                num_sprites == spec_num_sprites(d, i),
                sprites@.len() == j,
                forall|k: int|
                    0 <= k < j ==> sprites@[k] == spec_sprite(d, spec_walls_end(d, i) + 2 + 44 * k),
            decreases num_sprites - j,
        {
            match Sprite::read(s) {
                Ok(p) => sprites.push(p),
                Err(e) => {
                    proof {
                        assert(spec_board_end(d, i) >= spec_walls_end(d, i) + 2 + 44 * (j + 1));
                    }
                    s.set_pos(start);
                    return Err(e);
                },
            }
            j = j + 1;
        }
        Ok(Board { header, sectors, walls, sprites })
    }

    /// The squared Euclidean length of the wall segment from `wall_id` to
    /// the wall at its `point2` index, exact over the integer coordinates.
    /// Fails with `IndexOutOfRange` if and only if `wall_id` or the resolved
    /// `point2` index lies beyond the walls sequence.
    pub fn walllen_sq(&self, wall_id: usize) -> (r: Result<u128, MapError>)
        ensures
            (wall_id < self.walls@.len() && self.walls@[wall_id as int].point2
                < self.walls@.len()) ==> {
                &&& r is Ok
                &&& r->Ok_0 == spec_wall_len_sq(self.walls@, wall_id as int)
            },
            !(wall_id < self.walls@.len() && self.walls@[wall_id as int].point2
                < self.walls@.len()) ==> r == Err::<u128, MapError>(MapError::IndexOutOfRange),
    {
        if wall_id >= self.walls.len() {
            return Err(MapError::IndexOutOfRange);
        }
        let a = &self.walls[wall_id];
        let p2 = a.point2 as usize;
        if p2 >= self.walls.len() {
            return Err(MapError::IndexOutOfRange);
        }
        let b = &self.walls[p2];
        let dx: i64 = a.x as i64 - b.x as i64;
        let dy: i64 = a.y as i64 - b.y as i64;
        proof {
            assert(dx * dx <= 0x1_0000_0000_0000_0000 && dx * dx >= 0 && dy * dy
                <= 0x1_0000_0000_0000_0000 && dy * dy >= 0) by (nonlinear_arith)
                requires
                    -0x1_0000_0000 <= dx <= 0x1_0000_0000,
                    -0x1_0000_0000 <= dy <= 0x1_0000_0000,
            ;
        }
        let dx2: i128 = dx as i128 * dx as i128;
        let dy2: i128 = dy as i128 * dy as i128;
        Ok((dx2 + dy2) as u128)
    }
}

} // verus!
