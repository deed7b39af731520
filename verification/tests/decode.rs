use buildmap::board::Board;
use buildmap::records::Header;
use buildmap::records::Sector;
use buildmap::records::Sprite;
use buildmap::records::Wall;
use buildmap::stream::ByteStream;
use buildmap::stream::MapError;

fn push_u16(out: &mut Vec<u8>, v: u16) {
    out.extend_from_slice(&v.to_le_bytes());
}

fn push_i16(out: &mut Vec<u8>, v: i16) {
    out.extend_from_slice(&v.to_le_bytes());
}

fn push_u32(out: &mut Vec<u8>, v: u32) {
    out.extend_from_slice(&v.to_le_bytes());
}

fn push_i32(out: &mut Vec<u8>, v: i32) {
    out.extend_from_slice(&v.to_le_bytes());
}

fn header_bytes() -> Vec<u8> {
    let mut b = Vec::new();
    push_u32(&mut b, 7);
    push_i32(&mut b, -1024);
    push_i32(&mut b, 2048);
    push_i32(&mut b, -300_000);
    push_u16(&mut b, 1536);
    push_u16(&mut b, 3);
    b
}

fn check_header(h: &Header) {
    assert_eq!(h.version, 7);
    assert_eq!(h.posx, -1024);
    assert_eq!(h.posy, 2048);
    assert_eq!(h.posz, -300_000);
    assert_eq!(h.ang, 1536);
    assert_eq!(h.cursectnum, 3);
}

fn sector_bytes() -> Vec<u8> {
    let mut b = Vec::new();
    push_u16(&mut b, 4); // wallptr
    push_u16(&mut b, 6); // wallnum
    push_i32(&mut b, -8192); // ceilingz
    push_i32(&mut b, 0); // floorz
    push_u16(&mut b, 0x0003); // ceilingstat
    push_u16(&mut b, 0x8001); // floorstat
    push_u16(&mut b, 91); // ceilingpicnum
    push_i16(&mut b, -2048); // ceilingheinum
    b.push(0x81); // ceilingshade = -127
    b.push(5); // ceilingpal
    b.push(32); // ceilingxpanning
    b.push(64); // ceilingypanning
    push_u16(&mut b, 183); // floorpicnum
    push_i16(&mut b, 512); // floorheinum
    b.push(0x7f); // floorshade = 127
    b.push(6); // floorpal
    b.push(1); // floorxpanning
    b.push(2); // floorypanning
    b.push(0xff); // visibility = -1
    b.push(0); // filler
    push_u16(&mut b, 10); // lotag
    push_u16(&mut b, 20); // hitag
    push_u16(&mut b, 0xffff); // extra
    b
}

fn check_sector(c: &Sector) {
    assert_eq!(c.wallptr, 4);
    assert_eq!(c.wallnum, 6);
    assert_eq!(c.ceilingz, -8192);
    assert_eq!(c.floorz, 0);
    assert_eq!(c.ceilingstat.0, 0x0003);
    assert_eq!(c.floorstat.0, 0x8001);
    assert_eq!(c.ceilingpicnum, 91);
    assert_eq!(c.ceilingheinum, -2048);
    assert_eq!(c.ceilingshade, -127);
    assert_eq!(c.ceilingpal, 5);
    assert_eq!(c.ceilingxpanning, 32);
    assert_eq!(c.ceilingypanning, 64);
    assert_eq!(c.floorpicnum, 183);
    assert_eq!(c.floorheinum, 512);
    assert_eq!(c.floorshade, 127);
    assert_eq!(c.floorpal, 6);
    assert_eq!(c.floorxpanning, 1);
    assert_eq!(c.floorypanning, 2);
    assert_eq!(c.visibility, -1);
    assert_eq!(c.filler, 0);
    assert_eq!(c.lotag, 10);
    assert_eq!(c.hitag, 20);
    assert_eq!(c.extra, 0xffff);
}

fn wall_bytes(x: i32, y: i32, point2: u16) -> Vec<u8> {
    let mut b = Vec::new();
    push_i32(&mut b, x);
    push_i32(&mut b, y);
    push_u16(&mut b, point2);
    push_i16(&mut b, -1); // nextwall
    push_i16(&mut b, -1); // nextsector
    push_u16(&mut b, 0x0141); // cstat
    push_u16(&mut b, 42); // picnum
    push_u16(&mut b, 43); // overpicnum
    b.push(0x80); // shade = -128
    b.push(7); // pal
    b.push(8); // xrepeat
    b.push(9); // yrepeat
    b.push(10); // xpanning
    b.push(11); // ypanning
    push_u16(&mut b, 100); // lotag
    push_u16(&mut b, 200); // hitag
    push_u16(&mut b, 300); // extra
    b
}

fn check_wall(w: &Wall, x: i32, y: i32, point2: u16) {
    assert_eq!(w.x, x);
    assert_eq!(w.y, y);
    assert_eq!(w.point2, point2);
    assert_eq!(w.nextwall, -1);
    assert_eq!(w.nextsector, -1);
    assert_eq!(w.cstat.0, 0x0141);
    assert_eq!(w.picnum, 42);
    assert_eq!(w.overpicnum, 43);
    assert_eq!(w.shade, -128);
    assert_eq!(w.pal, 7);
    assert_eq!(w.xrepeat, 8);
    assert_eq!(w.yrepeat, 9);
    assert_eq!(w.xpanning, 10);
    assert_eq!(w.ypanning, 11);
    assert_eq!(w.lotag, 100);
    assert_eq!(w.hitag, 200);
    assert_eq!(w.extra, 300);
}

fn sprite_bytes() -> Vec<u8> {
    let mut b = Vec::new();
    push_i32(&mut b, 1_000_000);
    push_i32(&mut b, -1_000_000);
    push_i32(&mut b, i32::MIN);
    push_u16(&mut b, 0xC001); // cstat
    push_u16(&mut b, 22); // picnum
    b.push(0x00); // shade
    b.push(1); // pal
    b.push(32); // clipdist
    b.push(0); // filler
    b.push(48); // xrepeat
    b.push(48); // yrepeat
    b.push(0xfe); // xoffset
    b.push(0x01); // yoffset
    push_u16(&mut b, 0); // sectnum
    push_u16(&mut b, 1); // statnum
    push_u16(&mut b, 1024); // ang
    push_u16(&mut b, 0xffff); // owner
    push_i16(&mut b, -30000); // xvel
    push_i16(&mut b, 30000); // yvel
    push_i16(&mut b, i16::MIN); // zvel
    push_u16(&mut b, 55); // lotag
    push_u16(&mut b, 66); // hitag
    push_u16(&mut b, 77); // extra
    b
}

fn check_sprite(p: &Sprite) {
    assert_eq!(p.x, 1_000_000);
    assert_eq!(p.y, -1_000_000);
    assert_eq!(p.z, i32::MIN);
    assert_eq!(p.cstat.0, 0xC001);
    assert_eq!(p.picnum, 22);
    assert_eq!(p.shade, 0);
    assert_eq!(p.pal, 1);
    assert_eq!(p.clipdist, 32);
    assert_eq!(p.filler, 0);
    assert_eq!(p.xrepeat, 48);
    assert_eq!(p.yrepeat, 48);
    assert_eq!(p.xoffset, 0xfe);
    assert_eq!(p.yoffset, 0x01);
    assert_eq!(p.sectnum, 0);
    assert_eq!(p.statnum, 1);
    assert_eq!(p.ang, 1024);
    assert_eq!(p.owner, 0xffff);
    assert_eq!(p.xvel, -30000);
    assert_eq!(p.yvel, 30000);
    assert_eq!(p.zvel, i16::MIN);
    assert_eq!(p.lotag, 55);
    assert_eq!(p.hitag, 66);
    assert_eq!(p.extra, 77);
}

#[test]
fn header_known_values_round_trip() {
    let mut s = ByteStream::new(header_bytes());
    let h = Header::read(&mut s).unwrap();
    check_header(&h);
    assert_eq!(s.position(), 20);
}

#[test]
fn sector_known_values_round_trip() {
    let bytes = sector_bytes();
    assert_eq!(bytes.len(), 40);
    let mut s = ByteStream::new(bytes);
    let c = Sector::read(&mut s).unwrap();
    check_sector(&c);
    assert_eq!(s.position(), 40);
}

#[test]
fn wall_known_values_round_trip() {
    let bytes = wall_bytes(-77, 88, 12);
    assert_eq!(bytes.len(), 32);
    let mut s = ByteStream::new(bytes);
    let w = Wall::read(&mut s).unwrap();
    check_wall(&w, -77, 88, 12);
    assert_eq!(s.position(), 32);
}

#[test]
fn sprite_known_values_round_trip() {
    let bytes = sprite_bytes();
    assert_eq!(bytes.len(), 44);
    let mut s = ByteStream::new(bytes);
    let p = Sprite::read(&mut s).unwrap();
    check_sprite(&p);
    assert_eq!(s.position(), 44);
}

#[test]
fn header_alone_truncates_at_sector_count() {
    let mut s = ByteStream::new(header_bytes());
    let r = Board::read(&mut s);
    assert_eq!(r.unwrap_err(), MapError::TruncatedInput);
    assert_eq!(s.position(), 0);
}

#[test]
fn short_header_truncates() {
    let mut s = ByteStream::new(vec![0u8; 19]);
    let r = Header::read(&mut s);
    assert_eq!(r.unwrap_err(), MapError::TruncatedInput);
    assert_eq!(s.position(), 0);
}

#[test]
fn empty_counts_give_empty_board() {
    let mut bytes = header_bytes();
    push_u16(&mut bytes, 0); // sectorCount
    push_i16(&mut bytes, 0); // wallCount
    push_u16(&mut bytes, 0); // spriteCount
    let mut s = ByteStream::new(bytes);
    let b = Board::read(&mut s).unwrap();
    check_header(&b.header);
    assert_eq!(b.sectors.len(), 0);
    assert_eq!(b.walls.len(), 0);
    assert_eq!(b.sprites.len(), 0);
    assert_eq!(s.position(), 26);
}

#[test]
fn negative_wall_count_reads_no_walls() {
    let mut bytes = header_bytes();
    push_u16(&mut bytes, 0); // sectorCount
    push_i16(&mut bytes, -5); // wallCount
    push_u16(&mut bytes, 0); // spriteCount
    let mut s = ByteStream::new(bytes);
    let b = Board::read(&mut s).unwrap();
    assert_eq!(b.walls.len(), 0);
    assert_eq!(s.position(), 26);
}

#[test]
fn full_board_consumes_exact_extent() {
    let mut bytes = header_bytes();
    push_u16(&mut bytes, 1); // sectorCount
    bytes.extend_from_slice(&sector_bytes());
    push_i16(&mut bytes, 2); // wallCount
    bytes.extend_from_slice(&wall_bytes(0, 0, 1));
    bytes.extend_from_slice(&wall_bytes(3, 4, 0));
    push_u16(&mut bytes, 1); // spriteCount
    bytes.extend_from_slice(&sprite_bytes());
    bytes.extend_from_slice(&[0xAA, 0xBB, 0xCC]); // trailing bytes are left unread
    let expected = 20 + 2 + 40 + 2 + 32 * 2 + 2 + 44;
    assert_eq!(bytes.len(), expected + 3);

    let mut s = ByteStream::new(bytes);
    let b = Board::read(&mut s).unwrap();
    assert_eq!(s.position(), expected);
    check_header(&b.header);
    assert_eq!(b.sectors.len(), 1);
    check_sector(&b.sectors[0]);
    assert_eq!(b.walls.len(), 2);
    check_wall(&b.walls[0], 0, 0, 1);
    check_wall(&b.walls[1], 3, 4, 0);
    assert_eq!(b.sprites.len(), 1);
    check_sprite(&b.sprites[0]);
}

#[test]
fn truncated_mid_sector_fails_and_rewinds() {
    let mut bytes = header_bytes();
    push_u16(&mut bytes, 2); // sectorCount, but only one sector follows
    bytes.extend_from_slice(&sector_bytes());
    let mut s = ByteStream::new(bytes);
    let r = Board::read(&mut s);
    assert_eq!(r.unwrap_err(), MapError::TruncatedInput);
    assert_eq!(s.position(), 0);
}

#[test]
fn truncated_mid_sprite_fails_and_rewinds() {
    let mut bytes = header_bytes();
    push_u16(&mut bytes, 0);
    push_i16(&mut bytes, 0);
    push_u16(&mut bytes, 1); // spriteCount, but only half a sprite follows
    bytes.extend_from_slice(&sprite_bytes()[0..20]);
    let mut s = ByteStream::new(bytes);
    let r = Board::read(&mut s);
    assert_eq!(r.unwrap_err(), MapError::TruncatedInput);
    assert_eq!(s.position(), 0);
}

fn board_with_two_walls() -> Board {
    let mut bytes = header_bytes();
    push_u16(&mut bytes, 0);
    push_i16(&mut bytes, 2);
    bytes.extend_from_slice(&wall_bytes(0, 0, 1));
    bytes.extend_from_slice(&wall_bytes(3, 4, 0));
    push_u16(&mut bytes, 0);
    let mut s = ByteStream::new(bytes);
    Board::read(&mut s).unwrap()
}

#[test]
fn wall_segment_three_four_five() {
    let b = board_with_two_walls();
    let sq = b.walllen_sq(0).unwrap();
    assert_eq!(sq, 25);
    assert_eq!((sq as f32).sqrt(), 5.0);
}

#[test]
fn wall_segment_extreme_coordinates() {
    let mut bytes = header_bytes();
    push_u16(&mut bytes, 0);
    push_i16(&mut bytes, 2);
    bytes.extend_from_slice(&wall_bytes(i32::MIN, i32::MIN, 1));
    bytes.extend_from_slice(&wall_bytes(i32::MAX, i32::MAX, 0));
    push_u16(&mut bytes, 0);
    let mut s = ByteStream::new(bytes);
    let b = Board::read(&mut s).unwrap();
    let d: u128 = (i32::MAX as i64 - i32::MIN as i64) as u128;
    assert_eq!(b.walllen_sq(0).unwrap(), 2 * d * d);
}

#[test]
fn wall_segment_index_at_length_is_out_of_range() {
    let b = board_with_two_walls();
    assert_eq!(b.walllen_sq(2).unwrap_err(), MapError::IndexOutOfRange);
}

#[test]
fn wall_segment_point2_out_of_range() {
    let mut bytes = header_bytes();
    push_u16(&mut bytes, 0);
    push_i16(&mut bytes, 1);
    bytes.extend_from_slice(&wall_bytes(0, 0, 9)); // point2 beyond the walls
    push_u16(&mut bytes, 0);
    let mut s = ByteStream::new(bytes);
    let b = Board::read(&mut s).unwrap();
    assert_eq!(b.walllen_sq(0).unwrap_err(), MapError::IndexOutOfRange);
}
