//! The floor: planks laid row by row from a pattern of tile numbers.

use vstd::prelude::*;
use crate::sprite::{blit_at, Blit, Sprite, SpriteSize, FLOOR_TILES};
use crate::state::SCREEN_SIZE;

verus! {

/// Width of the strip beyond each edge of the screen that the floor still covers.
pub const FLOOR_MARGIN: i32 = 32;

/// Height of one row of floor tiles.
pub const FLOOR_ROW_HEIGHT: i32 = 8;

/// Number of tiles that one byte of the pattern names.
pub const TILES_PER_BYTE: u8 = 3;

/// Where the next floor tile goes. The floor is laid like text: tile after tile
/// to the right, and on to the next row once a tile has crossed the right margin.
pub ghost struct FloorCursor {
    /// Column of the next tile's left edge.
    pub x: int,
    /// Row of the next tile's top edge.
    pub y: int,
}

/// The cursor at column `x` and row `y`.
pub open spec fn cursor_at(x: int, y: int) -> FloorCursor {
    FloorCursor { x, y }
}

/// The floor starts above and to the left of the screen, by the margin.
pub open spec fn floor_start() -> FloorCursor {
    cursor_at(-(FLOOR_MARGIN as int), -(FLOOR_MARGIN as int))
}

/// Right margin: a tile that ends beyond this column is carried over to the
/// next row.
pub open spec fn floor_right() -> int {
    SCREEN_SIZE + FLOOR_MARGIN
}

/// Length of one row of floor, from margin to margin.
pub open spec fn floor_span() -> int {
    SCREEN_SIZE + 2 * FLOOR_MARGIN
}

/// A pattern byte with its `k` lowest tiles taken off: each tile takes two bits.
pub open spec fn pattern_rest(byte: u8, k: nat) -> u8
    decreases k,
{
    if k == 0 {
        byte
    } else {
        pattern_rest(byte, (k - 1) as nat) / 4
    }
}

/// The tile that a pattern byte names in place `k`, counted from its lowest bits.
pub open spec fn pattern_tile(byte: u8, k: nat) -> int {
    pattern_rest(byte, k) as int % (FLOOR_TILES as int)
}

/// A tile of width `width` placed at `cursor` ends beyond the right margin.
pub open spec fn tile_wraps(cursor: FloorCursor, width: int) -> bool {
    cursor.x + width > floor_right()
}

/// The blits of one tile placed at `cursor`: the tile itself and, where it
/// crosses the right margin, the same tile again one row down and one span to
/// the left, so that its overhang opens the next row.
pub open spec fn tile_blits(cursor: FloorCursor, tile: int, width: int) -> Seq<Blit> {
    let sprite = Sprite::Floor(tile as usize);
    if tile_wraps(cursor, width) {
        seq![
            blit_at(sprite, cursor.x, cursor.y),
            blit_at(sprite, cursor.x - floor_span(), cursor.y + FLOOR_ROW_HEIGHT),
        ]
    } else {
        seq![blit_at(sprite, cursor.x, cursor.y)]
    }
}

/// The cursor after a tile of width `width` was placed at `cursor`.
pub open spec fn after_tile(cursor: FloorCursor, width: int) -> FloorCursor {
    if tile_wraps(cursor, width) {
        FloorCursor { x: cursor.x + width - floor_span(), y: cursor.y + FLOOR_ROW_HEIGHT }
    } else {
        FloorCursor { x: cursor.x + width, y: cursor.y }
    }
}

/// Width of floor tile `tile`.
pub open spec fn floor_width(floor: Seq<SpriteSize>, tile: int) -> int {
    floor[tile].width as int
}

/// The cursor after the first `k` tiles of a pattern byte were placed from
/// `cursor` on.
pub open spec fn after_tiles(
    cursor: FloorCursor,
    byte: u8,
    floor: Seq<SpriteSize>,
    k: nat,
) -> FloorCursor
    decreases k,
{
    if k == 0 {
        cursor
    } else {
        let before = after_tiles(cursor, byte, floor, (k - 1) as nat);
        after_tile(before, floor_width(floor, pattern_tile(byte, (k - 1) as nat)))
    }
}

/// The blits of the first `k` tiles of a pattern byte, placed from `cursor` on.
pub open spec fn tiles_blits(
    cursor: FloorCursor,
    byte: u8,
    floor: Seq<SpriteSize>,
    k: nat,
) -> Seq<Blit>
    decreases k,
{
    if k == 0 {
        Seq::empty()
    } else {
        let tile = pattern_tile(byte, (k - 1) as nat);
        let before = after_tiles(cursor, byte, floor, (k - 1) as nat);
        tiles_blits(cursor, byte, floor, (k - 1) as nat) + tile_blits(
            before,
            tile,
            floor_width(floor, tile),
        )
    }
}

/// The blits of the pattern from byte `from` on, with the cursor at `cursor`.
/// Each byte lays its three tiles. The floor ends with the pattern, or before the
/// first byte whose row lies below the bottom margin.
pub open spec fn floor_blits_from(
    pattern: Seq<u8>,
    floor: Seq<SpriteSize>,
    from: int,
    cursor: FloorCursor,
) -> Seq<Blit>
    decreases pattern.len() - from,
{
    if from < 0 || from >= pattern.len() || cursor.y > SCREEN_SIZE + FLOOR_MARGIN {
        Seq::empty()
    } else {
        tiles_blits(cursor, pattern[from], floor, TILES_PER_BYTE as nat) + floor_blits_from(
            pattern,
            floor,
            from + 1,
            after_tiles(cursor, pattern[from], floor, TILES_PER_BYTE as nat),
        )
    }
}

/// The blits that cover the floor with the tiles that `pattern` names.
pub open spec fn floor_blits(pattern: Seq<u8>, floor: Seq<SpriteSize>) -> Seq<Blit> {
    floor_blits_from(pattern, floor, 0, floor_start())
}

/// A cursor that the floor can reach: not left of the left margin nor above the
/// top one, and no further right than the rows below the top allow. Each row
/// carries over less than `0x2000` columns per pixel of its height.
pub open spec fn cursor_in_reach(cursor: FloorCursor) -> bool {
    &&& -(FLOOR_MARGIN as int) <= cursor.x
    &&& -(FLOOR_MARGIN as int) <= cursor.y
    &&& cursor.x <= floor_right() + (cursor.y + FLOOR_MARGIN) * 0x2000
}

/// Placing a tile keeps the cursor in reach and moves it down by at most one
/// row.
pub proof fn lemma_after_tile_in_reach(cursor: FloorCursor, width: int)
    requires
        cursor_in_reach(cursor),
        0 <= width <= u16::MAX,
    ensures
        cursor_in_reach(after_tile(cursor, width)),
        cursor.y <= after_tile(cursor, width).y <= cursor.y + FLOOR_ROW_HEIGHT,
{
}

/// A blit that the floor can hold: a plain floor tile, in a row between the top
/// margin and the last row that a byte can reach, and no further left than one
/// span before the left margin.
pub open spec fn on_floor(blit: Blit) -> bool {
    &&& blit.sprite is Floor
    &&& blit.plain()
    &&& -(FLOOR_MARGIN as int) <= blit.y
    &&& blit.y <= SCREEN_SIZE + FLOOR_MARGIN + TILES_PER_BYTE * FLOOR_ROW_HEIGHT
    &&& -(FLOOR_MARGIN as int) - floor_span() <= blit.x
}

/// The first `k` tiles of a byte that starts on a row of the floor stay on the
/// floor: each tile gives one blit or two, all of them floor tiles of the
/// table, and the cursor moves down by at most one row per tile.
pub proof fn lemma_tiles_on_floor(cursor: FloorCursor, byte: u8, floor: Seq<SpriteSize>, k: nat)
    requires
        cursor_in_reach(cursor),
        cursor.y <= SCREEN_SIZE + FLOOR_MARGIN,
        k <= TILES_PER_BYTE,
    ensures
        cursor_in_reach(after_tiles(cursor, byte, floor, k)),
        cursor.y <= after_tiles(cursor, byte, floor, k).y <= cursor.y + k * FLOOR_ROW_HEIGHT,
        k <= tiles_blits(cursor, byte, floor, k).len() <= 2 * k,
        forall|i: int|
            0 <= i < tiles_blits(cursor, byte, floor, k).len() ==> on_floor(
                #[trigger] tiles_blits(cursor, byte, floor, k)[i],
            ),
    decreases k,
{
    if k > 0 {
        let j = (k - 1) as nat;
        lemma_tiles_on_floor(cursor, byte, floor, j);
        let tile = pattern_tile(byte, j);
        let width = floor_width(floor, tile);
        let before = after_tiles(cursor, byte, floor, j);
        lemma_after_tile_in_reach(before, width);
        let earlier = tiles_blits(cursor, byte, floor, j);
        let last = tile_blits(before, tile, width);
        assert(tiles_blits(cursor, byte, floor, k) == earlier + last);
        assert forall|i: int| 0 <= i < last.len() implies on_floor(#[trigger] last[i]) by {}
        assert forall|i: int| 0 <= i < (earlier + last).len() implies on_floor(
            #[trigger] (earlier + last)[i],
        ) by {
            if i < earlier.len() {
                assert((earlier + last)[i] == earlier[i]);
            } else {
                assert((earlier + last)[i] == last[i - earlier.len()]);
            }
        }
    }
}

/// Every blit of the floor is a plain floor tile of the table, on a row between
/// the top margin and the last row that a byte can reach; and a byte of the
/// pattern gives six blits at most.
pub proof fn lemma_floor_blits_on_floor(
    pattern: Seq<u8>,
    floor: Seq<SpriteSize>,
    from: int,
    cursor: FloorCursor,
)
    requires
        0 <= from <= pattern.len(),
        cursor_in_reach(cursor),
    ensures
        floor_blits_from(pattern, floor, from, cursor).len() <= 2 * TILES_PER_BYTE * (pattern.len()
            - from),
        forall|i: int|
            0 <= i < floor_blits_from(pattern, floor, from, cursor).len() ==> on_floor(
                #[trigger] floor_blits_from(pattern, floor, from, cursor)[i],
            ),
    decreases pattern.len() - from,
{
    if from < pattern.len() && cursor.y <= SCREEN_SIZE + FLOOR_MARGIN {
        let byte = pattern[from];
        let next = after_tiles(cursor, byte, floor, TILES_PER_BYTE as nat);
        lemma_tiles_on_floor(cursor, byte, floor, TILES_PER_BYTE as nat);
        lemma_floor_blits_on_floor(pattern, floor, from + 1, next);
        let head = tiles_blits(cursor, byte, floor, TILES_PER_BYTE as nat);
        let tail = floor_blits_from(pattern, floor, from + 1, next);
        assert(floor_blits_from(pattern, floor, from, cursor) == head + tail);
        assert forall|i: int| 0 <= i < (head + tail).len() implies on_floor(
            #[trigger] (head + tail)[i],
        ) by {
            if i < head.len() {
                assert((head + tail)[i] == head[i]);
            } else {
                assert((head + tail)[i] == tail[i - head.len()]);
            }
        }
    }
}

/// Lists the blits that cover the floor, in drawing order.
///
/// `pattern` names the tiles, three to a byte, lowest bits first; `floor` gives
/// the sizes of the four tiles. Tiles are laid from the top left corner of the
/// margin to the right; a tile that crosses the right margin is drawn a second
/// time at the start of the next row. Rows are [`FLOOR_ROW_HEIGHT`] apart,
/// whatever the height of the tiles. The floor ends with the pattern, or before
/// the first byte whose row lies below the bottom margin.
pub fn draw_floor_pattern(pattern: &[u8], floor: &[SpriteSize; FLOOR_TILES]) -> (blits: Vec<Blit>)
    ensures
        blits@ == floor_blits(pattern@, floor@),
        blits.len() <= 6 * pattern.len(),
        forall|i: int| 0 <= i < blits.len() ==> on_floor(#[trigger] blits[i]),
{
    proof {
        lemma_floor_blits_on_floor(pattern@, floor@, 0, floor_start());
    }
    let mut blits: Vec<Blit> = Vec::new();
    let mut x: i32 = -FLOOR_MARGIN;
    let mut y: i32 = -FLOOR_MARGIN;
    let mut n: usize = 0;
    while n < pattern.len() && y <= SCREEN_SIZE + FLOOR_MARGIN
        invariant
            n <= pattern.len(),
            cursor_in_reach(cursor_at(x as int, y as int)),
            y <= SCREEN_SIZE + FLOOR_MARGIN + TILES_PER_BYTE * FLOOR_ROW_HEIGHT,
            blits@ + floor_blits_from(
                pattern@,
                floor@,
                n as int,
                cursor_at(x as int, y as int),
            ) == floor_blits(pattern@, floor@),
        decreases pattern.len() - n,
    {
        let byte = pattern[n];
        let ghost row_start = cursor_at(x as int, y as int);
        let ghost before = blits@;
        let mut b: u8 = byte;
        let mut i: u8 = 0;
        while i < TILES_PER_BYTE
            invariant
                i <= TILES_PER_BYTE,
                n < pattern.len(),
                byte == pattern@[n as int],
                b == pattern_rest(byte, i as nat),
                cursor_in_reach(cursor_at(x as int, y as int)),
                row_start.y <= SCREEN_SIZE + FLOOR_MARGIN,
                y <= row_start.y + i * FLOOR_ROW_HEIGHT,
                cursor_at(x as int, y as int) == after_tiles(
                    row_start,
                    byte,
                    floor@,
                    i as nat,
                ),
                blits@ == before + tiles_blits(row_start, byte, floor@, i as nat),
            decreases TILES_PER_BYTE - i,
        {
            let floor_index = (b & 0x03) as usize;
            assert(b & 0x03 == b % 4) by (bit_vector);
            assert(b >> 2 == b / 4) by (bit_vector);
            let width = floor[floor_index].width as i32;
            let ghost here = cursor_at(x as int, y as int);
            proof {
                lemma_after_tile_in_reach(here, width as int);
            }
            blits.push(Blit { sprite: Sprite::Floor(floor_index), x, y, flags: 0 });
            x += width;
            if x > SCREEN_SIZE + FLOOR_MARGIN {
                y += FLOOR_ROW_HEIGHT;
                x -= SCREEN_SIZE + 2 * FLOOR_MARGIN;
                blits.push(Blit { sprite: Sprite::Floor(floor_index), x: x - width, y, flags: 0 });
            }
            b = b >> 2;
            i += 1;
            assert(blits@ =~= before + tiles_blits(row_start, byte, floor@, i as nat));
        }
        n += 1;
    }
    blits
}

} // verus!
