//! The column renderer: one ray's hit becomes a vertical strip of wall with
//! ceiling above it and floor below it.
//!
//! The wall band is centred on the horizon and as high as the wall is
//! near. A band higher than the screen is clipped at both ends, and its
//! texture is sampled from the visible middle part only. Floor and ceiling
//! are found by projecting each screen row back onto the ground plane.

use crate::fixed::floor_div;
use crate::fixed::floor_mod;
use crate::fixed::lemma_floor_div_bound;
use crate::fixed::TRIG_ONE;
use crate::fixed::WORLD_LIMIT;
use crate::frame::byte_column;
use crate::frame::byte_row;
use crate::frame::channel;
use crate::frame::draw_pixel;
use crate::frame::lemma_with_pixel;
use crate::frame::Rgb;
use crate::frame::FRAME_BYTES;
use crate::frame::HORIZON;
use crate::frame::SCREEN_HEIGHT;
use crate::frame::SCREEN_WIDTH;
use crate::map::TileMap;
use crate::player::Player;
use crate::raycast::cast_column;
use crate::raycast::column_angle;
use crate::raycast::column_hit;
use crate::raycast::lemma_column_faces_screen;
use crate::raycast::ray_angle;
use crate::raycast::Hit;
use crate::raycast::RayHit;
use crate::raycast::Side;
use crate::texture::dim;
use crate::texture::dimmed;
use crate::texture::halve;
use crate::texture::halved;
use crate::texture::Atlas;
use crate::texture::TEXTURE_EDGE;
use crate::trig::TrigTable;
use vstd::prelude::*;

verus! {

/// Height in pixels of a wall one sub-unit away: the tile edge times the
/// height of the screen.
pub const PROJECTION: i64 = 1310720;

/// The distance in 1/256 texel at which the ground plane shows in the first
/// row below the horizon.
pub const PLANE_SCALE: i64 = 323584;

/// Height in pixels of the wall at `distance`, before it is clipped to the
/// screen. A ray that found no wall shows none, and a wall at the eye is as
/// high as a wall one sub-unit away.
pub open spec fn wall_height(found: bool, distance: int) -> int {
    if !found {
        0
    } else if distance <= 0 {
        PROJECTION as int
    } else {
        (PROJECTION as int) / distance
    }
}

/// Height in pixels of the wall band on the screen.
pub open spec fn band_height(found: bool, distance: int) -> int {
    if wall_height(found, distance) > SCREEN_HEIGHT {
        SCREEN_HEIGHT as int
    } else {
        wall_height(found, distance)
    }
}

/// The first row of the wall band.
pub open spec fn band_top(found: bool, distance: int) -> int {
    HORIZON - band_height(found, distance) / 2
}

/// The texel row that shows in row `i` of the band of a wall of unclipped
/// height `full`.
pub open spec fn wall_texel_row(full: int, i: int) -> int {
    if full > SCREEN_HEIGHT {
        ((full - SCREEN_HEIGHT + 2 * i) * (TEXTURE_EDGE / 2)) / full
    } else {
        (i * TEXTURE_EDGE) / full
    }
}

/// The colour of row `i` of the wall band of a hit. Walls hit on a vertical
/// grid line are shown at half brightness.
pub open spec fn wall_colour(textures: &Atlas, hit: Hit, i: int) -> Rgb {
    let c = textures.texel(
        hit.texture_id,
        hit.texture_u,
        wall_texel_row(wall_height(hit.found, hit.distance), i),
    );
    if hit.side == Side::Vertical {
        halved(c)
    } else {
        c
    }
}

/// One coordinate, in whole texels, of the point of the ground plane that
/// shows `d` rows from the horizon. `p` is the viewer's coordinate,
/// `direction` the cosine or sine of the ray and `fix` the cosine of the
/// ray's angle to the viewing direction.
pub open spec fn plane_texel(p: int, direction: int, fix: int, d: int) -> int {
    (p / 2 + (direction * PLANE_SCALE) / (d * fix)) / 256
}

/// The X coordinate, in texels, of the plane point seen in `column`, `d`
/// rows from the horizon.
pub open spec fn plane_x(trig: &TrigTable, player: Player, column: int, d: int) -> int {
    let ra = column_angle(player.angle as int, column);
    plane_texel(player.x as int, trig.spec_cos(ra), trig.spec_cos(player.angle - ra), d)
}

/// The Y coordinate, in texels, of the plane point seen in `column`, `d`
/// rows from the horizon.
pub open spec fn plane_y(trig: &TrigTable, player: Player, column: int, d: int) -> int {
    let ra = column_angle(player.angle as int, column);
    plane_texel(player.y as int, trig.spec_sin(ra), trig.spec_cos(player.angle - ra), d)
}

/// The colour of the floor at the texel `(tx, ty)` of the ground plane,
/// dimmed to seven tenths.
pub open spec fn floor_colour(map: &TileMap, textures: &Atlas, tx: int, ty: int) -> Rgb {
    dimmed(
        textures.texel(
            map.floor(tx / (TEXTURE_EDGE as int), ty / (TEXTURE_EDGE as int)) as int,
            tx % (TEXTURE_EDGE as int),
            ty % (TEXTURE_EDGE as int),
        ),
    )
}

/// The colour of the ceiling above the texel `(tx, ty)` of the ground
/// plane; none where the ceiling grid holds 0 and the sky shows.
pub open spec fn ceiling_colour(map: &TileMap, textures: &Atlas, tx: int, ty: int) -> Option<
    Rgb,
> {
    if map.ceiling(tx / (TEXTURE_EDGE as int), ty / (TEXTURE_EDGE as int)) == 0 {
        None
    } else {
        Some(
            textures.texel(
                map.ceiling(tx / (TEXTURE_EDGE as int), ty / (TEXTURE_EDGE as int)) as int,
                tx % (TEXTURE_EDGE as int),
                ty % (TEXTURE_EDGE as int),
            ),
        )
    }
}

/// The colour that the column renderer gives the pixel in `column`, `row`
/// for the hit record `hit`; none where it leaves the pixel as it was. Rows
/// of the wall band show the wall, rows above it the ceiling and rows below
/// it the floor. The row of the horizon itself shows no floor.
pub open spec fn column_pixel(
    map: &TileMap,
    trig: &TrigTable,
    textures: &Atlas,
    player: Player,
    column: int,
    hit: Hit,
    row: int,
) -> Option<Rgb> {
    let top = band_top(hit.found, hit.distance);
    let height = band_height(hit.found, hit.distance);
    if top <= row < top + height {
        Some(wall_colour(textures, hit, row - top))
    } else if row < top {
        ceiling_colour(
            map,
            textures,
            plane_x(trig, player, column, HORIZON - row),
            plane_y(trig, player, column, HORIZON - row),
        )
    } else if row > HORIZON {
        Some(
            floor_colour(
                map,
                textures,
                plane_x(trig, player, column, row - HORIZON),
                plane_y(trig, player, column, row - HORIZON),
            ),
        )
    } else {
        None
    }
}

/// Byte `i` of the frame once the column of `hit` is painted over `base`
/// in screen column `column`.
pub open spec fn column_byte(
    base: Seq<u8>,
    map: &TileMap,
    trig: &TrigTable,
    textures: &Atlas,
    player: Player,
    column: int,
    hit: Hit,
    i: int,
) -> u8 {
    if byte_column(i) == column {
        match column_pixel(map, trig, textures, player, column, hit, byte_row(i)) {
            Some(c) => channel(c, i % 4),
            None => base[i],
        }
    } else {
        base[i]
    }
}

/// The frame `base` with the column of `hit` painted over it in screen
/// column `column`.
pub open spec fn with_column(
    base: Seq<u8>,
    map: &TileMap,
    trig: &TrigTable,
    textures: &Atlas,
    player: Player,
    column: int,
    hit: Hit,
) -> Seq<u8> {
    Seq::new(
        FRAME_BYTES as nat,
        |i: int| column_byte(base, map, trig, textures, player, column, hit, i),
    )
}

/// Byte `i` of the frame once the walls, floors and ceilings are painted
/// over `base`.
pub open spec fn rays_byte(
    base: Seq<u8>,
    map: &TileMap,
    trig: &TrigTable,
    textures: &Atlas,
    player: Player,
    i: int,
) -> u8 {
    column_byte(
        base,
        map,
        trig,
        textures,
        player,
        byte_column(i),
        column_hit(map, trig, player, byte_column(i)),
        i,
    )
}

/// The frame `base` with the walls, floors and ceilings painted over it.
pub open spec fn with_rays(
    base: Seq<u8>,
    map: &TileMap,
    trig: &TrigTable,
    textures: &Atlas,
    player: Player,
) -> Seq<u8> {
    Seq::new(FRAME_BYTES as nat, |i: int| rays_byte(base, map, trig, textures, player, i))
}

/// What the scene must meet to be drawn: the map, the sine table and the
/// atlas are well formed, and the atlas holds every texture that the map
/// names.
pub open spec fn scene_wf(map: &TileMap, trig: &TrigTable, textures: &Atlas) -> bool {
    &&& map.wf()
    &&& trig.wf()
    &&& textures.wf()
    &&& map.textures_within(textures.tiles())
}

/// Height of the wall of a hit before clipping.
fn full_height(hit: &RayHit) -> (h: i64)
    ensures
        h == wall_height(hit.found, hit.distance as int),
        0 <= h <= PROJECTION,
{
    if !hit.found {
        0
    } else if hit.distance <= 0 {
        PROJECTION
    } else {
        proof {
            lemma_floor_div_bound(PROJECTION as int, hit.distance as int, PROJECTION as int);
        }
        assert(PROJECTION / hit.distance >= 0) by (nonlinear_arith)
            requires
                hit.distance > 0,
        ;
        PROJECTION / hit.distance
    }
}

/// The texel row that shows in row `i` of the band.
fn wall_row(full: i64, i: i64) -> (v: usize)
    requires
        0 < full <= PROJECTION,
        0 <= i < SCREEN_HEIGHT,
        i < full,
    ensures
        v == wall_texel_row(full as int, i as int),
        v < 32,
{
    let scaled: i64 = if full > 80 {
        (full - 80 + 2 * i) * 16
    } else {
        i * 32
    };
    assert(0 <= scaled / full < 32) by (nonlinear_arith)
        requires
            0 <= scaled < 32 * full,
            full > 0,
    ;
    (scaled / full) as usize
}

/// The colour of row `i` of the wall band.
fn wall_pixel(textures: &Atlas, hit: &RayHit, full: i64, i: i64) -> (c: Rgb)
    requires
        textures.wf(),
        hit.found,
        hit.texture_id < textures.tiles(),
        hit.texture_u < 32,
        full == wall_height(hit.found, hit.distance as int),
        0 < full <= PROJECTION,
        0 <= i < SCREEN_HEIGHT,
        i < full,
    ensures
        c == wall_colour(textures, hit@, i as int),
{
    let v: usize = wall_row(full, i);
    let c: Rgb = textures.sample(hit.texture_id as usize, hit.texture_u as usize, v);
    match hit.side {
        Side::Vertical => halve(c),
        Side::Horizontal => c,
    }
}

/// One coordinate of the plane point seen `d` rows from the horizon.
fn plane_point(p: i64, direction: i64, fix: i64, d: i64) -> (t: i64)
    requires
        -WORLD_LIMIT <= p <= WORLD_LIMIT,
        -TRIG_ONE <= direction <= TRIG_ONE,
        0 < fix <= TRIG_ONE,
        1 <= d <= 40,
    ensures
        t == plane_texel(p as int, direction as int, fix as int, d as int),
{
    assert(0 < d * fix <= 40 * 65536) by (nonlinear_arith)
        requires
            0 < fix <= 65536,
            1 <= d <= 40,
    ;
    assert(-0x8_0000_0000 <= direction * PLANE_SCALE <= 0x8_0000_0000);
    proof {
        lemma_floor_div_bound(direction * PLANE_SCALE, d * fix, 0x8_0000_0000);
    }
    let half: i64 = floor_div(p, 2);
    let reach: i64 = floor_div(direction * PLANE_SCALE, d * fix);
    floor_div(half + reach, 256)
}

/// The colour of the floor at the texel `(tx, ty)` of the ground plane.
fn floor_pixel(map: &TileMap, textures: &Atlas, tx: i64, ty: i64) -> (c: Rgb)
    requires
        map.wf(),
        textures.wf(),
        map.textures_within(textures.tiles()),
    ensures
        c == floor_colour(map, textures, tx as int, ty as int),
{
    let tile: u32 = map.floor_at(floor_div(tx, 32), floor_div(ty, 32));
    assert(tile < textures.tiles()) by {
        map.lemma_cells();
        assert(map.floor_tiles@[0] < textures.tiles());
    }
    let u: i64 = floor_mod(tx, 32);
    let v: i64 = floor_mod(ty, 32);
    dim(textures.sample(tile as usize, u as usize, v as usize))
}

/// The colour of the ceiling above the texel `(tx, ty)` of the ground
/// plane, if there is a ceiling.
fn ceiling_pixel(map: &TileMap, textures: &Atlas, tx: i64, ty: i64) -> (c: Option<Rgb>)
    requires
        map.wf(),
        textures.wf(),
        map.textures_within(textures.tiles()),
    ensures
        c == ceiling_colour(map, textures, tx as int, ty as int),
{
    let tile: u32 = map.ceiling_at(floor_div(tx, 32), floor_div(ty, 32));
    if tile == 0 {
        None
    } else {
        let u: i64 = floor_mod(tx, 32);
        let v: i64 = floor_mod(ty, 32);
        Some(textures.sample(tile as usize, u as usize, v as usize))
    }
}

/// Paints one column of the view from a hit record: the wall band of
/// `hit`, the ceiling above it and the floor below it.
pub fn draw_column(
    map: &TileMap,
    trig: &TrigTable,
    textures: &Atlas,
    player: &Player,
    column: usize,
    hit: &RayHit,
    frame: &mut [u8],
)
    requires
        scene_wf(map, trig, textures),
        player.wf(),
        column < SCREEN_WIDTH,
        hit.texture_u < 32,
        hit.found ==> hit.texture_id < textures.tiles(),
        old(frame)@.len() == FRAME_BYTES,
    ensures
        final(frame)@ == with_column(
            old(frame)@,
            map,
            trig,
            textures,
            *player,
            column as int,
            hit@,
        ),
{
    let ra: i64 = ray_angle(player.angle, column);
    let cos_ra: i64 = trig.cos(ra);
    let sin_ra: i64 = trig.sin(ra);
    let fix: i64 = trig.cos(player.angle - ra);
    proof {
        lemma_column_faces_screen(trig, player.angle as int, column as int);
    }
    let full: i64 = full_height(hit);
    let height: i64 = if full > 80 {
        80
    } else {
        full
    };
    let top: i64 = 40 - height / 2;
    let mut row: i64 = 0;
    while row < 80
        invariant
            scene_wf(map, trig, textures),
            player.wf(),
            column < SCREEN_WIDTH,
            hit.texture_u < 32,
            hit.found ==> hit.texture_id < textures.tiles(),
            ra == column_angle(player.angle as int, column as int),
            cos_ra == trig.spec_cos(ra as int),
            sin_ra == trig.spec_sin(ra as int),
            fix == trig.spec_cos(player.angle - ra),
            0 < fix <= TRIG_ONE,
            -TRIG_ONE <= cos_ra <= TRIG_ONE,
            -TRIG_ONE <= sin_ra <= TRIG_ONE,
            full == wall_height(hit.found, hit.distance as int),
            0 <= full <= PROJECTION,
            height == band_height(hit.found, hit.distance as int),
            top == band_top(hit.found, hit.distance as int),
            0 <= row <= 80,
            frame@.len() == FRAME_BYTES,
            forall|i: int|
                0 <= i < FRAME_BYTES ==> #[trigger] frame@[i] == if byte_row(i) < row {
                    column_byte(
                        old(frame)@,
                        map,
                        trig,
                        textures,
                        *player,
                        column as int,
                        hit@,
                        i,
                    )
                } else {
                    old(frame)@[i]
                },
        decreases 80 - row,
    {
        let colour: Option<Rgb> = if top <= row && row < top + height {
            Some(wall_pixel(textures, hit, full, row - top))
        } else if row < top {
            let tx: i64 = plane_point(player.x, cos_ra, fix, 40 - row);
            let ty: i64 = plane_point(player.y, sin_ra, fix, 40 - row);
            ceiling_pixel(map, textures, tx, ty)
        } else if row > 40 {
            let tx: i64 = plane_point(player.x, cos_ra, fix, row - 40);
            let ty: i64 = plane_point(player.y, sin_ra, fix, row - 40);
            Some(floor_pixel(map, textures, tx, ty))
        } else {
            None
        };
        assert(colour == column_pixel(
            map,
            trig,
            textures,
            *player,
            column as int,
            hit@,
            row as int,
        ));
        let ghost before = frame@;
        match colour {
            Some(c) => {
                draw_pixel(c.red, c.green, c.blue, column as i32, row as i32, frame);
                proof {
                    assert forall|i: int| 0 <= i < FRAME_BYTES implies #[trigger] frame@[i]
                        == if byte_row(i) < row + 1 {
                        column_byte(
                            old(frame)@,
                            map,
                            trig,
                            textures,
                            *player,
                            column as int,
                            hit@,
                            i,
                        )
                    } else {
                        old(frame)@[i]
                    } by {
                        lemma_with_pixel(before, column as int, row as int, c, i);
                    }
                }
            },
            None => {},
        }
        row = row + 1;
    }
    assert(frame@ =~= with_column(
        old(frame)@,
        map,
        trig,
        textures,
        *player,
        column as int,
        hit@,
    ));
}

/// Casts the rays and draws the 3D view: for every screen column the wall
/// that its ray hits, with the ceiling above and the floor below, and the
/// distance of that wall stored in the depth buffer.
pub fn draw_rays(
    player: &Player,
    map: &TileMap,
    trig: &TrigTable,
    textures: &Atlas,
    frame: &mut [u8],
    depth: &mut [i64; 120],
)
    requires
        scene_wf(map, trig, textures),
        player.wf(),
        old(frame)@.len() == FRAME_BYTES,
    ensures
        final(frame)@ == with_rays(old(frame)@, map, trig, textures, *player),
        forall|c: int|
            0 <= c < SCREEN_WIDTH ==> #[trigger] final(depth)@[c] == column_hit(
                map,
                trig,
                *player,
                c,
            ).distance,
        forall|c: int|
            0 <= c < SCREEN_WIDTH ==> 0 <= #[trigger] final(depth)@[c] <= 0x1000_0000_0000,
{
    let mut column: usize = 0;
    while column < SCREEN_WIDTH
        invariant
            scene_wf(map, trig, textures),
            player.wf(),
            0 <= column <= SCREEN_WIDTH,
            frame@.len() == FRAME_BYTES,
            forall|i: int|
                0 <= i < FRAME_BYTES ==> #[trigger] frame@[i] == if byte_column(i) < column {
                    rays_byte(old(frame)@, map, trig, textures, *player, i)
                } else {
                    old(frame)@[i]
                },
            forall|c: int|
                0 <= c < column ==> #[trigger] depth@[c] == column_hit(
                    map,
                    trig,
                    *player,
                    c,
                ).distance,
            forall|c: int| 0 <= c < column ==> 0 <= #[trigger] depth@[c] <= 0x1000_0000_0000,
        decreases SCREEN_WIDTH - column,
    {
        let hit: RayHit = cast_column(map, trig, player, column);
        depth[column] = hit.distance;
        draw_column(map, trig, textures, player, column, &hit, frame);
        column = column + 1;
    }
    assert(frame@ =~= with_rays(old(frame)@, map, trig, textures, *player));
}

/// The depth buffer and the picture agree: in every column the painted
/// frame shows the column of a hit record whose distance is the one that
/// the depth buffer holds for that column, so the wall band of the column
/// is as high as the stored distance says.
pub proof fn lemma_depth_is_wall_distance(
    base: Seq<u8>,
    map: &TileMap,
    trig: &TrigTable,
    textures: &Atlas,
    player: Player,
    depth: Seq<i64>,
    i: int,
)
    requires
        0 <= i < FRAME_BYTES,
        depth.len() == SCREEN_WIDTH,
        forall|c: int|
            0 <= c < SCREEN_WIDTH ==> #[trigger] depth[c] == column_hit(
                map,
                trig,
                player,
                c,
            ).distance,
    ensures
        ({
            let column = byte_column(i);
            let hit = column_hit(map, trig, player, column);
            let stored = Hit {
                found: hit.found,
                distance: depth[column] as int,
                texture_id: hit.texture_id,
                texture_u: hit.texture_u,
                side: hit.side,
                probes: hit.probes,
            };
            with_rays(base, map, trig, textures, player)[i] == column_byte(
                base,
                map,
                trig,
                textures,
                player,
                column,
                stored,
                i,
            )
        }),
{
}

} // verus!
