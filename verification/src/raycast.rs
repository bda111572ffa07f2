//! The wall ray caster.
//!
//! A ray is intersected twice with the grid: once with the horizontal grid
//! lines, stepping a tile at a time along Y, and once with the vertical grid
//! lines, stepping along X. Each march probes at most `DEPTH_OF_FIELD` cells
//! and stops at the first solid one. The nearer of the two hits is the wall
//! that the ray sees; on equal distances the horizontal march wins.

use crate::fixed::dist;
use crate::fixed::dist_spec;
use crate::fixed::floor_div;
use crate::fixed::floor_mod;
use crate::fixed::lemma_floor_div_bound;
use crate::fixed::magnitude;
use crate::fixed::TILE;
use crate::fixed::TRIG_ONE;
use crate::fixed::WORLD_LIMIT;
use crate::frame::SCREEN_WIDTH;
use crate::map::tile_index;
use crate::map::tile_of;
use crate::map::TileMap;
use crate::player::Player;
use crate::trig::wrapped;
use crate::trig::TrigTable;
use crate::trig::FULL_TURN;
use crate::trig::HALF_TURN;
use vstd::prelude::*;

verus! {

/// Most cells that one march probes.
pub const DEPTH_OF_FIELD: u32 = 8;

/// The distance recorded for a march that found no wall: a million world
/// units.
pub const NO_HIT_DISTANCE: i64 = 256_000_000;

/// Half the field of view: 30 degrees.
pub const HALF_FIELD: i64 = 300;

/// The angle between the rays of two neighbouring columns: half a degree.
pub const RAY_STEP: i64 = 5;

/// Sub-units of the world that one texel of a wall covers.
pub const TEXEL_SPAN: i64 = 512;

/// Which family of grid lines a wall was hit on.
#[derive(Debug, Clone, Copy, PartialEq, Eq, Structural)]
pub enum Side {
    /// A line of constant Y, found by the horizontal march.
    Horizontal,
    /// A line of constant X, found by the vertical march.
    Vertical,
}

/// What one ray reports.
#[derive(Debug, Clone, Copy, PartialEq, Eq, Structural)]
pub struct RayHit {
    /// Whether the winning march found a wall.
    pub found: bool,
    /// Distance to the wall in sub-units; `NO_HIT_DISTANCE`, scaled like any
    /// other distance, where no wall was found.
    pub distance: i64,
    /// Texture of the wall; 0 where no wall was found.
    pub texture_id: u32,
    /// Texel column of the wall texture that the ray hit, in `0..32`.
    pub texture_u: u32,
    /// The march that won.
    pub side: Side,
    /// Number of cells that the two marches probed.
    pub probes: u32,
}

/// The mathematical content of a `RayHit`.
pub struct Hit {
    pub found: bool,
    pub distance: int,
    pub texture_id: int,
    pub texture_u: int,
    pub side: Side,
    pub probes: int,
}

impl View for RayHit {
    type V = Hit;

    open spec fn view(&self) -> Hit {
        Hit {
            found: self.found,
            distance: self.distance as int,
            texture_id: self.texture_id as int,
            texture_u: self.texture_u as int,
            side: self.side,
            probes: self.probes as int,
        }
    }
}

/// The points that a march probes: `(x + k * dx, y + k * dy)` for `k` from 0.
pub struct Line {
    pub x: int,
    pub y: int,
    pub dx: int,
    pub dy: int,
}

/// What one march found.
pub struct Trace {
    pub found: bool,
    pub x: int,
    pub y: int,
    pub tile: int,
    pub distance: int,
    pub probes: int,
}

/// The world coordinate of the low edge of the tile that holds `c`.
pub open spec fn tile_floor(c: int) -> int {
    tile_of(c) * TILE
}

/// The first coordinate past `p` that lies on the far side of a grid line,
/// going up where `lead` is positive and down where it is negative.
pub open spec fn first_line(p: int, lead: int) -> int {
    if lead > 0 {
        tile_floor(p) + TILE
    } else {
        tile_floor(p) - 1
    }
}

/// One tile edge in the direction of `lead`.
pub open spec fn tile_step(lead: int) -> int {
    if lead > 0 {
        TILE as int
    } else {
        -TILE
    }
}

/// The march across the horizontal grid lines for a ray from `(px, py)` at
/// angle `ra`. A ray along the X axis crosses none.
pub open spec fn horizontal_line(trig: &TrigTable, px: int, py: int, ra: int) -> Option<Line> {
    let s = trig.spec_sin(ra);
    let c = trig.spec_cos(ra);
    if s == 0 {
        None
    } else {
        let y = first_line(py, s);
        Some(
            Line {
                x: px + (magnitude(y - py) * c) / magnitude(s),
                y,
                dx: (TILE * c) / magnitude(s),
                dy: tile_step(s),
            },
        )
    }
}

/// The march across the vertical grid lines for a ray from `(px, py)` at
/// angle `ra`. A ray along the Y axis crosses none, and a ray along the X
/// axis makes no march at all.
pub open spec fn vertical_line(trig: &TrigTable, px: int, py: int, ra: int) -> Option<Line> {
    let s = trig.spec_sin(ra);
    let c = trig.spec_cos(ra);
    if s == 0 || c == 0 {
        None
    } else {
        let x = first_line(px, c);
        Some(
            Line {
                x,
                y: py + (magnitude(x - px) * s) / magnitude(c),
                dx: tile_step(c),
                dy: (TILE * s) / magnitude(c),
            },
        )
    }
}

/// Whether probe `k` of a march lies in a solid cell.
pub open spec fn probe_solid(map: &TileMap, line: Line, k: int) -> bool {
    map.solid_at(line.x + k * line.dx, line.y + k * line.dy)
}

/// The number of the first probe from `k` on that lies in a solid cell.
pub open spec fn first_solid(map: &TileMap, line: Line, k: int) -> Option<int>
    decreases DEPTH_OF_FIELD - k,
{
    if k < 0 || k >= DEPTH_OF_FIELD {
        None
    } else if probe_solid(map, line, k) {
        Some(k)
    } else {
        first_solid(map, line, k + 1)
    }
}

/// The trace of a march that found nothing after `probes` probes.
pub open spec fn miss(px: int, py: int, probes: int) -> Trace {
    Trace { found: false, x: px, y: py, tile: 0, distance: NO_HIT_DISTANCE as int, probes }
}

/// What the march along `line` finds for a ray that starts at `(px, py)`.
pub open spec fn trace(map: &TileMap, px: int, py: int, line: Option<Line>) -> Trace {
    match line {
        None => miss(px, py, 0),
        Some(l) => match first_solid(map, l, 0) {
            None => miss(px, py, DEPTH_OF_FIELD as int),
            Some(k) => {
                let x = l.x + k * l.dx;
                let y = l.y + k * l.dy;
                Trace {
                    found: true,
                    x,
                    y,
                    tile: map.wall(tile_of(x), tile_of(y)) as int,
                    distance: dist_spec(px, py, x, y),
                    probes: k + 1,
                }
            },
        },
    }
}

/// The texture that a trace shows: the wall value less one.
pub open spec fn texture_of(t: Trace) -> int {
    if t.found {
        t.tile - 1
    } else {
        0
    }
}

/// The texel column at world coordinate `c` along a wall, counted from the
/// other end where `mirrored`.
pub open spec fn texel_column(c: int, mirrored: bool) -> int {
    if mirrored {
        31 - (c / (TEXEL_SPAN as int)) % 32
    } else {
        (c / (TEXEL_SPAN as int)) % 32
    }
}

/// What the ray from `(px, py)` at angle `ra` hits, with the distance
/// measured along the ray.
pub open spec fn ray_hit(map: &TileMap, trig: &TrigTable, px: int, py: int, ra: int) -> Hit {
    let h = trace(map, px, py, horizontal_line(trig, px, py, ra));
    let v = trace(map, px, py, vertical_line(trig, px, py, ra));
    if v.distance < h.distance {
        Hit {
            found: v.found,
            distance: v.distance,
            texture_id: texture_of(v),
            texture_u: texel_column(v.y, trig.spec_cos(ra) < 0),
            side: Side::Vertical,
            probes: h.probes + v.probes,
        }
    } else {
        Hit {
            found: h.found,
            distance: h.distance,
            texture_id: texture_of(h),
            texture_u: texel_column(h.x, trig.spec_sin(ra) > 0),
            side: Side::Horizontal,
            probes: h.probes + v.probes,
        }
    }
}

/// The distance `distance` along a ray at angle `ra`, measured at right
/// angles to the screen of a viewer who faces `pa`.
pub open spec fn fisheye(trig: &TrigTable, distance: int, pa: int, ra: int) -> int {
    (distance * trig.spec_cos(pa - ra)) / (TRIG_ONE as int)
}

/// The angle of the ray through screen column `column` for a viewer who
/// faces `pa`: the columns sweep the field of view from left to right.
pub open spec fn column_angle(pa: int, column: int) -> int {
    wrapped(pa - HALF_FIELD + column * RAY_STEP)
}

/// What the viewer sees in screen column `column`: the wall that the ray of
/// that column hits, at its distance from the screen.
pub open spec fn column_hit(map: &TileMap, trig: &TrigTable, player: Player, column: int) -> Hit {
    let ra = column_angle(player.angle as int, column);
    let raw = ray_hit(map, trig, player.x as int, player.y as int, ra);
    Hit {
        found: raw.found,
        distance: fisheye(trig, raw.distance, player.angle as int, ra),
        texture_id: raw.texture_id,
        texture_u: raw.texture_u,
        side: raw.side,
        probes: raw.probes,
    }
}

/// A march in machine integers.
struct March {
    x: i64,
    y: i64,
    dx: i64,
    dy: i64,
}

impl March {
    spec fn line(&self) -> Line {
        Line { x: self.x as int, y: self.y as int, dx: self.dx as int, dy: self.dy as int }
    }

    spec fn bounded(&self) -> bool {
        &&& -WORLD_LIMIT - 0x4000_0000 <= self.x <= WORLD_LIMIT + 0x4000_0000
        &&& -WORLD_LIMIT - 0x4000_0000 <= self.y <= WORLD_LIMIT + 0x4000_0000
        &&& -0x4000_0000 <= self.dx <= 0x4000_0000
        &&& -0x4000_0000 <= self.dy <= 0x4000_0000
    }
}

/// What a march found, in machine integers.
struct PassHit {
    found: bool,
    x: i64,
    y: i64,
    tile: u32,
    distance: i64,
    probes: u32,
}

impl PassHit {
    spec fn trace(&self) -> Trace {
        Trace {
            found: self.found,
            x: self.x as int,
            y: self.y as int,
            tile: self.tile as int,
            distance: self.distance as int,
            probes: self.probes as int,
        }
    }
}

/// The start and the step of a march along one axis: the first coordinate
/// across a grid line, the matching coordinate on the other axis, and the
/// two steps from one grid line to the next.
fn axis_line(along: i64, across: i64, lead: i64, cross: i64) -> (r: (i64, i64, i64, i64))
    requires
        -WORLD_LIMIT <= along <= WORLD_LIMIT,
        -WORLD_LIMIT <= across <= WORLD_LIMIT,
        lead != 0,
        -TRIG_ONE <= lead <= TRIG_ONE,
        -TRIG_ONE <= cross <= TRIG_ONE,
    ensures
        r.0 == first_line(along as int, lead as int),
        r.1 == across + (magnitude(r.0 - along) * cross) / magnitude(lead as int),
        r.2 == tile_step(lead as int),
        r.3 == (TILE * cross) / magnitude(lead as int),
        -TILE <= r.0 - along <= TILE,
        -0x4000_0000 <= r.1 - across <= 0x4000_0000,
        -0x4000_0000 <= r.3 <= 0x4000_0000,
{
    let low: i64 = tile_index(along) * TILE;
    let size: i64 = if lead < 0 {
        -lead
    } else {
        lead
    };
    let first: i64 = if lead > 0 {
        low + TILE
    } else {
        low - 1
    };
    let rise: i64 = if lead > 0 {
        first - along
    } else {
        along - first
    };
    assert(-0x4000_0000 <= rise * cross <= 0x4000_0000) by (nonlinear_arith)
        requires
            0 <= rise <= 16384,
            -65536 <= cross <= 65536,
    ;
    assert(-0x4000_0000 <= TILE * cross <= 0x4000_0000);
    proof {
        lemma_floor_div_bound(rise * cross, size as int, 0x4000_0000);
        lemma_floor_div_bound(TILE * cross, size as int, 0x4000_0000);
    }
    let shift: i64 = floor_div(rise * cross, size);
    let step: i64 = floor_div(TILE * cross, size);
    (first, across + shift, if lead > 0 {
        TILE
    } else {
        -TILE
    }, step)
}

/// Plans the march across the horizontal grid lines.
fn plan_horizontal(px: i64, py: i64, s: i64, c: i64) -> (r: Option<March>)
    requires
        -WORLD_LIMIT <= px <= WORLD_LIMIT,
        -WORLD_LIMIT <= py <= WORLD_LIMIT,
        -TRIG_ONE <= s <= TRIG_ONE,
        -TRIG_ONE <= c <= TRIG_ONE,
    ensures
        r is Some <==> s != 0,
        r matches Some(m) ==> m.bounded() && m.line() == (Line {
            x: px + (magnitude(first_line(py as int, s as int) - py) * c) / magnitude(s as int),
            y: first_line(py as int, s as int),
            dx: (TILE * c) / magnitude(s as int),
            dy: tile_step(s as int),
        }),
{
    if s == 0 {
        None
    } else {
        let (y, x, dy, dx) = axis_line(py, px, s, c);
        Some(March { x, y, dx, dy })
    }
}

/// Plans the march across the vertical grid lines.
fn plan_vertical(px: i64, py: i64, s: i64, c: i64) -> (r: Option<March>)
    requires
        -WORLD_LIMIT <= px <= WORLD_LIMIT,
        -WORLD_LIMIT <= py <= WORLD_LIMIT,
        -TRIG_ONE <= s <= TRIG_ONE,
        -TRIG_ONE <= c <= TRIG_ONE,
    ensures
        r is Some <==> (s != 0 && c != 0),
        r matches Some(m) ==> m.bounded() && m.line() == (Line {
            x: first_line(px as int, c as int),
            y: py + (magnitude(first_line(px as int, c as int) - px) * s) / magnitude(c as int),
            dx: tile_step(c as int),
            dy: (TILE * s) / magnitude(c as int),
        }),
{
    if s == 0 || c == 0 {
        None
    } else {
        let (x, y, dx, dy) = axis_line(px, py, c, s);
        Some(March { x, y, dx, dy })
    }
}

/// Walks a march until a probe lies in a solid cell or the depth of field
/// is used up.
fn walk(map: &TileMap, px: i64, py: i64, plan: Option<March>) -> (hit: PassHit)
    requires
        map.wf(),
        -WORLD_LIMIT <= px <= WORLD_LIMIT,
        -WORLD_LIMIT <= py <= WORLD_LIMIT,
        plan matches Some(m) ==> m.bounded(),
    ensures
        hit.trace() == trace(
            map,
            px as int,
            py as int,
            match plan {
                Some(m) => Some(m.line()),
                None => None,
            },
        ),
        0 <= hit.distance <= 0x1000_0000_0000,
        hit.probes <= DEPTH_OF_FIELD,
        hit.found ==> hit.tile > 0,
        forall|n: int| #[trigger] map.textures_within(n) && hit.found ==> hit.tile <= n,
{
    let m: March = match plan {
        Some(m) => m,
        None => {
            return PassHit {
                found: false,
                x: px,
                y: py,
                tile: 0,
                distance: NO_HIT_DISTANCE,
                probes: 0,
            };
        },
    };
    let mut k: u32 = 0;
    let mut rx: i64 = m.x;
    let mut ry: i64 = m.y;
    while k < DEPTH_OF_FIELD
        invariant
            map.wf(),
            plan == Some(m),
            m.bounded(),
            0 <= k <= DEPTH_OF_FIELD,
            rx == m.x + k * m.dx,
            ry == m.y + k * m.dy,
            first_solid(map, m.line(), 0) == first_solid(map, m.line(), k as int),
            -WORLD_LIMIT <= px <= WORLD_LIMIT,
            -WORLD_LIMIT <= py <= WORLD_LIMIT,
        ensures
            k == DEPTH_OF_FIELD,
            first_solid(map, m.line(), 0) == None::<int>,
        decreases DEPTH_OF_FIELD - k,
    {
        assert(-0x2_0000_0000 <= k * m.dx <= 0x2_0000_0000 && (k + 1) * m.dx == k * m.dx + m.dx)
            by (nonlinear_arith)
            requires
                0 <= k <= 8,
                -0x4000_0000 <= m.dx <= 0x4000_0000,
        ;
        assert(-0x2_0000_0000 <= k * m.dy <= 0x2_0000_0000 && (k + 1) * m.dy == k * m.dy + m.dy)
            by (nonlinear_arith)
            requires
                0 <= k <= 8,
                -0x4000_0000 <= m.dy <= 0x4000_0000,
        ;
        let tile: u32 = map.wall_at(tile_index(rx), tile_index(ry));
        if tile > 0 {
            let distance: i64 = dist(px, py, rx, ry);
            assert(first_solid(map, m.line(), k as int) == Some(k as int));
            return PassHit { found: true, x: rx, y: ry, tile, distance, probes: k + 1 };
        }
        rx = rx + m.dx;
        ry = ry + m.dy;
        k = k + 1;
    }
    PassHit { found: false, x: px, y: py, tile: 0, distance: NO_HIT_DISTANCE, probes: 8 }
}

/// The texel column at world coordinate `c` along a wall.
fn wall_texel(c: i64, mirrored: bool) -> (u: u32)
    ensures
        u == texel_column(c as int, mirrored),
        u < 32,
{
    let column: i64 = floor_mod(floor_div(c, TEXEL_SPAN), 32);
    if mirrored {
        (31 - column) as u32
    } else {
        column as u32
    }
}

/// Casts one ray from `(px, py)` at angle `ra` and reports the wall that it
/// hits, with the distance measured along the ray.
pub fn cast_ray(map: &TileMap, trig: &TrigTable, px: i64, py: i64, ra: i64) -> (hit: RayHit)
    requires
        map.wf(),
        trig.wf(),
        -WORLD_LIMIT <= px <= WORLD_LIMIT,
        -WORLD_LIMIT <= py <= WORLD_LIMIT,
    ensures
        hit@ == ray_hit(map, trig, px as int, py as int, ra as int),
        0 <= hit.distance <= 0x1000_0000_0000,
        hit.texture_u < 32,
        hit.texture_id < 0xffff_ffff,
        hit.probes <= 2 * DEPTH_OF_FIELD,
        (wrapped(ra as int) == 0 || wrapped(ra as int) == HALF_TURN) ==> hit.probes == 0
            && !hit.found,
        forall|n: int| #[trigger] map.textures_within(n) && hit.found ==> hit.texture_id < n,
{
    let s: i64 = trig.sin(ra);
    let c: i64 = trig.cos(ra);
    let h: PassHit = walk(map, px, py, plan_horizontal(px, py, s, c));
    let v: PassHit = walk(map, px, py, plan_vertical(px, py, s, c));
    if v.distance < h.distance {
        RayHit {
            found: v.found,
            distance: v.distance,
            texture_id: if v.found {
                v.tile - 1
            } else {
                0
            },
            texture_u: wall_texel(v.y, c < 0),
            side: Side::Vertical,
            probes: h.probes + v.probes,
        }
    } else {
        RayHit {
            found: h.found,
            distance: h.distance,
            texture_id: if h.found {
                h.tile - 1
            } else {
                0
            },
            texture_u: wall_texel(h.x, s > 0),
            side: Side::Horizontal,
            probes: h.probes + v.probes,
        }
    }
}

/// Turns a distance along the ray at angle `ra` into the distance from the
/// screen of a viewer who faces `pa`.
pub fn correct_fisheye(trig: &TrigTable, distance: i64, pa: i64, ra: i64) -> (d: i64)
    requires
        trig.wf(),
        0 <= distance <= 0x1000_0000_0000,
    ensures
        d == fisheye(trig, distance as int, pa as int, ra as int),
        -0x1000_0000_0000 <= d <= 0x1000_0000_0000,
        trig.spec_cos(pa - ra) >= 0 ==> d >= 0,
{
    let turn: i64 = floor_mod(pa, FULL_TURN) - floor_mod(ra, FULL_TURN);
    let c: i64 = trig.cos(turn);
    assert(c == trig.spec_cos(pa - ra));
    assert(-0x1000_0000_0000 * 65536 <= distance * c <= 0x1000_0000_0000 * 65536
        && (c >= 0 ==> distance * c >= 0)) by (nonlinear_arith)
        requires
            0 <= distance <= 0x1000_0000_0000,
            -65536 <= c <= 65536,
    ;
    floor_div(distance * c, TRIG_ONE)
}

/// The angle of the ray through screen column `column`.
pub fn ray_angle(pa: i64, column: usize) -> (ra: i64)
    requires
        0 <= pa < FULL_TURN,
        column < SCREEN_WIDTH,
    ensures
        ra == column_angle(pa as int, column as int),
        0 <= ra < FULL_TURN,
{
    floor_mod(pa - HALF_FIELD + (column as i64) * RAY_STEP, FULL_TURN)
}

/// Casts the ray of screen column `column` and reports the wall that the
/// player sees there, at its distance from the screen.
pub fn cast_column(map: &TileMap, trig: &TrigTable, player: &Player, column: usize) -> (hit:
    RayHit)
    requires
        map.wf(),
        trig.wf(),
        player.wf(),
        column < SCREEN_WIDTH,
    ensures
        hit@ == column_hit(map, trig, *player, column as int),
        0 <= hit.distance <= 0x1000_0000_0000,
        hit.texture_u < 32,
        hit.texture_id < 0xffff_ffff,
        forall|n: int| #[trigger] map.textures_within(n) && hit.found ==> hit.texture_id < n,
{
    let ra: i64 = ray_angle(player.angle, column);
    let raw: RayHit = cast_ray(map, trig, player.x, player.y, ra);
    proof {
        lemma_column_faces_screen(trig, player.angle as int, column as int);
    }
    let distance: i64 = correct_fisheye(trig, raw.distance, player.angle, ra);
    RayHit {
        found: raw.found,
        distance,
        texture_id: raw.texture_id,
        texture_u: raw.texture_u,
        side: raw.side,
        probes: raw.probes,
    }
}

/// Every ray of the field of view points towards the screen: the cosine of
/// its angle to the viewing direction is positive.
pub proof fn lemma_column_faces_screen(trig: &TrigTable, pa: int, column: int)
    requires
        trig.wf(),
        0 <= column < SCREEN_WIDTH,
    ensures
        trig.spec_cos(pa - column_angle(pa, column)) > 0,
{
    let turn = pa - column_angle(pa, column);
    assert(wrapped(turn) == wrapped(HALF_FIELD - column * RAY_STEP));
    trig.lemma_cos_sign(turn);
}

/// Seen straight ahead, a wall is as far from the screen as it is along the
/// ray: the correction leaves the distance of a ray that runs parallel to
/// the viewing direction as it is.
pub proof fn lemma_fisheye_parallel(trig: &TrigTable, distance: int, pa: int, ra: int)
    requires
        trig.wf(),
        wrapped(pa - ra) == 0,
    ensures
        fisheye(trig, distance, pa, ra) == distance,
{
    trig.lemma_cos_zero(pa - ra);
    assert((distance * 65536) / 65536 == distance);
}

/// A ray that runs exactly along the X axis crosses no grid line that
/// either march looks for: no cell is probed and no wall is found, whatever
/// the map holds.
pub proof fn lemma_axis_ray_probes_nothing(
    map: &TileMap,
    trig: &TrigTable,
    px: int,
    py: int,
    ra: int,
)
    requires
        trig.wf(),
        wrapped(ra) == 0 || wrapped(ra) == HALF_TURN,
    ensures
        horizontal_line(trig, px, py, ra) is None,
        vertical_line(trig, px, py, ra) is None,
        ray_hit(map, trig, px, py, ra).probes == 0,
        !ray_hit(map, trig, px, py, ra).found,
        ray_hit(map, trig, px, py, ra).distance == NO_HIT_DISTANCE,
{
    trig.lemma_sin_sign(ra);
}

/// A march crosses one grid line with every step: its first probe lies in
/// the row or column next to the start, and each further probe lies one row
/// or column farther in the direction of the ray.
pub proof fn lemma_march_crosses_lines(p: int, lead: int, k: int)
    requires
        lead != 0,
    ensures
        tile_of(first_line(p, lead) + k * tile_step(lead)) == if lead > 0 {
            tile_of(p) + 1 + k
        } else {
            tile_of(p) - 1 - k
        },
{
    assert(k * TILE == TILE * k) by (nonlinear_arith);
    assert(k * (-TILE) == -(TILE * k)) by (nonlinear_arith);
}

/// The march stops at the first solid probe: where it reports probe `k`,
/// that probe lies in a solid cell and no earlier one does; where it
/// reports nothing, none of the probes within the depth of field does.
pub proof fn lemma_first_solid(map: &TileMap, line: Line, from: int)
    requires
        0 <= from <= DEPTH_OF_FIELD,
    ensures
        match first_solid(map, line, from) {
            Some(k) => from <= k < DEPTH_OF_FIELD && probe_solid(map, line, k) && forall|j: int|
                from <= j < k ==> !#[trigger] probe_solid(map, line, j),
            None => forall|j: int|
                from <= j < DEPTH_OF_FIELD ==> !#[trigger] probe_solid(map, line, j),
        },
    decreases DEPTH_OF_FIELD - from,
{
    if from < DEPTH_OF_FIELD && !probe_solid(map, line, from) {
        lemma_first_solid(map, line, from + 1);
    }
}

} // verus!
