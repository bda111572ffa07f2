use raycaster::map::TileMap;
use raycaster::player::Player;
use raycaster::raycast::cast_column;
use raycaster::raycast::cast_ray;
use raycaster::raycast::correct_fisheye;
use raycaster::raycast::ray_angle;
use raycaster::raycast::RayHit;
use raycaster::raycast::Side;
use raycaster::raycast::NO_HIT_DISTANCE;
use raycaster::trig::TrigTable;

fn sines() -> TrigTable {
    let mut quarter = Vec::new();
    for i in 0..=900 {
        let degrees = i as f64 / 10.0;
        quarter.push((degrees.to_radians().sin() * 65536.0).round() as i32);
    }
    TrigTable::new(quarter).unwrap()
}

fn level() -> TileMap {
    let walls = vec![
        1, 1, 1, 1, 1, 3, 1, 1, //
        6, 0, 0, 1, 0, 0, 0, 1, //
        1, 0, 0, 4, 0, 2, 0, 1, //
        1, 5, 4, 5, 0, 0, 0, 1, //
        2, 0, 0, 0, 0, 0, 0, 1, //
        2, 0, 0, 0, 0, 1, 0, 1, //
        2, 0, 0, 0, 0, 0, 0, 1, //
        1, 1, 3, 1, 3, 1, 3, 1,
    ];
    TileMap::new(8, 8, walls, vec![0; 64], vec![0; 64]).unwrap()
}

fn walled_room(border: u32) -> TileMap {
    let mut walls = vec![0; 64];
    for y in 0..8 {
        for x in 0..8 {
            if x == 0 || x == 7 || y == 0 || y == 7 {
                walls[y * 8 + x] = border;
            }
        }
    }
    TileMap::new(8, 8, walls, vec![0; 64], vec![0; 64]).unwrap()
}

fn empty_room() -> TileMap {
    TileMap::new(8, 8, vec![0; 64], vec![0; 64], vec![0; 64]).unwrap()
}

const START: i64 = 76800;

#[test]
fn ray_towards_plus_y_hits_the_wall_below() {
    let hit = cast_ray(&level(), &sines(), START, START, 900);
    assert_eq!(
        hit,
        RayHit {
            found: true,
            distance: 37888,
            texture_id: 2,
            texture_u: 9,
            side: Side::Horizontal,
            probes: 3,
        }
    );
}

#[test]
fn ray_towards_minus_y_hits_the_wall_above() {
    let hit = cast_ray(&level(), &sines(), START, START, 2700);
    assert_eq!(
        hit,
        RayHit {
            found: true,
            distance: 60417,
            texture_id: 0,
            texture_u: 22,
            side: Side::Horizontal,
            probes: 4,
        }
    );
}

#[test]
fn ray_just_off_the_x_axis_hits_the_wall_ahead() {
    let hit = cast_ray(&level(), &sines(), START, START, 1);
    assert_eq!(
        hit,
        RayHit {
            found: true,
            distance: 37888,
            texture_id: 0,
            texture_u: 22,
            side: Side::Vertical,
            probes: 11,
        }
    );
    let hit = cast_ray(&level(), &sines(), START, START, 3599);
    assert_eq!(
        hit,
        RayHit {
            found: true,
            distance: 37888,
            texture_id: 0,
            texture_u: 21,
            side: Side::Vertical,
            probes: 11,
        }
    );
}

#[test]
fn ray_at_45_degrees_hits_the_pillar() {
    let hit = cast_ray(&level(), &sines(), START, START, 450);
    assert_eq!(hit.found, true);
    assert_eq!(hit.distance, 7240);
    assert_eq!(hit.texture_id, 0);
    assert_eq!(hit.side, Side::Horizontal);
}

#[test]
fn rays_in_the_other_quadrants() {
    let map = level();
    let trig = sines();
    let hit = cast_ray(&map, &trig, START, START, 1350);
    assert_eq!(
        hit,
        RayHit {
            found: true,
            distance: 53581,
            texture_id: 2,
            texture_u: 19,
            side: Side::Horizontal,
            probes: 6,
        }
    );
    let hit = cast_ray(&map, &trig, START, START, 2250);
    assert_eq!(
        hit,
        RayHit {
            found: true,
            distance: 15931,
            texture_id: 4,
            texture_u: 31,
            side: Side::Horizontal,
            probes: 2,
        }
    );
    let hit = cast_ray(&map, &trig, START, START, 3150);
    assert_eq!(
        hit,
        RayHit {
            found: true,
            distance: 53581,
            texture_id: 0,
            texture_u: 12,
            side: Side::Vertical,
            probes: 6,
        }
    );
}

#[test]
fn ray_along_the_x_axis_probes_nothing() {
    let map = level();
    let trig = sines();
    for ra in [0i64, 1800, 3600, -1800, 5400] {
        let hit = cast_ray(&map, &trig, START, START, ra);
        assert_eq!(hit.probes, 0);
        assert_eq!(hit.found, false);
        assert_eq!(hit.distance, NO_HIT_DISTANCE);
        assert_eq!(hit.texture_id, 0);
        assert_eq!(hit.side, Side::Horizontal);
    }
}

#[test]
fn ray_along_the_y_axis_makes_one_march() {
    let hit = cast_ray(&level(), &sines(), START, START, 900);
    assert_eq!(hit.probes, 3);
    let hit = cast_ray(&empty_room(), &sines(), START, START, 900);
    assert_eq!(hit.probes, 8);
    assert_eq!(hit.found, false);
}

#[test]
fn ray_in_an_empty_room_gives_up_at_the_depth_of_field() {
    let hit = cast_ray(&empty_room(), &sines(), START, START, 450);
    assert_eq!(
        hit,
        RayHit {
            found: false,
            distance: NO_HIT_DISTANCE,
            texture_id: 0,
            texture_u: 9,
            side: Side::Horizontal,
            probes: 16,
        }
    );
}

#[test]
fn a_wall_beyond_the_depth_of_field_is_not_seen() {
    let mut walls = vec![0; 20];
    walls[19] = 1;
    let corridor = TileMap::new(20, 1, walls, vec![0; 20], vec![0; 20]).unwrap();
    let trig = sines();
    let near = cast_ray(&corridor, &trig, 11 * 16384 + 8192, 8192, 1);
    assert_eq!(near.found, true);
    assert_eq!(near.side, Side::Vertical);
    let far = cast_ray(&corridor, &trig, 10 * 16384 + 8192, 8192, 1);
    assert_eq!(far.found, false);
    assert_eq!(far.distance, NO_HIT_DISTANCE);
}

#[test]
fn equal_distances_go_to_the_horizontal_march() {
    let hit = cast_ray(&walled_room(1), &sines(), 65536, 65536, 450);
    assert_eq!(
        hit,
        RayHit {
            found: true,
            distance: 69511,
            texture_id: 0,
            texture_u: 31,
            side: Side::Horizontal,
            probes: 6,
        }
    );
}

#[test]
fn the_nearer_march_wins() {
    let hit = cast_ray(&walled_room(1), &sines(), 65536, 65536, 3150);
    assert_eq!(hit.side, Side::Vertical);
    assert_eq!(hit.distance, 69511);
    assert_eq!(hit.texture_u, 0);
    let hit = cast_ray(&walled_room(1), &sines(), 65536, 65536, 1350);
    assert_eq!(hit.side, Side::Horizontal);
    assert_eq!(hit.distance, 69511);
}

#[test]
fn center_ray_hits_the_first_wall_along_x() {
    let map = walled_room(3);
    let trig = sines();
    let player = Player { x: 24576, y: 24576, angle: 1 };
    let hit = cast_column(&map, &trig, &player, 60);
    assert_eq!(hit.found, true);
    assert_eq!(hit.texture_id, 2);
    assert_eq!(hit.side, Side::Vertical);
    assert_eq!(hit.distance, 7 * 16384 - 24576);
    let hit = cast_ray(&map, &trig, 24576, 24576, 1);
    assert_eq!(hit.found, true);
    assert_eq!(hit.texture_id, 2);
    assert_eq!(hit.distance, 90112);
}

#[test]
fn center_ray_along_the_axis_sees_no_wall() {
    let map = walled_room(3);
    let trig = sines();
    let player = Player { x: 24576, y: 24576, angle: 0 };
    let hit = cast_column(&map, &trig, &player, 60);
    assert_eq!(hit.found, false);
    assert_eq!(hit.probes, 0);
    assert_eq!(hit.distance, NO_HIT_DISTANCE);
}

#[test]
fn fisheye_leaves_a_parallel_ray_alone() {
    let trig = sines();
    for d in [0i64, 1, 37888, NO_HIT_DISTANCE, 0x1000_0000_0000] {
        assert_eq!(correct_fisheye(&trig, d, 0, 0), d);
        assert_eq!(correct_fisheye(&trig, d, 1234, 1234), d);
        assert_eq!(correct_fisheye(&trig, d, 0, 3600), d);
        assert_eq!(correct_fisheye(&trig, d, -3600, 7200), d);
    }
}

#[test]
fn fisheye_shortens_a_slanted_ray() {
    let trig = sines();
    assert_eq!(correct_fisheye(&trig, 37888, 0, 300), 32812);
    assert_eq!(correct_fisheye(&trig, 37888, 300, 0), 32812);
    assert_eq!(correct_fisheye(&trig, 1000, 0, 900), 0);
    assert_eq!(correct_fisheye(&trig, 1000, 0, 1800), -1000);
    assert_eq!(correct_fisheye(&trig, NO_HIT_DISTANCE, 0, 3300), 221703125);
    assert_eq!(
        correct_fisheye(&trig, 1000, i64::MIN, i64::MAX),
        correct_fisheye(&trig, 1000, 1792, 1807)
    );
}

#[test]
fn columns_sweep_the_field_of_view() {
    assert_eq!(ray_angle(0, 0), 3300);
    assert_eq!(ray_angle(0, 60), 0);
    assert_eq!(ray_angle(0, 119), 295);
    assert_eq!(ray_angle(100, 0), 3400);
    assert_eq!(ray_angle(100, 60), 100);
    assert_eq!(ray_angle(3599, 119), 294);
    for column in 0..120 {
        let ra = ray_angle(3500, column);
        assert!(0 <= ra && ra < 3600);
    }
}

#[test]
fn column_distance_is_measured_from_the_screen() {
    let map = level();
    let trig = sines();
    let player = Player { x: START, y: START, angle: 900 };
    let hit = cast_column(&map, &trig, &player, 60);
    assert_eq!(
        hit,
        RayHit {
            found: true,
            distance: 37888,
            texture_id: 2,
            texture_u: 9,
            side: Side::Horizontal,
            probes: 3,
        }
    );
    let hit = cast_column(&map, &trig, &player, 0);
    assert_eq!(
        hit,
        RayHit {
            found: true,
            distance: 8867,
            texture_id: 0,
            texture_u: 7,
            side: Side::Vertical,
            probes: 4,
        }
    );
    let hit = cast_column(&map, &trig, &player, 119);
    assert_eq!(
        hit,
        RayHit {
            found: true,
            distance: 37888,
            texture_id: 0,
            texture_u: 19,
            side: Side::Horizontal,
            probes: 5,
        }
    );
    let raw = cast_ray(&map, &trig, START, START, ray_angle(900, 0));
    assert_eq!(hit_distance_from_screen(&trig, &raw, 900, ray_angle(900, 0)), 8867);
}

fn hit_distance_from_screen(trig: &TrigTable, raw: &RayHit, pa: i64, ra: i64) -> i64 {
    correct_fisheye(trig, raw.distance, pa, ra)
}

#[test]
fn a_ray_outside_the_grid_probes_by_index() {
    let map = walled_room(2);
    let trig = sines();
    let hit = cast_ray(&map, &trig, -2 * 16384 - 8192, 4 * 16384 + 8192, 1);
    assert_eq!(hit.found, true);
    assert_eq!(hit.side, Side::Vertical);
    assert_eq!(hit.texture_id, 1);
    assert_eq!(hit.distance, 16384 + 8192);
    assert_eq!(hit.probes, 10);
    let hit = cast_ray(&map, &trig, 4 * 16384, 20 * 16384, 900);
    assert_eq!(hit.found, false);
    assert_eq!(hit.probes, 8);
}

#[test]
fn rays_at_the_edge_of_the_world() {
    let map = level();
    let trig = sines();
    let limit = raycaster::fixed::WORLD_LIMIT;
    for ra in [1i64, 450, 900, 1799, 2250, 3599] {
        let hit = cast_ray(&map, &trig, limit, -limit, ra);
        assert!(hit.distance >= 0);
        assert!(hit.texture_u < 32);
    }
}
