//! Map editor grid edits, camera arithmetic, map generation and the random
//! wrappers, checked on concrete values.

use rogue_core::camera::Camera;
use rogue_core::display::{Display, MEEntity, MapDescriptor, TileType};
use rogue_core::editor::MapEditorState;
use rogue_core::rng::{chance_percent, random_point};
use rogue_core::world::State;

fn editor_tile(glyph: u16) -> Display {
    Display { glyph, fg: (10, 20, 30), bg: (0, 0, 0) }
}

#[test]
fn fresh_editor_is_all_floor() {
    let ed = MapEditorState::new(4, 3);
    assert_eq!(ed.map_tiles.len(), 12);
    assert_eq!(ed.entities.len(), 12);
    assert!(ed.picked_entity.is_none());
    for t in ed.map_tiles.iter() {
        assert!(matches!(t, TileType::Floor(_)));
    }
}

#[test]
fn editor_clicks_paint_the_picked_tile() {
    let mut ed = MapEditorState::new(5, 5);
    ed.picked_tile = editor_tile(35);
    ed.handle_l_click((2, 3));
    assert_eq!(ed.map_tiles[(3 * 5 + 2) as usize], TileType::Floor(editor_tile(35)));
    ed.handle_r_click((4, 0));
    assert_eq!(ed.map_tiles[4], TileType::Wall(editor_tile(35)));
    // Clicks outside the grid change nothing.
    let before = ed.map_tiles.clone();
    ed.handle_l_click((5, 5));
    ed.handle_r_click((-1, 0));
    assert_eq!(ed.map_tiles, before);
}

#[test]
fn editor_stamps_and_removes_entities() {
    let mut ed = MapEditorState::new(5, 5);
    ed.picked_entity = Some(MEEntity { d: editor_tile(103), name: "Goblin".to_owned() });
    ed.handle_e_click((1, 2));
    let stamped = ed.entities[(2 * 5 + 1) as usize].as_ref().unwrap();
    assert_eq!(stamped.name, "Goblin");
    assert_eq!(stamped.d, editor_tile(103));
    ed.remove_entity_at((1, 2));
    assert!(ed.entities[(2 * 5 + 1) as usize].is_none());
    // Out-of-bounds removal is a no-op rather than an abort.
    ed.remove_entity_at((9, 9));
}

#[test]
fn editor_fill_and_portal_and_pick() {
    let mut ed = MapEditorState::new(4, 4);
    ed.picked_tile = editor_tile(61);
    ed.fill_floor();
    for t in ed.map_tiles.iter() {
        assert_eq!(*t, TileType::Floor(editor_tile(61)));
    }
    ed.place_portal((2, 2), 1, 7, 8);
    assert_eq!(ed.map_tiles[(2 * 4 + 2) as usize], TileType::Portal(editor_tile(61), 1, 7, 8));
    ed.picked_tile = editor_tile(46);
    ed.pick_tile_at((2, 2));
    assert_eq!(ed.picked_tile, editor_tile(61));
}

#[test]
fn editor_loads_a_well_formed_descriptor_only() {
    let mut ed = MapEditorState::new(4, 4);
    let md = MapDescriptor {
        width: 2,
        height: 3,
        tiles: vec![TileType::Floor(editor_tile(46)); 6],
        entities: vec![None, None, None, None, None, None],
    };
    assert!(ed.load_descriptor(md));
    assert_eq!((ed.width, ed.height), (2, 3));
    assert_eq!(ed.map_tiles.len(), 6);
    let bad = MapDescriptor {
        width: 2,
        height: 3,
        tiles: vec![TileType::Floor(editor_tile(46)); 5],
        entities: vec![None; 5],
    };
    assert!(!ed.load_descriptor(bad));
    assert_eq!((ed.width, ed.height), (2, 3));
}

#[test]
fn camera_pans_one_unit_per_tween_step() {
    let mut cam = Camera::new(-20, -20);
    cam.dx = 2;
    cam.dy = -1;
    let idle = cam.tween_tick();
    assert!(!idle);
    assert_eq!((cam.get_x(), cam.get_y()), (1, -1));
    assert_eq!((cam.dx, cam.dy), (1, 0));
    cam.tween_tick();
    let idle3 = cam.tween_tick();
    assert!(idle3);
    assert_eq!((cam.get_x(), cam.get_y()), (2, -1));
}

#[test]
fn camera_transform_subtracts_offset_and_anchor() {
    let mut cam = Camera::new(-20, -20);
    cam.update_xy(5, 7);
    assert_eq!(cam.transform_point((5, 7)), (20, 20));
    assert_eq!(cam.mod_x(), -15);
    assert_eq!(cam.mod_y(), -13);
}

#[test]
fn generated_map_has_only_walls_and_floors() {
    let tiles = State::generate_map(10, 6);
    assert_eq!(tiles.len(), 60);
    for t in tiles.iter() {
        match t {
            TileType::Wall(d) => assert_eq!(*d, Display { glyph: 94, fg: (0, 255, 0), bg: (0, 0, 0) }),
            TileType::Floor(d) => {
                assert_eq!(*d, Display { glyph: 46, fg: (255, 255, 255), bg: (0, 0, 0) })
            },
            TileType::Portal(_, _, _, _) => panic!("generator produced a portal"),
        }
    }
}

#[test]
fn chance_percent_is_exact_at_the_ends() {
    for _ in 0..50 {
        assert!(!chance_percent(0));
        assert!(chance_percent(100));
    }
}

#[test]
fn random_points_stay_in_their_ranges() {
    for _ in 0..100 {
        let (x, y) = random_point(2, 5, -3, 4);
        assert!(2 <= x && x < 5);
        assert!(-3 <= y && y < 4);
    }
}

#[test]
fn scattered_entities_leave_existing_ones_alone() {
    let mut st = State::new(
        MapDescriptor {
            width: 12,
            height: 12,
            tiles: State::generate_map(12, 12),
            entities: vec![None; 144],
        },
        rogue_core::stats::StatBlock {
            hp: rogue_core::stats::EntityStat::new("Hit Points", 10),
            def: rogue_core::stats::EntityStat::new("Defense", 3),
            atk: rogue_core::stats::EntityStat::new("Attack", 5),
            dead: false,
        },
    )
    .unwrap();
    let pid = st.get_player_id();
    st.generate_entities();
    assert!(st.ecs.is_valid(pid));
    let plr = st.get_player();
    assert_eq!((plr.get_x(), plr.get_y()), (1, 1));
}
