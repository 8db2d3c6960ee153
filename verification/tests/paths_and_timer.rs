use std::path::Path;

use voxel_vegetables::build_common::{
    asset_source_path, asset_texture_path, tile_texture_pack_file, tile_texture_pack_path,
    tile_texture_pack_rel_path, ASSET_SOURCE_DIR, ASSET_TEXTURE_DIR, ASSET_TEXTURE_REL_DIR,
    TILE_TEXTURE_PACK_FILE,
};
use voxel_vegetables::core_components::{ChangeState, GameState};
use voxel_vegetables::timer::{run_timer, GameTimer};

#[test]
fn asset_directories() {
    assert_eq!(asset_source_path(), "source_assets/");
    assert_eq!(asset_texture_path(), "assets/textures/");
    assert_eq!(tile_texture_pack_file(), "tile_textures.png");
    assert_eq!(ASSET_SOURCE_DIR, "source_assets/");
    assert_eq!(ASSET_TEXTURE_REL_DIR, "textures/");
}

#[test]
fn texture_sheet_paths_join_directory_and_file() {
    assert_eq!(tile_texture_pack_path(), "assets/textures/tile_textures.png");
    assert_eq!(tile_texture_pack_rel_path(), "textures/tile_textures.png");
    assert_eq!(
        Path::new(&tile_texture_pack_path()),
        Path::new(ASSET_TEXTURE_DIR).join(TILE_TEXTURE_PACK_FILE)
    );
    assert_eq!(
        Path::new(&tile_texture_pack_rel_path()),
        Path::new(ASSET_TEXTURE_REL_DIR).join(TILE_TEXTURE_PACK_FILE)
    );
}

#[test]
fn the_game_starts_loading() {
    assert_eq!(GameState::default(), GameState::Loading);
    assert_eq!(ChangeState(GameState::Menu).0, GameState::Menu);
    assert_ne!(GameState::Playing, GameState::Menu);
}

#[test]
fn a_timer_rings_once_below_zero() {
    let mut timer = GameTimer { time: 20, is_active: true };
    assert!(!timer.run(16));
    assert_eq!(timer, GameTimer { time: 4, is_active: true });
    assert!(!timer.run(16));
    assert_eq!(timer, GameTimer { time: -12, is_active: true });
    assert!(timer.run(16));
    assert_eq!(timer, GameTimer { time: -28, is_active: false });
    assert!(!timer.run(16));
    assert_eq!(timer, GameTimer { time: -28, is_active: false });
}

#[test]
fn a_timer_at_zero_does_not_ring_yet() {
    let mut timer = GameTimer { time: 0, is_active: true };
    assert!(!timer.run(0));
    assert_eq!(timer, GameTimer { time: 0, is_active: true });
}

#[test]
fn timers_behind_an_inactive_one_are_not_run() {
    let mut timers = vec![
        GameTimer { time: -1, is_active: true },
        GameTimer { time: 50, is_active: true },
        GameTimer { time: -5, is_active: true },
        GameTimer { time: 50, is_active: false },
        GameTimer { time: -5, is_active: true },
    ];
    let rang = run_timer(&mut timers, 10);
    assert_eq!(rang, vec![0, 2]);
    assert_eq!(
        timers,
        vec![
            GameTimer { time: -11, is_active: false },
            GameTimer { time: 40, is_active: true },
            GameTimer { time: -15, is_active: false },
            GameTimer { time: 50, is_active: false },
            GameTimer { time: -5, is_active: true },
        ]
    );
    let rang = run_timer(&mut timers, 10);
    assert!(rang.is_empty());
    assert_eq!(timers[0], GameTimer { time: -11, is_active: false });
    assert_eq!(timers[1], GameTimer { time: 40, is_active: true });
    assert!(run_timer(&mut Vec::new(), 10).is_empty());
}
