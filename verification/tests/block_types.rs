use voxel_vegetables::block_types::{
    grass_texture_array, texture_index_mapper, BlockType, VoxTexture, VoxTextureArray,
};

#[test]
fn grass_is_zero() {
    assert_eq!(BlockType::Grass.index(), 0)
}

#[test]
fn block_indices_follow_declaration_order() {
    let all = [
        BlockType::Grass,
        BlockType::Dirt,
        BlockType::Water,
        BlockType::SeedPlanted,
        BlockType::WheatSprouts,
        BlockType::Wheat,
        BlockType::AppleSapling,
        BlockType::AppleTree,
        BlockType::DeadTree,
        BlockType::Nothing,
    ];
    assert_eq!(all.len(), BlockType::COUNT);
    for (i, block) in all.iter().enumerate() {
        assert_eq!(block.index() as usize, i);
        assert_eq!(BlockType::from_repr(i as u8), Some(*block));
        assert_eq!(BlockType::from_unsafe(i as u8), *block);
    }
}

#[test]
fn from_repr_rejects_unknown_material() {
    assert_eq!(BlockType::from_repr(10), None);
    assert_eq!(BlockType::from_repr(255), None);
}

#[test]
fn texture_indices_follow_sheet_order() {
    let all = [
        VoxTexture::Nothing,
        VoxTexture::Grass,
        VoxTexture::Dirt,
        VoxTexture::Water,
        VoxTexture::GrassPlant,
        VoxTexture::GrassTan,
        VoxTexture::GrassBrown,
        VoxTexture::WheatSide,
        VoxTexture::WheatTop,
        VoxTexture::WheatSprouts,
    ];
    assert_eq!(all.len(), VoxTexture::COUNT);
    for (i, texture) in all.iter().enumerate() {
        assert_eq!(texture.index() as usize, i);
    }
}

#[test]
fn indices_u32_keeps_top_side_bottom() {
    let tiles = VoxTextureArray([VoxTexture::WheatTop, VoxTexture::WheatSide, VoxTexture::Nothing]);
    assert_eq!(tiles.indices_u32(), [8, 7, 0]);
}

#[test]
fn block_tiles_match_the_table() {
    assert_eq!(BlockType::Grass.tiles().indices_u32(), [1, 1, 1]);
    assert_eq!(BlockType::Dirt.tiles().indices_u32(), [2, 2, 2]);
    assert_eq!(BlockType::Water.tiles().indices_u32(), [3, 3, 3]);
    assert_eq!(BlockType::SeedPlanted.tiles().indices_u32(), [0, 4, 0]);
    assert_eq!(BlockType::WheatSprouts.tiles().indices_u32(), [9, 9, 2]);
    assert_eq!(BlockType::Wheat.tiles().indices_u32(), [8, 7, 0]);
    assert_eq!(BlockType::AppleSapling.tiles().indices_u32(), [2, 2, 2]);
    assert_eq!(BlockType::AppleTree.tiles().indices_u32(), [2, 2, 2]);
    assert_eq!(BlockType::DeadTree.tiles().indices_u32(), [2, 2, 2]);
    assert_eq!(BlockType::Nothing.tiles().indices_u32(), [2, 2, 2]);
}

#[test]
fn texture_index_mapper_falls_back_to_grass() {
    assert_eq!(texture_index_mapper(5), [8, 7, 0]);
    assert_eq!(texture_index_mapper(3), [0, 4, 0]);
    assert_eq!(texture_index_mapper(10), [1, 1, 1]);
    assert_eq!(texture_index_mapper(200), grass_texture_array().indices_u32());
}
