//! Where the game's assets lie, as paths relative to the directory that the
//! game is started from.

use vstd::prelude::*;

verus! {

/// Directory of the images that the texture sheet is put together from.
pub const ASSET_SOURCE_DIR: &'static str = "source_assets/";

/// Directory of the textures, relative to the asset directory.
pub const ASSET_TEXTURE_REL_DIR: &'static str = "textures/";

/// Directory of the textures.
pub const ASSET_TEXTURE_DIR: &'static str = "assets/textures/";

/// File name of the texture sheet.
pub const TILE_TEXTURE_PACK_FILE: &'static str = "tile_textures.png";

/// Directory of the images that the texture sheet is put together from.
pub fn asset_source_path() -> (path: String)
    ensures
        path@ == ASSET_SOURCE_DIR@,
{
    String::from_str(ASSET_SOURCE_DIR)
}

/// Directory of the textures.
pub fn asset_texture_path() -> (path: String)
    ensures
        path@ == ASSET_TEXTURE_DIR@,
{
    String::from_str(ASSET_TEXTURE_DIR)
}

/// File name of the texture sheet.
pub fn tile_texture_pack_file() -> (path: String)
    ensures
        path@ == TILE_TEXTURE_PACK_FILE@,
{
    String::from_str(TILE_TEXTURE_PACK_FILE)
}

/// Path of the texture sheet: its file name inside the directory of the
/// textures.
pub fn tile_texture_pack_path() -> (path: String)
    ensures
        path@ == ASSET_TEXTURE_DIR@ + TILE_TEXTURE_PACK_FILE@,
{
    asset_texture_path().concat(TILE_TEXTURE_PACK_FILE)
}

/// Path of the texture sheet relative to the asset directory.
pub fn tile_texture_pack_rel_path() -> (path: String)
    ensures
        path@ == ASSET_TEXTURE_REL_DIR@ + TILE_TEXTURE_PACK_FILE@,
{
    String::from_str(ASSET_TEXTURE_REL_DIR).concat(TILE_TEXTURE_PACK_FILE)
}

} // verus!
