//! The application's configuration record.
//!
//! The record names the log file and the asset, texture and shader locations.
//! Reading and decoding the configuration file is the embedding application's
//! business; this is the decoded value its consumers share, with paths as
//! plain strings.

use vstd::prelude::*;

verus! {

/// Where the application finds its log file, textures, fonts and shaders.
pub struct Config {
    pub gl_log_file: String,
    pub skybox_panel: String,
    pub ground_plane_tex: String,
    pub text_font_sheet: String,
    pub title_font_sheet: String,
    pub shader_path: String,
    pub shader_version: String,
    pub asset_path: String,
}

impl Config {
    /// Pack the decoded configuration values into one record.
    pub fn new(
        gl_log_file: String,
        skybox_panel: String,
        ground_plane_tex: String,
        text_font_sheet: String,
        title_font_sheet: String,
        shader_path: String,
        shader_version: String,
        asset_path: String,
    ) -> (r: Config)
        ensures
            r.gl_log_file@ == gl_log_file@,
            r.skybox_panel@ == skybox_panel@,
            r.ground_plane_tex@ == ground_plane_tex@,
            r.text_font_sheet@ == text_font_sheet@,
            r.title_font_sheet@ == title_font_sheet@,
            r.shader_path@ == shader_path@,
            r.shader_version@ == shader_version@,
            r.asset_path@ == asset_path@,
    {
        Config {
            gl_log_file,
            skybox_panel,
            ground_plane_tex,
            text_font_sheet,
            title_font_sheet,
            shader_path,
            shader_version,
            asset_path,
        }
    }
}

} // verus!
