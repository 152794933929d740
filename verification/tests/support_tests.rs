use fly_camera::config::Config;
use fly_camera::font_atlas::Address;
use fly_camera::gl_helpers::{ProgramLog, ShaderLog};
use fly_camera::logger::{init, init_with_level, FileLogger, Level};

#[test]
fn new_logger_records_file_and_logs_everything() {
    let logger = FileLogger::new("render.log");
    assert_eq!(logger.log_file, "render.log");
    assert_eq!(logger.max_level, Level::Trace);
    assert!(logger.enabled(Level::Error));
    assert!(logger.enabled(Level::Trace));
}

#[test]
fn init_with_level_filters_by_severity() {
    let logger = init_with_level("render.log", Level::Warn);
    assert_eq!(logger.log_file, "render.log");
    assert_eq!(logger.max_level, Level::Warn);
    assert!(logger.enabled(Level::Error));
    assert!(logger.enabled(Level::Warn));
    assert!(!logger.enabled(Level::Info));
    assert!(!logger.enabled(Level::Debug));
    assert!(!logger.enabled(Level::Trace));
}

#[test]
fn init_defaults_to_the_most_verbose_level() {
    let logger = init("render.log");
    assert_eq!(logger.max_level, Level::Trace);
    assert!(logger.enabled(Level::Debug));
}

#[test]
fn level_ranks_order_by_verbosity() {
    assert!(Level::Error.rank() < Level::Warn.rank());
    assert!(Level::Warn.rank() < Level::Info.rank());
    assert!(Level::Info.rank() < Level::Debug.rank());
    assert!(Level::Debug.rank() < Level::Trace.rank());
}

#[test]
fn config_keeps_every_field() {
    let config = Config::new(
        String::from("gl.log"),
        String::from("skybox_panel.png"),
        String::from("tile_rock_planet256x256.png"),
        String::from("text_font2048x2048.png"),
        String::from("title_font2048x2048.png"),
        String::from("shaders"),
        String::from("420"),
        String::from("assets"),
    );
    assert_eq!(config.gl_log_file, "gl.log");
    assert_eq!(config.skybox_panel, "skybox_panel.png");
    assert_eq!(config.ground_plane_tex, "tile_rock_planet256x256.png");
    assert_eq!(config.text_font_sheet, "text_font2048x2048.png");
    assert_eq!(config.title_font_sheet, "title_font2048x2048.png");
    assert_eq!(config.shader_path, "shaders");
    assert_eq!(config.shader_version, "420");
    assert_eq!(config.asset_path, "assets");
}

#[test]
fn glyph_addresses_compare_by_cell() {
    let a = Address { row: 3, column: 7 };
    let b = Address { row: 3, column: 7 };
    let c = Address { row: 4, column: 7 };
    assert_eq!(a, b);
    assert_ne!(a, c);
}

#[test]
fn compilation_logs_keep_index_and_text() {
    let shader = ShaderLog::new(5, String::from("ok"));
    assert_eq!(shader.index, 5);
    assert_eq!(shader.log, "ok");
    let program = ProgramLog::new(9, String::from("validated"));
    assert_eq!(program.index, 9);
    assert_eq!(program.log, "validated");
}
