//! A small editor for a font configuration: a table of font data keyed by identifier, a table
//! of font families with their fallback lists, and a registry of the paths that custom fonts
//! were read from. The editor is driven one frame at a time by the events of a user interface
//! and reports whether the user asked to apply or to save the configuration.
pub mod editor;
pub mod facts;
pub mod loader;
pub mod table;

pub use editor::{
    CustomFontPaths, FontCfgUi, FontCfgWindow, FontConfig, FontDefsUiMsg, FrameOutput, UiEvent,
};
pub use loader::load_custom_fonts;
pub use table::Table;
