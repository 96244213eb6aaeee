//! Rendering core of an mdBook PlantUML preprocessor: content-addressed
//! image names, the PlantUML command line, and the decisions of one render
//! as a state machine that a driver runs against the file system and the
//! shell.
pub mod image_identity;
pub mod plantumlconfig;
pub mod shell_backend;

pub use image_identity::get_image_filename;
pub use plantumlconfig::PlantUMLConfig;
pub use shell_backend::{
    PlantUMLShell, RenderAction, RenderError, RenderEvent, RenderSession, RenderStage,
};
