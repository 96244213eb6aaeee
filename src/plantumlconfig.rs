//! The configuration options of the preprocessor.
use vstd::prelude::*;

verus! {

/// The configuration options available with this backend.
#[derive(Clone, Debug)]
pub struct PlantUMLConfig {
    /// By default it is assumed plantuml.jar is on the path.
    /// Use plantuml_cmd if it is not on the path, or if you
    /// have some additional parameters.
    pub plantuml_cmd: Option<String>,
    /// PlantUML images become clickable for zoom by setting this flag to `true`.
    /// This is convenient for large diagrams which are hard to see in the book.
    pub clickable_img: bool,
    /// Defines whether logging should be enabled.
    pub logging_enabled: bool,
    /// This allows users to override the default logger by providing a
    /// log4rs yaml file path.
    pub logging_config: Option<String>,
}

impl Default for PlantUMLConfig {
    fn default() -> (r: PlantUMLConfig)
        ensures
            r.plantuml_cmd is None,
            !r.clickable_img,
            !r.logging_enabled,
            r.logging_config is None,
    {
        PlantUMLConfig {
            plantuml_cmd: None,
            clickable_img: false,
            logging_enabled: false,
            logging_config: None,
        }
    }
}

} // verus!
