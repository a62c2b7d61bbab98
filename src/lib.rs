//! Staging and validation of color-light state changes, and the device's
//! default-state model.

mod color;
mod color_light;
mod default_state;

pub use color::{color_definition, Color, ColorDefinition};
pub use color_light::{ColorLightSetDeviceInfoParams, PayloadField, ValidationError};
pub use default_state::{DefaultBrightnessState, DefaultPowerType, DefaultStateType};
