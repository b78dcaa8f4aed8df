//! The rig entity model: the entity traits, VFO labels, and operating modes.

pub use crate::api::entities::{Configurable, Entity, RigConfig, Vfo, VfoConfig, VfoLabel};
pub use crate::modes::{
    AnalogVoiceMode, DataMode, DigitalVoiceMode, ImageMode, MorseMode, OperatingMode,
};
