//! The entity traits that rig implementations provide.

use vstd::prelude::*;

use crate::error::RigError;
use crate::protocol::Frequency;

verus! {

/// Any entity of the rig model.
pub trait Entity {}

/// An entity with a configuration.
pub trait Configurable: Entity {
    type Config;

    fn config(&self) -> &Self::Config;

    fn config_mut(&mut self) -> &mut Self::Config;
}

/// The configuration of a rig: who made it and which model it is.
pub trait RigConfig {
    fn brand_name(&self) -> &str;

    fn model_name(&self) -> &str;

    fn model_version(&self) -> Option<&str>;

    fn serial_number(&self) -> Option<&str>;
}

/// The label of a VFO.
#[derive(Clone, Copy, Debug, PartialEq, Eq, PartialOrd, Ord, Hash)]
pub enum VfoLabel {
    VfoA,
    VfoB,
    VfoSub,
}

impl VfoLabel {
    /// The variant name, as its string form shows it.
    pub fn name(&self) -> (s: &'static str)
        ensures
            s@ == (match self {
                VfoLabel::VfoA => "VfoA"@,
                VfoLabel::VfoB => "VfoB"@,
                VfoLabel::VfoSub => "VfoSub"@,
            }),
    {
        match self {
            VfoLabel::VfoA => "VfoA",
            VfoLabel::VfoB => "VfoB",
            VfoLabel::VfoSub => "VfoSub",
        }
    }
}

/// A VFO of a rig.
pub trait Vfo: Configurable<Config = <Self as Vfo>::VfoConfig> {
    type VfoConfig: VfoConfig;

    fn label(&self) -> VfoLabel;

    fn frequency(&self) -> Result<(), RigError>;

    fn set_frequency(&mut self, frequency: Frequency) -> Result<(), RigError>;

    fn frequency_up(&mut self) -> Result<(), RigError>;

    fn frequency_down(&mut self) -> Result<(), RigError>;
}

/// The configuration of a VFO.
pub trait VfoConfig {
    fn frequency_increment(&self) -> Result<(), RigError>;

    fn set_frequency_increment(&self, increment: Frequency) -> Result<(), RigError>;
}

} // verus!
