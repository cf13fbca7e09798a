//! Control commands flowing downward into the gateway.

use vstd::prelude::*;

use crate::api::ModelConfig;

verus! {

/// A directive for the gateway's model management.
#[derive(Debug, Clone)]
pub enum ControlCommand {
    StartModel(ModelConfig),
    StopModel(String),
    UpdateModelSettings(String, ModelConfig),
}

} // verus!
