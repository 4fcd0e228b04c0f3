//! The empty parameter collection used by plugins without parameters.

use vstd::prelude::*;
use crate::parameter_groups::ParameterGroups;

verus! {

/// Empty parameter collection for plugins with no parameters.
#[derive(Debug, Clone, Copy, Default)]
pub struct NoParameters;

impl ParameterGroups for NoParameters {

}

} // verus!
