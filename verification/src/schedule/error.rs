//! What goes wrong when requests conflict.

use crate::storage::ComponentId;
use vstd::prelude::*;

verus! {

/// Two queries cannot be used at the same time.
#[derive(Debug, Clone, Copy, Eq, PartialEq, Structural)]
pub enum ComponentConflictError {
    MutableAliacing(ComponentId),
    MutableAndImmutableBorrow(ComponentId),
}

/// Two resources cannot be used at the same time.
#[derive(Debug, Clone, Copy, Eq, PartialEq, Structural)]
pub enum ResourceConflictError {
    MutableAliacing(ComponentId),
    MutableAndImmutableBorrow(ComponentId),
}

/// Two parameters cannot be used at the same time.
#[derive(Debug, Clone, Copy, Eq, PartialEq, Structural)]
pub enum SystemParameterConflictError {
    Component(ComponentConflictError),
    Resource(ResourceConflictError),
}

/// Two systems cannot be in the same stage.
#[derive(Debug, Clone, Copy)]
pub struct StageConflictError {
    pub source: SystemParameterConflictError,
    pub system_a: &'static str,
    pub system_b: &'static str,
}

/// A system cannot be added to a stage.
#[derive(Debug, Clone, Copy)]
pub enum AddSystemError {
    ConvertToSystem(SystemParameterConflictError),
    SystemConflict(StageConflictError),
}

impl From<ComponentConflictError> for SystemParameterConflictError {
    fn from(error: ComponentConflictError) -> (converted: Self) {
        SystemParameterConflictError::Component(error)
    }
}

impl vstd::std_specs::convert::FromSpecImpl<ComponentConflictError> for SystemParameterConflictError {
    open spec fn obeys_from_spec() -> bool {
        true
    }

    open spec fn from_spec(error: ComponentConflictError) -> Self {
        SystemParameterConflictError::Component(error)
    }
}

impl From<ResourceConflictError> for SystemParameterConflictError {
    fn from(error: ResourceConflictError) -> (converted: Self) {
        SystemParameterConflictError::Resource(error)
    }
}

impl vstd::std_specs::convert::FromSpecImpl<ResourceConflictError> for SystemParameterConflictError {
    open spec fn obeys_from_spec() -> bool {
        true
    }

    open spec fn from_spec(error: ResourceConflictError) -> Self {
        SystemParameterConflictError::Resource(error)
    }
}

impl From<SystemParameterConflictError> for AddSystemError {
    fn from(error: SystemParameterConflictError) -> (converted: Self) {
        AddSystemError::ConvertToSystem(error)
    }
}

impl vstd::std_specs::convert::FromSpecImpl<SystemParameterConflictError> for AddSystemError {
    open spec fn obeys_from_spec() -> bool {
        true
    }

    open spec fn from_spec(error: SystemParameterConflictError) -> Self {
        AddSystemError::ConvertToSystem(error)
    }
}

impl From<StageConflictError> for AddSystemError {
    fn from(error: StageConflictError) -> (converted: Self) {
        AddSystemError::SystemConflict(error)
    }
}

impl vstd::std_specs::convert::FromSpecImpl<StageConflictError> for AddSystemError {
    open spec fn obeys_from_spec() -> bool {
        true
    }

    open spec fn from_spec(error: StageConflictError) -> Self {
        AddSystemError::SystemConflict(error)
    }
}

} // verus!
