use vstd::prelude::*;

use crate::virtualization::vm::error::VmError;

verus! {

/// The run state of a virtual machine.
#[derive(Clone, Copy, Debug, PartialEq, Eq, Structural)]
pub enum VmState {
    Created,
    Running,
    Paused,
}

impl VmState {
    /// Succeeds exactly when the machine is in `state`.
    fn ensure_is(&self, state: VmState) -> (r: Result<(), VmError>)
        ensures
            *self == state ==> r is Ok,
            *self != state ==> r == Err::<(), VmError>(VmError::VmState { current: *self }),
    {
        if *self != state {
            return Err(VmError::VmState { current: *self });
        }
        Ok(())
    }

    /// Succeeds exactly when the machine is not in `state`.
    fn ensure_is_not(&self, state: VmState) -> (r: Result<(), VmError>)
        ensures
            *self != state ==> r is Ok,
            *self == state ==> r == Err::<(), VmError>(VmError::VmState { current: *self }),
    {
        if *self == state {
            return Err(VmError::VmState { current: *self });
        }
        Ok(())
    }

    pub fn ensure_is_created(&self) -> (r: Result<(), VmError>)
        ensures
            *self == VmState::Created ==> r is Ok,
            *self != VmState::Created ==> r == Err::<(), VmError>(
                VmError::VmState { current: *self },
            ),
    {
        self.ensure_is(VmState::Created)
    }

    pub fn ensure_is_running(&self) -> (r: Result<(), VmError>)
        ensures
            *self == VmState::Running ==> r is Ok,
            *self != VmState::Running ==> r == Err::<(), VmError>(
                VmError::VmState { current: *self },
            ),
    {
        self.ensure_is(VmState::Running)
    }

    pub fn ensure_is_paused(&self) -> (r: Result<(), VmError>)
        ensures
            *self == VmState::Paused ==> r is Ok,
            *self != VmState::Paused ==> r == Err::<(), VmError>(
                VmError::VmState { current: *self },
            ),
    {
        self.ensure_is(VmState::Paused)
    }

    pub fn ensure_is_not_running(&self) -> (r: Result<(), VmError>)
        ensures
            *self != VmState::Running ==> r is Ok,
            *self == VmState::Running ==> r == Err::<(), VmError>(
                VmError::VmState { current: *self },
            ),
    {
        self.ensure_is_not(VmState::Running)
    }
}

} // verus!
