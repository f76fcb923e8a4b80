//! The platform's default-device pointers, and the errors its calls report.
//!
//! The platform audio subsystem is an external resource reached through a
//! narrow interface: read the current default endpoint of a scope, or
//! overwrite it with one atomic property write. This module models that
//! resource as a pair of device ids, so that the effect of a write — and the
//! restoration guarantee built on it — can be stated and proved.

use vstd::prelude::*;

verus! {

/// The role a default-device pointer addresses: capture (input) or
/// playback (output).
#[derive(Clone, Copy, PartialEq, Eq, Structural, Debug)]
pub enum Scope {
    Input,
    Output,
}

/// A default-device property write was rejected; carries the raw platform
/// status code. Fatal for the calling path: a rejected write is treated as a
/// non-transient condition and is never retried.
#[derive(Clone, Copy, PartialEq, Eq, Structural, Debug)]
pub struct PlatformError {
    pub status: i32,
}

/// A platform query failed during enumeration or while reading a default
/// pointer; carries the id of the object whose query failed and the raw
/// status code. Fatal: no partial registry is ever produced from it.
#[derive(Clone, Copy, PartialEq, Eq, Structural, Debug)]
pub struct PlatformQueryError {
    pub device_id: u32,
    pub status: i32,
}

/// Model of the platform's two system-wide default-device pointers.
#[derive(Clone, Copy, PartialEq, Eq, Structural, Debug)]
pub struct PlatformDefaults {
    pub default_input: u32,
    pub default_output: u32,
}

/// What a successful default-device write leaves behind: the pointer of the
/// addressed scope holds `id`, the other pointer is untouched.
pub open spec fn spec_set_default(s: PlatformDefaults, scope: Scope, id: u32) -> PlatformDefaults {
    match scope {
        Scope::Input => PlatformDefaults { default_input: id, default_output: s.default_output },
        Scope::Output => PlatformDefaults { default_input: s.default_input, default_output: id },
    }
}

impl PlatformDefaults {
    /// Executable counterpart of `spec_set_default`: the state after a
    /// successful write of `id` into the pointer of `scope`.
    pub fn set_default(self, scope: Scope, id: u32) -> (r: PlatformDefaults)
        ensures
            r == spec_set_default(self, scope, id),
    {
        match scope {
            Scope::Input => PlatformDefaults { default_input: id, default_output: self.default_output },
            Scope::Output => PlatformDefaults { default_input: self.default_input, default_output: id },
        }
    }
}

/// Maps the raw status code of a default-device write to the outcome of the
/// operation: zero is success, anything else rejects the write with that code.
pub fn interpret_write_status(status: i32) -> (r: Result<(), PlatformError>)
    ensures
        status == 0 ==> r is Ok,
        status != 0 ==> r == Err::<(), PlatformError>(PlatformError { status }),
{
    if status == 0 {
        Ok(())
    } else {
        Err(PlatformError { status })
    }
}

/// Writing the same `(scope, id)` twice leaves the platform state exactly as
/// one write does: the mutation has no side effect beyond the pointer itself.
pub proof fn lemma_set_default_idempotent(s: PlatformDefaults, scope: Scope, id: u32)
    ensures
        spec_set_default(spec_set_default(s, scope, id), scope, id) == spec_set_default(s, scope, id),
{
}

} // verus!
