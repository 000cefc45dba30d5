//! Putting a device to sleep, waking it, and saving and loading its state.

use vstd::prelude::*;

verus! {

/// A saved device state. The library carries it and never looks inside.
#[verifier::external_type_specification]
#[verifier::external_body]
pub struct ExValue(serde_json::Value);

/// Whether a device runs or sleeps.
#[derive(Clone, Copy, Debug, PartialEq, Eq, Structural)]
pub enum DeviceState {
    Awake,
    Sleep,
}

/// The text that says that a device does not offer `operation`.
pub open spec fn spec_not_implemented(operation: Seq<char>) -> Seq<char> {
    "Suspendable::"@ + operation + " not implemented"@
}

/// The text that says that a device does not offer `operation`.
pub fn not_implemented(operation: &str) -> (text: String)
    ensures
        text@ == spec_not_implemented(operation@),
{
    let mut text = "Suspendable::".to_owned();
    text.push_str(operation);
    text.push_str(" not implemented");
    assert(text@ =~= spec_not_implemented(operation@));
    text
}

/// What a device offers so that the machine can be suspended and resumed.
/// Each operation either succeeds or says in words why it did not. A device
/// that does not say how it does an operation does not offer it: the
/// operation fails and says so.
pub trait Suspendable {
    /// Saves the state of the device.
    fn snapshot(&mut self) -> (result: Result<serde_json::Value, String>)
        default_ensures
            result matches Err(e) && e@ == spec_not_implemented("snapshot"@),
    {
        Err(not_implemented("snapshot"))
    }

    /// Loads a state that `snapshot` saved.
    fn restore(&mut self, data: serde_json::Value) -> (result: Result<(), String>)
        default_ensures
            result matches Err(e) && e@ == spec_not_implemented("restore"@),
    {
        Err(not_implemented("restore"))
    }

    /// Stops the device's work. Sleeping a sleeping device is allowed.
    fn sleep(&mut self) -> (result: Result<(), String>)
        default_ensures
            result matches Err(e) && e@ == spec_not_implemented("sleep"@),
    {
        Err(not_implemented("sleep"))
    }

    /// Resumes the device's work. Waking a device that is awake is allowed.
    fn wake(&mut self) -> (result: Result<(), String>)
        default_ensures
            result matches Err(e) && e@ == spec_not_implemented("wake"@),
    {
        Err(not_implemented("wake"))
    }
}

} // verus!
