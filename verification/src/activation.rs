//! How the application presents itself to the desktop.
use vstd::prelude::*;

verus! {

/// Keeps the application out of the dock on systems that have no dock
/// policy to set: there, nothing is to be done. On macOS the application
/// sets the accessory activation policy through AppKit in place of this call.
pub fn configure_activation_policy() {
}

} // verus!
