//! The identity of the PC being assessed.

use vstd::prelude::*;

verus! {

#[derive(Debug, Clone)]
pub struct DeviceIdentity {
    pub hostname: String,
    pub platform: &'static str,
    pub architecture: &'static str,
    pub manufacturer: String,
    pub model: String,
    pub serial_number: String,
}

} // verus!
