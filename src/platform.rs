//! Errors of the foreground-application lookup.

use vstd::prelude::*;

verus! {

pub enum PlatformError {
    GetActiveApp(String),
    Unsupported,
}

} // verus!
