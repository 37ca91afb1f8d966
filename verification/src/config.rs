use vstd::prelude::*;

verus! {

/// Version del firmware que se muestra en la cabecera y se reporta al servidor.
pub const VERSION_FIRMWARE: &'static str = "0.1.0";

} // verus!
