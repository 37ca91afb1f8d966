//! Mensajes que la bascula manda al servidor.

use vstd::prelude::*;

verus! {

/// Aviso de encendido: quien es la bascula, cuantas veces arranco, el reloj
/// monotonico al momento de avisar y la version del firmware.
#[derive(Debug)]
pub struct Arranque {
    pub device_id: String,
    pub sesion_arranque: i64,
    pub monotonico_ancla_us: i64,
    pub version_firmware: &'static str,
}

} // verus!
