//! Encendido de la bascula: el progreso de cada paso tal como se ve en
//! pantalla, y el aviso de arranque que se manda al servidor.

use vstd::prelude::*;
use crate::cadena::{agregar_caracter, digito, digito_hex};
use crate::config::VERSION_FIRMWARE;
use crate::mensajes;

verus! {

/// Estado de un paso del arranque, como se ve en pantalla.
#[derive(Clone, Copy, PartialEq, Eq, Structural, Debug)]
pub enum Estado {
    Pendiente,
    EnCurso,
    Correcto,
    Fallo,
}

impl Default for Estado {
    fn default() -> (r: Estado)
        ensures
            r == Estado::Pendiente,
    {
        Estado::Pendiente
    }
}

/// Progreso del arranque. Se actualiza paso a paso y se manda a dibujar;
/// como se ve cada estado lo decide `ui::pantallas`.
#[derive(Clone, Copy, PartialEq, Eq, Structural, Debug)]
pub struct Arranque {
    pub nfc: Estado,
    pub wifi: Estado,
    pub servidor: Estado,
}

impl Default for Arranque {
    fn default() -> (r: Arranque)
        ensures
            r == (Arranque { nfc: Estado::Pendiente, wifi: Estado::Pendiente, servidor: Estado::Pendiente }),
    {
        Arranque { nfc: Estado::Pendiente, wifi: Estado::Pendiente, servidor: Estado::Pendiente }
    }
}

impl Arranque {
    /// Primer paso: se esta levantando el lector NFC, lo demas espera.
    pub fn comienzo() -> (r: Arranque)
        ensures
            r == (Arranque { nfc: Estado::EnCurso, wifi: Estado::Pendiente, servidor: Estado::Pendiente }),
    {
        Arranque { nfc: Estado::EnCurso, wifi: Estado::Pendiente, servidor: Estado::Pendiente }
    }

    /// El lector NFC quedo listo o no.
    pub fn nfc_listo(&mut self, disponible: bool)
        ensures
            *final(self) == (Arranque { nfc: if disponible { Estado::Correcto } else { Estado::Fallo }, ..*old(self) }),
    {
        self.nfc = if disponible { Estado::Correcto } else { Estado::Fallo };
    }

    /// Empieza la conexion WiFi.
    pub fn wifi_conectando(&mut self)
        ensures
            *final(self) == (Arranque { wifi: Estado::EnCurso, ..*old(self) }),
    {
        self.wifi = Estado::EnCurso;
    }

    /// El WiFi no conecto: la bascula se reinicia despues de mostrarlo.
    pub fn wifi_fallido(&mut self)
        ensures
            *final(self) == (Arranque { wifi: Estado::Fallo, ..*old(self) }),
    {
        self.wifi = Estado::Fallo;
    }

    /// El WiFi conecto y se pasa a avisar al servidor.
    pub fn wifi_conectado(&mut self)
        ensures
            *final(self) == (Arranque { wifi: Estado::Correcto, servidor: Estado::EnCurso, ..*old(self) }),
    {
        self.wifi = Estado::Correcto;
        self.servidor = Estado::EnCurso;
    }

    /// El servidor acepto el aviso de arranque o no.
    pub fn servidor_respondio(&mut self, aceptado: bool)
        ensures
            *final(self) == (Arranque { servidor: if aceptado { Estado::Correcto } else { Estado::Fallo }, ..*old(self) }),
    {
        self.servidor = if aceptado { Estado::Correcto } else { Estado::Fallo };
    }

    /// La bascula esta en linea si y solo si el servidor respondio al arranque.
    pub fn en_linea(&self) -> (r: bool)
        ensures
            r == (self.servidor == Estado::Correcto),
    {
        self.servidor == Estado::Correcto
    }
}

/// La MAC como seis pares de digitos hexadecimales en minusculas separados
/// por `:` (`aa:bb:cc:dd:ee:ff`).
pub open spec fn mac_spec(mac: Seq<u8>) -> Seq<char> {
    Seq::new(
        17,
        |i: int|
            if i % 3 == 2 {
                ':'
            } else if i % 3 == 0 {
                digito_hex(mac[i / 3] as int / 16, false)
            } else {
                digito_hex(mac[i / 3] as int % 16, false)
            },
    )
}

/// El identificador de la bascula: su MAC de estacion WiFi.
pub fn identificador(mac: [u8; 6]) -> (r: String)
    ensures
        r@ == mac_spec(mac@),
{
    let mut r = String::new();
    let mut k: usize = 0;
    while k < 6
        invariant
            k <= 6,
            r@ == mac_spec(mac@).take(if k == 0 { 0 } else { 3 * k - 1 }),
        decreases 6 - k,
    {
        let ghost antes = r@;
        if k > 0 {
            agregar_caracter(&mut r, ':');
        }
        let b = mac[k];
        agregar_caracter(&mut r, digito(b / 16, false));
        agregar_caracter(&mut r, digito(b % 16, false));
        k = k + 1;
        assert(r@ =~= mac_spec(mac@).take(3 * k - 1));
    }
    assert(r@ =~= mac_spec(mac@));
    r
}

/// El aviso de arranque: sin MAC se usa la de ceros y sin contador de
/// sesiones se reporta la sesion 0.
pub fn mensaje_arranque(mac: Option<[u8; 6]>, sesion: Option<i64>, ancla_us: i64) -> (m: mensajes::Arranque)
    ensures
        m.device_id@ == mac_spec(match mac { Some(x) => x@, None => seq![0u8, 0, 0, 0, 0, 0] }),
        m.sesion_arranque == match sesion { Some(s) => s, None => 0 },
        m.monotonico_ancla_us == ancla_us,
        m.version_firmware == VERSION_FIRMWARE,
{
    let mac = match mac {
        Some(x) => x,
        None => [0u8; 6],
    };
    let sesion_arranque = match sesion {
        Some(s) => s,
        None => 0,
    };
    mensajes::Arranque {
        device_id: identificador(mac),
        sesion_arranque,
        monotonico_ancla_us: ancla_us,
        version_firmware: VERSION_FIRMWARE,
    }
}

} // verus!
