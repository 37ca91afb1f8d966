//! Lector NFC: cuando una tarjeta leida cuenta como nueva.

use vstd::prelude::*;
use crate::cadena::{hex_mayusculas, hex_spec};

verus! {

/// La misma tarjeta quieta sobre la antena no se reporta de nuevo dentro de
/// este plazo, en milisegundos.
pub const REBOTE_MS: u64 = 3000;

/// Milisegundos desde `antes` hasta `ahora`; cero si `ahora` es anterior.
pub open spec fn transcurrido(ahora: int, antes: int) -> int {
    if ahora >= antes { ahora - antes } else { 0 }
}

/// Si la tarjeta `uid` leida en `ahora` se reporta, dada la ultima tarjeta
/// vista: no se reporta si es la misma y no pasaron `REBOTE_MS` desde que se
/// la vio por ultima vez.
pub open spec fn se_reporta(ultimo: Option<(Seq<char>, int)>, uid: Seq<char>, ahora: int) -> bool {
    match ultimo {
        Some((anterior, cuando)) => !(anterior == uid && transcurrido(ahora, cuando) < REBOTE_MS),
        None => true,
    }
}

/// Una tarjeta distinta de la ultima siempre se reporta; la misma se
/// reporta solo si paso el plazo de rebote desde la ultima vez que se la vio.
pub proof fn lema_rebote(ultimo: Option<(Seq<char>, int)>, uid: Seq<char>, ahora: int)
    ensures
        ultimo is None ==> se_reporta(ultimo, uid, ahora),
        ultimo matches Some((anterior, _)) ==> (anterior != uid ==> se_reporta(ultimo, uid, ahora)),
        ultimo matches Some((anterior, cuando)) ==> (anterior == uid ==>
            (se_reporta(ultimo, uid, ahora) <==> transcurrido(ahora, cuando) >= REBOTE_MS)),
{
}

/// El tiempo del rebote es el reloj real: la misma tarjeta leida al menos
/// `REBOTE_MS` despues de la ultima vez se reporta siempre, por largo que
/// haya sido el intervalo; leida antes de eso (y no antes de la ultima vez)
/// no se reporta.
pub proof fn lema_rebote_reloj(uid: Seq<char>, cuando: int, ahora: int)
    ensures
        ahora >= cuando ==> transcurrido(ahora, cuando) == ahora - cuando,
        ahora >= cuando + REBOTE_MS ==> se_reporta(Some((uid, cuando)), uid, ahora),
        cuando <= ahora < cuando + REBOTE_MS ==> !se_reporta(Some((uid, cuando)), uid, ahora),
        forall|otra: Seq<char>| otra != uid ==> #[trigger] se_reporta(Some((otra, cuando)), uid, ahora),
{
}

/// El lector de tarjetas: si hay lector y cual fue la ultima tarjeta vista
/// y cuando.
pub struct LectorNfc {
    disponible: bool,
    ultimo: Option<(String, u64)>,
}

impl LectorNfc {
    pub closed spec fn hay_lector(&self) -> bool {
        self.disponible
    }

    /// La ultima tarjeta vista (su UID en hexadecimal) y en que milisegundo.
    pub closed spec fn ultimo(&self) -> Option<(Seq<char>, int)> {
        match self.ultimo {
            Some((uid, cuando)) => Some((uid@, cuando as int)),
            None => None,
        }
    }

    /// Nunca falla: sin lector, `leer_uid` devuelve siempre `None` y la
    /// bascula sigue.
    pub fn new(disponible: bool) -> (r: LectorNfc)
        ensures
            r.hay_lector() == disponible,
            r.ultimo() is None,
    {
        LectorNfc { disponible, ultimo: None }
    }

    pub fn disponible(&self) -> (r: bool)
        ensures
            r == self.hay_lector(),
    {
        self.disponible
    }

    /// `tarjeta` es el UID de la tarjeta seleccionada en este momento, si
    /// alguna, y `ahora_ms` el reloj monotonico. Devuelve el UID en
    /// hexadecimal en mayusculas solo cuando hay una tarjeta nueva. Mientras
    /// la misma tarjeta siga encima, cada lectura renueva el plazo de rebote.
    pub fn leer_uid(&mut self, tarjeta: Option<&[u8]>, ahora_ms: u64) -> (r: Option<String>)
        ensures
            final(self).hay_lector() == old(self).hay_lector(),
            match tarjeta {
                Some(bytes) if old(self).hay_lector() => {
                    let uid = hex_spec(bytes@, true);
                    &&& final(self).ultimo() == Some((uid, ahora_ms as int))
                    &&& (old(self).ultimo() matches Some((anterior, cuando))
                        ==> (anterior == uid && ahora_ms < cuando + REBOTE_MS
                            <==> r is None))
                    &&& if se_reporta(old(self).ultimo(), uid, ahora_ms as int) {
                        r is Some && r->Some_0@ == uid
                    } else {
                        r is None
                    }
                },
                _ => r is None && final(self).ultimo() == old(self).ultimo(),
            },
    {
        if !self.disponible {
            return None;
        }
        let bytes = match tarjeta {
            Some(b) => b,
            None => return None,
        };
        let uid = hex_mayusculas(bytes);
        let repetida = match &self.ultimo {
            Some((anterior, cuando)) => {
                let pasado: u64 = if ahora_ms >= *cuando { ahora_ms - *cuando } else { 0 };
                *anterior == uid && pasado < REBOTE_MS
            },
            None => false,
        };
        if repetida {
            // refresca mientras siga encima
            self.ultimo = Some((uid, ahora_ms));
            return None;
        }
        self.ultimo = Some((uid.clone(), ahora_ms));
        Some(uid)
    }
}

} // verus!
