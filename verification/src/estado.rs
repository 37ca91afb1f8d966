//! Contador de arranques guardado en la memoria no volatil.

use vstd::prelude::*;

verus! {

/// Espacio de nombres y clave donde se guarda el contador.
pub const NS: &'static str = "bascula";
pub const KEY_ARRANQUES: &'static str = "arranques";

/// La sesion que empieza, dado lo guardado: sin contador es la primera.
pub open spec fn sesion_siguiente(actual: Option<i64>) -> int {
    match actual {
        Some(n) => n + 1,
        None => 1,
    }
}

/// La sesion que empieza es exactamente una mas que la guardada, y la
/// primera es la 1: dos arranques seguidos tienen numeros consecutivos.
pub proof fn lema_sesiones_consecutivas(n: i64)
    requires
        n < i64::MAX,
    ensures
        sesion_siguiente(Some(n)) == n + 1,
        sesion_siguiente(None) == 1,
        n + 1 < i64::MAX ==> sesion_siguiente(Some((n + 1) as i64)) == sesion_siguiente(Some(n)) + 1,
{
}

/// Numero de la sesion que empieza: uno mas que el guardado, o 1 si no
/// habia nada guardado. Cada arranque recibe un numero mayor que el anterior.
pub fn siguiente_sesion(actual: Option<i64>) -> (r: i64)
    requires
        actual != Some(i64::MAX),
    ensures
        r == sesion_siguiente(actual),
        actual matches Some(n) ==> r == n + 1,
        actual is None ==> r == 1,
{
    let actual = match actual {
        Some(n) => n,
        None => 0,
    };
    actual + 1
}

} // verus!
