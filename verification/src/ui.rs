//! Textos comunes a todas las pantallas.

pub mod arranque;
pub mod listo;
pub mod pantallas;
pub mod semaforo;

use vstd::prelude::*;
use crate::cadena::{a_la_derecha, a_la_izquierda, al_centro, alinear_centro, alinear_derecha, alinear_izquierda};
use crate::config::VERSION_FIRMWARE;

verus! {

/// Ancho de la version en la cabecera (`{:>10}`).
pub const ANCHO_VERSION: usize = 10;
/// Ancho de la etiqueta de un campo (`{:<12}`).
pub const ANCHO_ETIQUETA: usize = 12;
/// Largo de la linea separadora.
pub const ANCHO_SEPARADOR: usize = 20;

/// Titulo de toda pantalla: `AgroFenix` y la version alineada a la derecha.
pub open spec fn titulo_spec() -> Seq<char> {
    "AgroFenix "@ + a_la_derecha("v"@ + VERSION_FIRMWARE@, ANCHO_VERSION as nat)
}

/// Linea separadora: veinte guiones.
pub open spec fn separador_spec() -> Seq<char> {
    Seq::new(ANCHO_SEPARADOR as nat, |_i: int| '-')
}

/// Una etiqueta alineada en doce columnas seguida de su valor.
pub open spec fn campo_spec(etiqueta: Seq<char>, valor: Seq<char>) -> Seq<char> {
    a_la_izquierda(etiqueta, ANCHO_ETIQUETA as nat) + valor
}

/// Primera y segunda linea de toda pantalla.
pub fn cabecera() -> (r: [String; 2])
    ensures
        r[0]@ == titulo_spec(),
        r[1]@ == separador_spec(),
{
    let mut version = String::from_str("v");
    version.append(VERSION_FIRMWARE);
    let mut titulo = String::from_str("AgroFenix ");
    let derecha = alinear_derecha(version.as_str(), ANCHO_VERSION);
    titulo.append(derecha.as_str());
    let mut separador = String::new();
    let mut i: usize = 0;
    while i < ANCHO_SEPARADOR
        invariant
            i <= ANCHO_SEPARADOR,
            separador@ =~= Seq::new(i as nat, |_j: int| '-'),
        decreases ANCHO_SEPARADOR - i,
    {
        crate::cadena::agregar_caracter(&mut separador, '-');
        i = i + 1;
    }
    [titulo, separador]
}

/// Una etiqueta y su valor: la etiqueta ocupa siempre doce columnas, asi los
/// valores quedan alineados uno debajo del otro.
pub fn campo(etiqueta: &str, valor: &str) -> (r: String)
    ensures
        r@ == campo_spec(etiqueta@, valor@),
{
    let mut r = alinear_izquierda(etiqueta, ANCHO_ETIQUETA);
    r.append(valor);
    r
}

/// Centra `texto` en `ancho` columnas; si no cabe se deja tal cual.
pub fn centrar(texto: &str, ancho: usize) -> (r: String)
    ensures
        r@ == al_centro(texto@, ancho as nat),
{
    alinear_centro(texto, ancho)
}

} // verus!
