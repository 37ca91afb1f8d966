//! UART hacia la bascula: que cuenta como eco correcto y como se muestran
//! los bytes crudos.

use vstd::prelude::*;
use crate::cadena::{agregar_caracter, hex_minusculas, hex_spec};

verus! {

/// Baudios de la bascula: 9600 8N1, lo que traen casi todas de fabrica.
pub const BAUDIOS: u32 = 9600;

/// La prueba de lazo pasa si lo recibido es exactamente lo enviado.
pub fn coincide_eco(recibido: &[u8], enviado: &[u8]) -> (r: bool)
    ensures
        r == (recibido@ == enviado@),
{
    if recibido.len() != enviado.len() {
        return false;
    }
    let mut i: usize = 0;
    while i < recibido.len()
        invariant
            recibido.len() == enviado.len(),
            i <= recibido.len(),
            forall|j: int| 0 <= j < i ==> recibido@[j] == enviado@[j],
        decreases recibido.len() - i,
    {
        if recibido[i] != enviado[i] {
            return false;
        }
        i = i + 1;
    }
    assert(recibido@ =~= enviado@);
    true
}

/// Los bytes en hexadecimal en minusculas, dos digitos por byte, como se
/// vuelcan junto al texto.
pub fn hex_crudo(bytes: &[u8]) -> (r: String)
    ensures
        r@ == hex_spec(bytes@, false),
{
    hex_minusculas(bytes)
}

/// Como se ve un byte en el volcado: los imprimibles ASCII (y el espacio)
/// tal cual, el resto como punto.
pub open spec fn visible(b: u8) -> char {
    if 0x20 <= b <= 0x7E { b as char } else { '.' }
}

/// Los bytes como texto legible, uno por caracter.
pub fn ascii_visible(bytes: &[u8]) -> (r: String)
    ensures
        r@ == bytes@.map_values(|b: u8| visible(b)),
{
    let mut r = String::new();
    let mut i: usize = 0;
    while i < bytes.len()
        invariant
            i <= bytes.len(),
            r@ == bytes@.take(i as int).map_values(|b: u8| visible(b)),
        decreases bytes.len() - i,
    {
        let b = bytes[i];
        let c = if 0x20 <= b && b <= 0x7E { b as char } else { '.' };
        agregar_caracter(&mut r, c);
        i = i + 1;
        assert(r@ =~= bytes@.take(i as int).map_values(|b: u8| visible(b)));
    }
    assert(bytes@.take(i as int) =~= bytes@);
    r
}

} // verus!
