//! Bus I2C: que direcciones se sondean al escanear.

use vstd::prelude::*;

verus! {

/// Primera y ultima direccion 7 bits que se sondean, como `i2cdetect`: las
/// de fuera de este rango estan reservadas.
pub const PRIMERA_DIRECCION: u8 = 0x08;
pub const ULTIMA_DIRECCION: u8 = 0x77;

/// Las direcciones que se sondean, en orden.
pub fn direcciones_a_escanear() -> (r: Vec<u8>)
    ensures
        r@ == Seq::new((ULTIMA_DIRECCION - PRIMERA_DIRECCION + 1) as nat, |i: int| (PRIMERA_DIRECCION + i) as u8),
{
    let mut r: Vec<u8> = Vec::new();
    let mut a: u8 = PRIMERA_DIRECCION;
    while a <= ULTIMA_DIRECCION
        invariant
            PRIMERA_DIRECCION <= a <= ULTIMA_DIRECCION + 1,
            r@ == Seq::new((a - PRIMERA_DIRECCION) as nat, |i: int| (PRIMERA_DIRECCION + i) as u8),
        decreases ULTIMA_DIRECCION + 1 - a,
    {
        r.push(a);
        a = a + 1;
        assert(r@ =~= Seq::new((a - PRIMERA_DIRECCION) as nat, |i: int| (PRIMERA_DIRECCION + i) as u8));
    }
    r
}

} // verus!
