//! Los cuatro LEDs del semaforo: en que nivel queda cada pin.

use vstd::prelude::*;

verus! {

/// Si el modulo es anodo comun (enciende con LOW), esto va en `true`.
pub const ANODO_COMUN: bool = true;
/// Cantidad de LEDs del modulo.
pub const CANTIDAD: usize = 4;

/// Nivel del pin (`true` = HIGH) que deja el LED encendido o apagado.
pub open spec fn nivel_spec(encendido: bool) -> bool {
    encendido != ANODO_COMUN
}

/// Nivel del pin que deja el LED encendido o apagado: con anodo comun el
/// LED enciende en LOW.
pub fn nivel(encendido: bool) -> (r: bool)
    ensures
        r == nivel_spec(encendido),
{
    encendido != ANODO_COMUN
}

/// La prueba de arranque de los LEDs: enciende uno a uno, del 0 al 3, y
/// luego los apaga uno a uno en el mismo orden. Cada paso es (LED, encendido).
pub open spec fn pasos_secuencia_spec() -> Seq<(usize, bool)> {
    Seq::new(2 * CANTIDAD as nat, |k: int| if k < CANTIDAD { (k as usize, true) } else { ((k - CANTIDAD) as usize, false) })
}

/// Los niveles que quedan al aplicar `pasos` en orden sobre `niveles`.
pub open spec fn tras_pasos(niveles: Seq<bool>, pasos: Seq<(usize, bool)>) -> Seq<bool>
    decreases pasos.len(),
{
    if pasos.len() == 0 {
        niveles
    } else {
        let ultimo = pasos.last();
        tras_pasos(niveles, pasos.drop_last()).update(ultimo.0 as int, nivel_spec(ultimo.1))
    }
}

/// Los pasos de la prueba de arranque de los LEDs, en orden.
pub fn pasos_secuencia() -> (r: Vec<(usize, bool)>)
    ensures
        r@ == pasos_secuencia_spec(),
{
    let mut r: Vec<(usize, bool)> = Vec::new();
    let mut k: usize = 0;
    while k < 2 * CANTIDAD
        invariant
            k <= 2 * CANTIDAD,
            r@ == pasos_secuencia_spec().take(k as int),
        decreases 2 * CANTIDAD - k,
    {
        if k < CANTIDAD {
            r.push((k, true));
        } else {
            r.push((k - CANTIDAD, false));
        }
        k = k + 1;
        assert(r@ =~= pasos_secuencia_spec().take(k as int));
    }
    assert(r@ =~= pasos_secuencia_spec());
    r
}

/// Sea cual sea el estado de partida, la prueba de arranque deja los cuatro
/// LEDs apagados.
pub proof fn lema_secuencia_termina_apagada(niveles: Seq<bool>)
    requires
        niveles.len() == CANTIDAD,
    ensures
        tras_pasos(niveles, pasos_secuencia_spec()) == seq![nivel_spec(false); 4],
{
    let p = pasos_secuencia_spec();
    reveal_with_fuel(tras_pasos, 9);
    assert(p.drop_last() =~= p.take(7));
    assert(p.take(7).drop_last() =~= p.take(6));
    assert(p.take(6).drop_last() =~= p.take(5));
    assert(p.take(5).drop_last() =~= p.take(4));
    assert(p.take(4).drop_last() =~= p.take(3));
    assert(p.take(3).drop_last() =~= p.take(2));
    assert(p.take(2).drop_last() =~= p.take(1));
    assert(p.take(1).drop_last() =~= p.take(0));
    assert(tras_pasos(niveles, p) =~= seq![nivel_spec(false); 4]);
}

/// Los niveles de los cuatro pines de los LEDs.
pub struct Leds {
    niveles: Vec<bool>,
}

impl Leds {
    #[verifier::type_invariant]
    closed spec fn cuatro(self) -> bool {
        self.niveles@.len() == CANTIDAD
    }

    /// Nivel de cada pin, del LED 0 al 3.
    pub closed spec fn niveles(&self) -> Seq<bool> {
        self.niveles@
    }

    /// Todos los LEDs apagados.
    pub fn new() -> (r: Leds)
        ensures
            r.niveles() == seq![nivel_spec(false); 4],
    {
        let apagado = nivel(false);
        let r = Leds { niveles: vec![apagado, apagado, apagado, apagado] };
        assert(r.niveles() =~= seq![nivel_spec(false); 4]);
        r
    }

    /// Enciende o apaga el LED `i` (de 0 a 3).
    pub fn poner(&mut self, i: usize, encendido: bool)
        requires
            i < CANTIDAD,
        ensures
            final(self).niveles() == old(self).niveles().update(i as int, nivel_spec(encendido)),
    {
        proof { use_type_invariant(&*self); }
        let mut niveles = self.niveles.clone();
        niveles.set(i, nivel(encendido));
        *self = Leds { niveles };
    }

    /// Enciende o apaga los cuatro.
    pub fn todos(&mut self, encendido: bool)
        ensures
            final(self).niveles() == seq![nivel_spec(encendido); 4],
    {
        proof { use_type_invariant(&*self); }
        let mut i: usize = 0;
        while i < CANTIDAD
            invariant
                i <= CANTIDAD,
                self.niveles().len() == CANTIDAD,
                forall|j: int| 0 <= j < i ==> self.niveles()[j] == nivel_spec(encendido),
            decreases CANTIDAD - i,
        {
            proof { use_type_invariant(&*self); }
            self.poner(i, encendido);
            i = i + 1;
        }
        assert(self.niveles() =~= seq![nivel_spec(encendido); 4]);
    }

    /// Cuantos LEDs hay: siempre cuatro.
    pub fn cantidad(&self) -> (n: usize)
        ensures
            n == CANTIDAD,
            self.niveles().len() == CANTIDAD,
    {
        proof { use_type_invariant(self); }
        self.niveles.len()
    }

    /// Nivel del pin del LED `i`, para llevarlo al hardware.
    pub fn nivel_de(&self, i: usize) -> (r: bool)
        requires
            i < CANTIDAD,
        ensures
            r == self.niveles()[i as int],
    {
        proof { use_type_invariant(self); }
        self.niveles[i]
    }
}

} // verus!
