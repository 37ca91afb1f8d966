//! Que LEDs enciende cada estado de la bascula.

use vstd::prelude::*;
use crate::hardware::leds::{Leds, nivel_spec, CANTIDAD};

verus! {

pub const AZUL: usize = 0;
pub const AMARILLO: usize = 1;
pub const VERDE: usize = 2;
pub const ROJO: usize = 3;

/// Niveles de los pines cuando estan encendidos exactamente los LEDs de
/// `encendidos` y apagados los demas.
pub open spec fn luces(encendidos: Seq<usize>) -> Seq<bool> {
    Seq::new(CANTIDAD as nat, |i: int| nivel_spec(encendidos.contains(i as usize)))
}

/// Cada estado enciende exactamente sus LEDs y apaga los demas: reposo
/// ninguno, canasta el azul, enviando el amarillo, confirmado el verde,
/// pendiente el verde y el amarillo, error el rojo. Los cuatro pines se
/// escriben siempre, asi que nada queda encendido del estado anterior.
pub proof fn lema_luces_de_cada_estado()
    ensures
        luces(seq![]) == seq![nivel_spec(false), nivel_spec(false), nivel_spec(false), nivel_spec(false)],
        luces(seq![AZUL]) == seq![nivel_spec(true), nivel_spec(false), nivel_spec(false), nivel_spec(false)],
        luces(seq![AMARILLO]) == seq![nivel_spec(false), nivel_spec(true), nivel_spec(false), nivel_spec(false)],
        luces(seq![VERDE]) == seq![nivel_spec(false), nivel_spec(false), nivel_spec(true), nivel_spec(false)],
        luces(seq![VERDE, AMARILLO]) == seq![nivel_spec(false), nivel_spec(true), nivel_spec(true), nivel_spec(false)],
        luces(seq![ROJO]) == seq![nivel_spec(false), nivel_spec(false), nivel_spec(false), nivel_spec(true)],
{
    let v: Seq<usize> = seq![];
    let a: Seq<usize> = seq![AZUL];
    let m: Seq<usize> = seq![AMARILLO];
    let g: Seq<usize> = seq![VERDE];
    let ga: Seq<usize> = seq![VERDE, AMARILLO];
    let r: Seq<usize> = seq![ROJO];
    assert forall|i: usize| i < CANTIDAD implies
        !v.contains(i)
        && (a.contains(i) <==> i == 0)
        && (m.contains(i) <==> i == 1)
        && (g.contains(i) <==> i == 2)
        && (ga.contains(i) <==> (i == 1 || i == 2))
        && (r.contains(i) <==> i == 3) by {
        if i == 0 { assert(a[0] == i); }
        if i == 1 { assert(m[0] == i); assert(ga[1] == i); }
        if i == 2 { assert(g[0] == i); assert(ga[0] == i); }
        if i == 3 { assert(r[0] == i); }
    }
    assert(luces(v) =~= seq![nivel_spec(false), nivel_spec(false), nivel_spec(false), nivel_spec(false)]);
    assert(luces(a) =~= seq![nivel_spec(true), nivel_spec(false), nivel_spec(false), nivel_spec(false)]);
    assert(luces(m) =~= seq![nivel_spec(false), nivel_spec(true), nivel_spec(false), nivel_spec(false)]);
    assert(luces(g) =~= seq![nivel_spec(false), nivel_spec(false), nivel_spec(true), nivel_spec(false)]);
    assert(luces(ga) =~= seq![nivel_spec(false), nivel_spec(true), nivel_spec(true), nivel_spec(false)]);
    assert(luces(r) =~= seq![nivel_spec(false), nivel_spec(false), nivel_spec(false), nivel_spec(true)]);
}

/// El semaforo de la bascula. Sin modulo de LEDs todos los estados son
/// no-op.
pub struct Semaforo {
    leds: Option<Leds>,
}

fn contiene(lista: &[usize], x: usize) -> (r: bool)
    ensures
        r == lista@.contains(x),
{
    let mut i: usize = 0;
    while i < lista.len()
        invariant
            i <= lista.len(),
            forall|j: int| 0 <= j < i ==> lista@[j] != x,
        decreases lista.len() - i,
    {
        if lista[i] == x {
            return true;
        }
        i = i + 1;
    }
    false
}

impl Semaforo {
    /// Niveles de los pines, o `None` si no hay modulo de LEDs.
    pub closed spec fn niveles(&self) -> Option<Seq<bool>> {
        match self.leds {
            Some(l) => Some(l.niveles()),
            None => None,
        }
    }

    /// Arranca en reposo: todo apagado.
    pub fn new(leds: Option<Leds>) -> (r: Semaforo)
        ensures
            r.niveles() == (if leds is Some { Some(luces(seq![])) } else { None::<Seq<bool>> }),
    {
        let mut s = Semaforo { leds };
        s.reposo();
        s
    }

    /// Los LEDs, para llevar sus niveles al hardware.
    pub fn leds(&self) -> (r: Option<&Leds>)
        ensures
            r is Some <==> self.niveles() is Some,
            r is Some ==> Some(r->Some_0.niveles()) == self.niveles(),
    {
        match &self.leds {
            Some(l) => Some(l),
            None => None,
        }
    }

    /// Apaga todo y enciende solo los indicados. Es la unica funcion que toca
    /// los pines: asi ningun estado deja un LED olvidado del estado anterior.
    fn solo(&mut self, encendidos: &[usize])
        ensures
            final(self).niveles() == (if old(self).niveles() is Some { Some(luces(encendidos@)) } else { None::<Seq<bool>> }),
    {
        match &mut self.leds {
            None => {},
            Some(leds) => {
                let n = leds.cantidad();
                let mut i: usize = 0;
                while i < n
                    invariant
                        n == CANTIDAD,
                        i <= CANTIDAD,
                        leds.niveles().len() == CANTIDAD,
                        forall|j: int| 0 <= j < i ==> leds.niveles()[j] == luces(encendidos@)[j],
                    decreases CANTIDAD - i,
                {
                    let encendido = contiene(encendidos, i);
                    leds.poner(i, encendido);
                    i = i + 1;
                }
                assert(leds.niveles() =~= luces(encendidos@));
            },
        }
    }

    pub fn reposo(&mut self)
        ensures
            final(self).niveles() == (if old(self).niveles() is Some { Some(luces(seq![])) } else { None::<Seq<bool>> }),
    {
        let v: Vec<usize> = Vec::new();
        self.solo(v.as_slice());
        assert(v@ =~= seq![]);
    }

    pub fn canasta(&mut self)
        ensures
            final(self).niveles() == (if old(self).niveles() is Some { Some(luces(seq![AZUL])) } else { None::<Seq<bool>> }),
    {
        let v: Vec<usize> = vec![AZUL];
        self.solo(v.as_slice());
        assert(v@ =~= seq![AZUL]);
    }

    pub fn enviando(&mut self)
        ensures
            final(self).niveles() == (if old(self).niveles() is Some { Some(luces(seq![AMARILLO])) } else { None::<Seq<bool>> }),
    {
        let v: Vec<usize> = vec![AMARILLO];
        self.solo(v.as_slice());
        assert(v@ =~= seq![AMARILLO]);
    }

    pub fn confirmado(&mut self)
        ensures
            final(self).niveles() == (if old(self).niveles() is Some { Some(luces(seq![VERDE])) } else { None::<Seq<bool>> }),
    {
        let v: Vec<usize> = vec![VERDE];
        self.solo(v.as_slice());
        assert(v@ =~= seq![VERDE]);
    }

    pub fn pendiente(&mut self)
        ensures
            final(self).niveles() == (if old(self).niveles() is Some { Some(luces(seq![VERDE, AMARILLO])) } else { None::<Seq<bool>> }),
    {
        let v: Vec<usize> = vec![VERDE, AMARILLO];
        self.solo(v.as_slice());
        assert(v@ =~= seq![VERDE, AMARILLO]);
    }

    pub fn error(&mut self)
        ensures
            final(self).niveles() == (if old(self).niveles() is Some { Some(luces(seq![ROJO])) } else { None::<Seq<bool>> }),
    {
        let v: Vec<usize> = vec![ROJO];
        self.solo(v.as_slice());
        assert(v@ =~= seq![ROJO]);
    }
}

} // verus!
