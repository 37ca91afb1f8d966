//! El ciclo de pesaje: en que fase esta la bascula y como se ve cada una.

use vstd::prelude::*;
use crate::ui::pantallas::{cuerpo_espera, pintado, Pantallas};
use crate::ui::semaforo::{luces, Semaforo};

verus! {

#[derive(Clone, Copy, PartialEq, Eq, Structural, Debug)]
pub enum Fase {
    Reposo,
}

pub struct Pesaje {
    fase: Fase,
}

impl Pesaje {
    pub closed spec fn fase(&self) -> Fase {
        self.fase
    }

    pub fn new() -> (r: Pesaje)
        ensures
            r.fase() == Fase::Reposo,
    {
        Pesaje { fase: Fase::Reposo }
    }

    /// Unico lugar que toca semaforo y pantalla: al entrar en una fase deja
    /// los LEDs y la pantalla como corresponde a esa fase. En reposo los LEDs
    /// quedan apagados y la pantalla espera la canasta con el peso
    /// desconocido.
    pub fn entrar(&mut self, nueva: Fase, semaforo: &mut Semaforo, pantallas: &mut Pantallas, en_linea: bool)
        ensures
            final(self).fase() == nueva,
            nueva == Fase::Reposo ==> {
                &&& final(semaforo).niveles() == (if old(semaforo).niveles() is Some {
                    Some(luces(seq![]))
                } else {
                    None::<Seq<bool>>
                })
                &&& final(pantallas).vista() == pintado(cuerpo_espera(None, en_linea))
            },
    {
        match nueva {
            Fase::Reposo => {
                semaforo.reposo();
                // Sin lectura de la bascula todavia: el peso se muestra como desconocido.
                pantallas.espera(None, en_linea);
            },
        }
        self.fase = nueva;
    }
}

} // verus!
