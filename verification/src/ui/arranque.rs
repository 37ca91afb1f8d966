use vstd::prelude::*;
use crate::hardware::pantalla::{Pantalla, Tamano, LINEA};
use crate::ui::{cabecera, separador_spec, titulo_spec};

verus! {

/// Estado de un paso del arranque, como se ve en pantalla.
#[derive(Clone, Copy, PartialEq, Eq, Structural, Debug)]
pub enum Estado {
    Pendiente,
    EnCurso,
    Correcto,
    Fallo,
}

impl Default for Estado {
    fn default() -> (r: Estado)
        ensures
            r == Estado::Pendiente,
    {
        Estado::Pendiente
    }
}

/// Como se ve cada estado al lado de su etiqueta.
pub open spec fn texto_spec(estado: Estado) -> Seq<char> {
    match estado {
        Estado::Pendiente => ""@,
        Estado::EnCurso => "..."@,
        Estado::Correcto => "OK"@,
        Estado::Fallo => "FALLO"@,
    }
}

impl Estado {
    pub fn texto(self) -> (r: &'static str)
        ensures
            r@ == texto_spec(self),
    {
        match self {
            Estado::Pendiente => "",
            Estado::EnCurso => "...",
            Estado::Correcto => "OK",
            Estado::Fallo => "FALLO",
        }
    }
}

/// Progreso del arranque: se actualiza paso a paso y se llama a `mostrar`.
#[derive(Clone, Copy, PartialEq, Eq, Structural, Debug)]
pub struct Arranque {
    pub wifi: Estado,
    pub servidor: Estado,
}

impl Default for Arranque {
    fn default() -> (r: Arranque)
        ensures
            r == (Arranque { wifi: Estado::Pendiente, servidor: Estado::Pendiente }),
    {
        Arranque { wifi: Estado::Pendiente, servidor: Estado::Pendiente }
    }
}

/// Las lineas de la pantalla de progreso.
pub open spec fn lineas_arranque(a: Arranque) -> Seq<Seq<char>> {
    seq![
        titulo_spec(),
        separador_spec(),
        "WiFi        "@ + texto_spec(a.wifi),
        "Servidor    "@ + texto_spec(a.servidor),
    ]
}

impl Arranque {
    /// Progreso del arranque, se redibuja en cada paso:
    ///
    ///   AgroFenix     v0.1.0
    ///   --------------------
    ///   WiFi        OK
    ///   Servidor    ...
    pub fn mostrar(&self, pantalla: &mut Pantalla)
        ensures
            final(pantalla).vista() == Seq::new(4, |k: int| (lineas_arranque(*self)[k], Tamano::Normal, LINEA * k)),
    {
        let cab = cabecera();
        let titulo = &cab[0];
        let separador = &cab[1];
        let mut wifi = String::from_str("WiFi        ");
        wifi.append(self.wifi.texto());
        let mut servidor = String::from_str("Servidor    ");
        servidor.append(self.servidor.texto());
        let lineas: Vec<&str> = vec![titulo.as_str(), separador.as_str(), wifi.as_str(), servidor.as_str()];
        pantalla.texto(lineas.as_slice());
        proof {
            let l = lineas_arranque(*self);
            assert(Seq::new(4, |k: int| (lineas@[k]@, Tamano::Normal, LINEA * k))
                =~= Seq::new(4, |k: int| (l[k], Tamano::Normal, LINEA * k)));
        }
    }
}

} // verus!
