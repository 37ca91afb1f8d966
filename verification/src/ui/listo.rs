use vstd::prelude::*;
use crate::cadena::al_centro;
use crate::hardware::pantalla::{Pantalla, Tamano, COLUMNAS, LINEA};
use crate::ui::{cabecera, centrar, separador_spec, titulo_spec};

verus! {

/// Las lineas de la pantalla de reposo.
pub open spec fn lineas_listo(device_id: Seq<char>, en_linea: bool) -> Seq<Seq<char>> {
    let estado = if en_linea { "LISTO"@ } else { "SIN SERVIDOR"@ };
    seq![titulo_spec(), separador_spec(), ""@, al_centro(estado, COLUMNAS as nat), ""@, device_id]
}

/// Pantalla de reposo: la bascula esta operativa y espera trabajo.
/// `en_linea` = el servidor respondio al arranque.
pub fn mostrar(pantalla: &mut Pantalla, device_id: &str, en_linea: bool)
    ensures
        final(pantalla).vista() == Seq::new(6, |k: int| (lineas_listo(device_id@, en_linea)[k], Tamano::Normal, LINEA * k)),
{
    let cab = cabecera();
    let titulo = &cab[0];
    let separador = &cab[1];
    let estado = if en_linea { "LISTO" } else { "SIN SERVIDOR" };
    let centrado = centrar(estado, COLUMNAS);
    let lineas: Vec<&str> = vec![titulo.as_str(), separador.as_str(), "", centrado.as_str(), "", device_id];
    pantalla.texto(lineas.as_slice());
    proof {
        let l = lineas_listo(device_id@, en_linea);
        assert(Seq::new(6, |k: int| (lineas@[k]@, Tamano::Normal, LINEA * k))
            =~= Seq::new(6, |k: int| (l[k], Tamano::Normal, LINEA * k)));
    }
}

} // verus!
