//! Catalogo de pantallas: una funcion por vista, todas con la misma cabecera.
//!
//! Es dueno de `Pantalla` igual que `Semaforo` lo es de `Leds`, y no guarda
//! estado de negocio: dibuja lo que le pasan. El estado vive en quien maneja
//! el flujo (el arranque o `Pesaje`).

use vstd::prelude::*;
use crate::arranque::{Arranque, Estado};
use crate::cadena::{a_la_derecha, al_centro, alinear_derecha, espacios};
use crate::hardware::pantalla::{
    disposicion, lema_normales_caben, vistas_lineas, Linea, Pantalla, Tamano,
    COLUMNAS, COLUMNAS_GRANDES, FILAS, LINEA,
};
use crate::ui::{cabecera, campo, campo_spec, centrar, separador_spec, titulo_spec};

verus! {

/// Ancho del peso antes de agregarle la unidad (`{:>6.1}`).
pub const ANCHO_PESO: usize = 6;

/// Las dos lineas de la cabecera.
pub open spec fn cabecera_lineas() -> Seq<(Seq<char>, Tamano)> {
    seq![(titulo_spec(), Tamano::Normal), (separador_spec(), Tamano::Normal)]
}

/// Lo que queda en la pantalla al pintar `cuerpo`: la cabecera y las lineas
/// del cuerpo que quepan en las filas que quedan.
pub open spec fn pintado(cuerpo: Seq<(Seq<char>, Tamano)>) -> Seq<(Seq<char>, Tamano, int)> {
    let n = if cuerpo.len() < FILAS - 2 { cuerpo.len() as int } else { FILAS - 2 };
    disposicion(cabecera_lineas() + cuerpo.take(n), 0)
}

/// Toda vista empieza con la cabecera: el titulo arriba de todo y el
/// separador debajo, sea cual sea el cuerpo.
pub proof fn lema_cabecera_siempre(cuerpo: Seq<(Seq<char>, Tamano)>)
    ensures
        pintado(cuerpo).len() >= 2,
        pintado(cuerpo)[0] == (titulo_spec(), Tamano::Normal, 0int),
        pintado(cuerpo)[1] == (separador_spec(), Tamano::Normal, LINEA as int),
{
    let n = if cuerpo.len() < FILAS - 2 { cuerpo.len() as int } else { FILAS - 2 };
    let todas = cabecera_lineas() + cuerpo.take(n);
    let d = disposicion(todas, 0);
    let resto = todas.drop_first();
    assert(todas[0] == (titulo_spec(), Tamano::Normal));
    assert(resto[0] == (separador_spec(), Tamano::Normal));
    assert(d == seq![(todas[0].0, todas[0].1, 0int)] + disposicion(resto, LINEA as int));
    assert(disposicion(resto, LINEA as int) == seq![(resto[0].0, resto[0].1, LINEA as int)]
        + disposicion(resto.drop_first(), 2 * LINEA));
}

/// Como se ve cada estado del arranque al lado de su etiqueta.
pub open spec fn marca_spec(estado: Estado) -> Seq<char> {
    match estado {
        Estado::Pendiente => ""@,
        Estado::EnCurso => "..."@,
        Estado::Correcto => "OK"@,
        Estado::Fallo => "FALLO"@,
    }
}

/// Como se ve cada estado del arranque al lado de su etiqueta.
pub fn marca(estado: Estado) -> (r: &'static str)
    ensures
        r@ == marca_spec(estado),
{
    match estado {
        Estado::Pendiente => "",
        Estado::EnCurso => "...",
        Estado::Correcto => "OK",
        Estado::Fallo => "FALLO",
    }
}

/// La linea de un paso del arranque: ninguna mientras el paso este
/// pendiente, su etiqueta y su marca en cuanto empieza.
pub open spec fn linea_paso(etiqueta: Seq<char>, estado: Estado) -> Seq<(Seq<char>, Tamano)> {
    if estado == Estado::Pendiente {
        Seq::empty()
    } else {
        seq![(campo_spec(etiqueta, marca_spec(estado)), Tamano::Normal)]
    }
}

/// El cuerpo de la pantalla de arranque: un campo por paso ya empezado, en
/// el orden del arranque.
pub open spec fn cuerpo_arranque(progreso: Arranque) -> Seq<(Seq<char>, Tamano)> {
    linea_paso("Lector NFC"@, progreso.nfc) + linea_paso("WiFi"@, progreso.wifi)
        + linea_paso("Servidor"@, progreso.servidor)
}

/// Cada estado de un paso se ve distinto al lado de su etiqueta, y un paso
/// en curso o terminado siempre muestra alguna marca.
pub proof fn lema_marcas_distintas(a: Estado, b: Estado)
    ensures
        a != b ==> marca_spec(a) != marca_spec(b),
        a != Estado::Pendiente ==> marca_spec(a).len() > 0,
{
    reveal_strlit("");
    reveal_strlit("...");
    reveal_strlit("OK");
    reveal_strlit("FALLO");
    if a != b {
        assert(marca_spec(a).len() != marca_spec(b).len());
    }
}

/// La pantalla de arranque tiene una linea por cada paso ya empezado, en el
/// orden NFC, WiFi, servidor, y cada linea lleva la etiqueta de su paso en
/// doce columnas seguida de la marca del estado de ese mismo paso.
pub proof fn lema_lineas_arranque(p: Arranque)
    ensures
        cuerpo_arranque(p).len() == (if p.nfc != Estado::Pendiente { 1int } else { 0 })
            + (if p.wifi != Estado::Pendiente { 1int } else { 0 })
            + (if p.servidor != Estado::Pendiente { 1int } else { 0 }),
        forall|k: int| 0 <= k < cuerpo_arranque(p).len() ==> (#[trigger] cuerpo_arranque(p)[k]).1 == Tamano::Normal,
        p.nfc != Estado::Pendiente ==> cuerpo_arranque(p)[0] == ("Lector NFC  "@ + marca_spec(p.nfc), Tamano::Normal),
        p.wifi != Estado::Pendiente ==> cuerpo_arranque(p)[if p.nfc != Estado::Pendiente { 1int } else { 0 }]
            == ("WiFi        "@ + marca_spec(p.wifi), Tamano::Normal),
        p.servidor != Estado::Pendiente ==> cuerpo_arranque(p).last() == ("Servidor    "@ + marca_spec(p.servidor), Tamano::Normal),
{
    reveal_strlit("Lector NFC");
    reveal_strlit("Lector NFC  ");
    reveal_strlit("WiFi");
    reveal_strlit("WiFi        ");
    reveal_strlit("Servidor");
    reveal_strlit("Servidor    ");
    assert(crate::cadena::a_la_izquierda("Lector NFC"@, 12) =~= "Lector NFC  "@);
    assert(crate::cadena::a_la_izquierda("WiFi"@, 12) =~= "WiFi        "@);
    assert(crate::cadena::a_la_izquierda("Servidor"@, 12) =~= "Servidor    "@);
    let a = linea_paso("Lector NFC"@, p.nfc);
    let b = linea_paso("WiFi"@, p.wifi);
    let c = linea_paso("Servidor"@, p.servidor);
    let t = cuerpo_arranque(p);
    assert(t == a + b + c);
    assert forall|k: int| 0 <= k < t.len() implies (#[trigger] t[k]).1 == Tamano::Normal by {
        if k < a.len() {
            assert(t[k] == a[k]);
        } else if k < a.len() + b.len() {
            assert(t[k] == b[k - a.len()]);
        } else {
            assert(t[k] == c[k - a.len() - b.len()]);
        }
    }
    if p.wifi != Estado::Pendiente {
        assert(t[a.len() as int] == b[0]);
    }
}

/// El texto del peso: el valor (ya con un decimal) alineado en seis
/// columnas y la unidad, o rayas si la bascula no responde.
pub open spec fn texto_peso(kg: Option<Seq<char>>) -> Seq<char> {
    match kg {
        Some(valor) => a_la_derecha(valor, ANCHO_PESO as nat) + " kg"@,
        None => "  ---- kg"@,
    }
}

/// El numero no se corre de columna: todo peso de hasta seis caracteres
/// termina en la misma columna de la linea grande, con la unidad despues.
pub proof fn lema_peso_columna_fija(valor: Seq<char>)
    requires
        valor.len() <= ANCHO_PESO,
    ensures
        al_centro(texto_peso(Some(valor)), COLUMNAS_GRANDES as nat)
            == espacios((ANCHO_PESO + 1 - valor.len()) as nat) + valor + " kg"@ + espacios(2),
{
    reveal_strlit(" kg");
    let t = texto_peso(Some(valor));
    assert(t.len() == 9);
    assert(al_centro(t, COLUMNAS_GRANDES as nat)
        =~= espacios((ANCHO_PESO + 1 - valor.len()) as nat) + valor + " kg"@ + espacios(2));
}

/// El cuerpo de la pantalla de espera.
pub open spec fn cuerpo_espera(kg: Option<Seq<char>>, en_linea: bool) -> Seq<(Seq<char>, Tamano)> {
    seq![
        (al_centro(texto_peso(kg), COLUMNAS_GRANDES as nat), Tamano::Grande),
        (al_centro("ponga la canasta"@, COLUMNAS as nat), Tamano::Normal),
        (if en_linea { Seq::<char>::empty() } else { al_centro("SIN SERVIDOR"@, COLUMNAS as nat) }, Tamano::Normal),
    ]
}

/// La ultima linea de la pantalla de espera queda vacia cuando el servidor
/// respondio y dice `SIN SERVIDOR` centrado cuando no; no depende del peso.
pub proof fn lema_aviso_servidor(kg: Option<Seq<char>>, otro: Option<Seq<char>>, en_linea: bool)
    ensures
        cuerpo_espera(kg, true)[2] == (Seq::<char>::empty(), Tamano::Normal),
        cuerpo_espera(kg, false)[2] == (espacios(4) + "SIN SERVIDOR"@ + espacios(5), Tamano::Normal),
        cuerpo_espera(kg, en_linea)[2] == cuerpo_espera(otro, en_linea)[2],
        cuerpo_espera(kg, en_linea).len() == 3,
{
    reveal_strlit("SIN SERVIDOR");
    assert(al_centro("SIN SERVIDOR"@, COLUMNAS as nat) =~= espacios(4) + "SIN SERVIDOR"@ + espacios(5));
}

/// La pantalla de espera entra entera: cabecera, peso en letra grande y
/// las dos lineas de aviso, una debajo de la otra.
pub proof fn lema_espera_entera(kg: Option<Seq<char>>, en_linea: bool)
    ensures
        ({
            let c = cuerpo_espera(kg, en_linea);
            pintado(c) == seq![
                (titulo_spec(), Tamano::Normal, 0int),
                (separador_spec(), Tamano::Normal, 10int),
                (c[0].0, Tamano::Grande, 20int),
                (c[1].0, Tamano::Normal, 40int),
                (c[2].0, Tamano::Normal, 50int),
            ]
        }),
{
    let c = cuerpo_espera(kg, en_linea);
    let l = cabecera_lineas() + c.take(3);
    assert(c.take(3) =~= c);
    reveal_with_fuel(disposicion, 6);
    let l1 = l.drop_first();
    let l2 = l1.drop_first();
    let l3 = l2.drop_first();
    let l4 = l3.drop_first();
    let l5 = l4.drop_first();
    assert(l5.len() == 0);
    assert(disposicion(l, 0) =~= seq![
        (titulo_spec(), Tamano::Normal, 0int),
        (separador_spec(), Tamano::Normal, 10int),
        (c[0].0, Tamano::Grande, 20int),
        (c[1].0, Tamano::Normal, 40int),
        (c[2].0, Tamano::Normal, 50int),
    ]);
}

pub struct Pantallas {
    pantalla: Pantalla,
}

impl Pantallas {
    /// Las lineas dibujadas ahora en la pantalla (ver `Pantalla::vista`).
    pub closed spec fn vista(&self) -> Seq<(Seq<char>, Tamano, int)> {
        self.pantalla.vista()
    }

    pub fn new(pantalla: Pantalla) -> (r: Pantallas)
        ensures
            r.vista() == pantalla.vista(),
    {
        Pantallas { pantalla }
    }

    /// La pantalla, para copiar lo dibujado al display.
    pub fn pantalla(&self) -> (r: &Pantalla)
        ensures
            r.vista() == self.vista(),
    {
        &self.pantalla
    }

    /// Unica funcion que dibuja: siempre antepone la cabecera, asi ninguna
    /// vista se olvida de ella. El cuerpo son las filas que quedan; la linea
    /// que no quepa entera se descarta.
    fn pintar(&mut self, cuerpo: &[Linea])
        ensures
            final(self).vista() == pintado(vistas_lineas(cuerpo@)),
    {
        let cab = cabecera();
        let titulo = &cab[0];
        let separador = &cab[1];
        let mut vista: Vec<Linea> = Vec::new();
        vista.push(Linea::normal(titulo.as_str()));
        vista.push(Linea::normal(separador.as_str()));
        let n: usize = if cuerpo.len() < FILAS - 2 { cuerpo.len() } else { FILAS - 2 };
        let ghost c = vistas_lineas(cuerpo@);
        assert(vistas_lineas(vista@) =~= cabecera_lineas());
        let mut i: usize = 0;
        while i < n
            invariant
                i <= n <= cuerpo.len(),
                c == vistas_lineas(cuerpo@),
                vistas_lineas(vista@) == cabecera_lineas() + c.take(i as int),
            decreases n - i,
        {
            let ghost antes = vistas_lineas(vista@);
            vista.push(cuerpo[i].copiar());
            assert(vistas_lineas(vista@) =~= antes.push(c[i as int]));
            assert(cabecera_lineas() + c.take(i + 1) =~= (cabecera_lineas() + c.take(i as int)).push(c[i as int]));
            i = i + 1;
        }
        self.pantalla.dibujar(vista.as_slice());
    }

    /// Progreso del arranque, se redibuja en cada paso. Un paso pendiente
    /// todavia no tiene linea:
    ///
    ///   AgroFenix     v0.1.0
    ///   --------------------
    ///   Lector NFC  OK
    ///   WiFi        ...
    pub fn arranque(&mut self, progreso: &Arranque)
        ensures
            ({
                let lineas = cabecera_lineas() + cuerpo_arranque(*progreso);
                final(self).vista() == Seq::new(lineas.len(), |k: int| (lineas[k].0, Tamano::Normal, LINEA * k))
            }),
    {
        let mut cuerpo: Vec<Linea> = Vec::new();
        if progreso.nfc != Estado::Pendiente {
            cuerpo.push(Linea::normal(campo("Lector NFC", marca(progreso.nfc)).as_str()));
        }
        let ghost c1 = vistas_lineas(cuerpo@);
        assert(c1 =~= linea_paso("Lector NFC"@, progreso.nfc));
        if progreso.wifi != Estado::Pendiente {
            cuerpo.push(Linea::normal(campo("WiFi", marca(progreso.wifi)).as_str()));
        }
        let ghost c2 = vistas_lineas(cuerpo@);
        assert(c2 =~= c1 + linea_paso("WiFi"@, progreso.wifi));
        if progreso.servidor != Estado::Pendiente {
            cuerpo.push(Linea::normal(campo("Servidor", marca(progreso.servidor)).as_str()));
        }
        proof {
            let c = vistas_lineas(cuerpo@);
            assert(c =~= c2 + linea_paso("Servidor"@, progreso.servidor));
            assert(c =~= cuerpo_arranque(*progreso));
            assert(c.len() <= 3);
            assert(c.take(c.len() as int) =~= c);
        }
        self.pintar(cuerpo.as_slice());
        proof {
            let lineas = cabecera_lineas() + cuerpo_arranque(*progreso);
            assert forall|k: int| 0 <= k < lineas.len() implies (#[trigger] lineas[k]).1 == Tamano::Normal by {
                if k >= 2 {
                    let c = cuerpo_arranque(*progreso);
                    assert(lineas[k] == c[k - 2]);
                }
            }
            lema_normales_caben(lineas, 0);
            assert(Seq::new(lineas.len(), |k: int| (lineas[k].0, Tamano::Normal, 0 + LINEA * k))
                =~= Seq::new(lineas.len(), |k: int| (lineas[k].0, Tamano::Normal, LINEA * k)));
        }
    }

    /// Operacion normal: la bascula espera carga y muestra el peso en vivo,
    /// pase o no el umbral. `kg` es el peso ya escrito con un decimal; en
    /// `None` es la bascula sin responder, que no es lo mismo que cero. La
    /// ultima linea queda vacia cuando todo esta bien:
    ///
    ///   AgroFenix     v0.1.0
    ///   --------------------
    ///      0.0 kg
    ///    ponga la canasta
    ///    SIN SERVIDOR
    pub fn espera(&mut self, kg: Option<&str>, en_linea: bool)
        ensures
            final(self).vista() == pintado(cuerpo_espera(
                match kg { Some(t) => Some(t@), None => None },
                en_linea,
            )),
            final(self).vista().len() == 5,
            final(self).vista()[4] == (if en_linea { Seq::<char>::empty() } else {
                espacios(4) + "SIN SERVIDOR"@ + espacios(5)
            }, Tamano::Normal, 50int),
    {
        // Ancho fijo antes de centrar: asi el numero no se corre una columna
        // al pasar de 9.8 a 10.2.
        let peso = match kg {
            Some(valor) => {
                let mut p = alinear_derecha(valor, ANCHO_PESO);
                p.append(" kg");
                p
            },
            None => String::from_str("  ---- kg"),
        };
        let peso = centrar(peso.as_str(), COLUMNAS_GRANDES);
        let aviso = centrar("ponga la canasta", COLUMNAS);
        let estado = if en_linea { String::new() } else { centrar("SIN SERVIDOR", COLUMNAS) };
        let cuerpo = vec![Linea::grande(peso.as_str()), Linea::normal(aviso.as_str()), Linea::normal(estado.as_str())];
        self.pintar(cuerpo.as_slice());
        proof {
            let kv = match kg { Some(t) => Some(t@), None => None };
            assert(vistas_lineas(cuerpo@) =~= cuerpo_espera(kv, en_linea));
            lema_espera_entera(kv, en_linea);
            lema_aviso_servidor(kv, kv, en_linea);
        }
    }
}

} // verus!
