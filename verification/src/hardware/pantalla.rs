//! Modelo de la OLED 128x64: las lineas de texto que quedan dibujadas y a
//! que altura. El display fisico solo copia lo que este modelo dice.

use vstd::prelude::*;

verus! {

/// Direccion 7 bits. El silkscreen del modulo dice 0x78: es la misma en 8 bits.
pub const DIRECCION: u8 = 0x3C;
/// Caracteres por linea y lineas por pantalla con FONT_6X10 en 128x64.
pub const COLUMNAS: usize = 21;
pub const FILAS: usize = 6;
/// Caracteres por linea con FONT_10X20: 128 / 10.
pub const COLUMNAS_GRANDES: usize = 12;
/// Alto util del display en pixeles.
pub const ALTO: i32 = 64;
/// Alto de cada fuente, sin aire.
pub const LINEA: i32 = 10;
pub const LINEA_GRANDE: i32 = 20;

/// Tamano de letra de una linea. `Grande` ocupa dos filas normales.
#[derive(Clone, Copy, PartialEq, Eq, Structural, Debug)]
pub enum Tamano {
    Normal,
    Grande,
}

/// Alto en pixeles de una linea escrita con ese tamano.
pub open spec fn alto_de(t: Tamano) -> int {
    match t {
        Tamano::Normal => LINEA as int,
        Tamano::Grande => LINEA_GRANDE as int,
    }
}

impl Tamano {
    pub fn alto(self) -> (r: i32)
        ensures
            r == alto_de(self),
    {
        match self {
            Tamano::Normal => LINEA,
            Tamano::Grande => LINEA_GRANDE,
        }
    }
}

/// Una linea de la vista: el texto y con que letra va.
#[derive(Debug)]
pub struct Linea {
    pub texto: String,
    pub tamano: Tamano,
}

impl View for Linea {
    type V = (Seq<char>, Tamano);

    open spec fn view(&self) -> (Seq<char>, Tamano) {
        (self.texto@, self.tamano)
    }
}

impl Linea {
    pub fn normal(texto: &str) -> (r: Linea)
        ensures
            r@ == (texto@, Tamano::Normal),
    {
        Linea { texto: String::from_str(texto), tamano: Tamano::Normal }
    }

    pub fn grande(texto: &str) -> (r: Linea)
        ensures
            r@ == (texto@, Tamano::Grande),
    {
        Linea { texto: String::from_str(texto), tamano: Tamano::Grande }
    }

    /// Copia de la linea.
    pub fn copiar(&self) -> (r: Linea)
        ensures
            r@ == self@,
    {
        Linea { texto: self.texto.clone(), tamano: self.tamano }
    }
}

/// Una linea ya ubicada en el display: su texto, su letra y la fila de
/// pixeles donde empieza.
#[derive(Debug)]
pub struct Trazo {
    pub texto: String,
    pub tamano: Tamano,
    pub y: i32,
}

impl View for Trazo {
    type V = (Seq<char>, Tamano, int);

    open spec fn view(&self) -> (Seq<char>, Tamano, int) {
        (self.texto@, self.tamano, self.y as int)
    }
}

pub open spec fn vistas_lineas(s: Seq<Linea>) -> Seq<(Seq<char>, Tamano)> {
    s.map_values(|l: Linea| l@)
}

pub open spec fn vistas_trazos(s: Seq<Trazo>) -> Seq<(Seq<char>, Tamano, int)> {
    s.map_values(|t: Trazo| t@)
}

/// Como quedan dispuestas `lineas` si la primera empieza en la fila `y`:
/// de arriba a abajo, cada una debajo de la anterior segun el alto de su
/// letra; la primera que no cabe entera y todas las que le siguen se descartan.
pub open spec fn disposicion(lineas: Seq<(Seq<char>, Tamano)>, y: int) -> Seq<(Seq<char>, Tamano, int)>
    decreases lineas.len(),
{
    if lineas.len() == 0 {
        Seq::empty()
    } else if y + alto_de(lineas[0].1) > ALTO {
        Seq::empty()
    } else {
        seq![(lineas[0].0, lineas[0].1, y)] + disposicion(lineas.drop_first(), y + alto_de(lineas[0].1))
    }
}

/// Lo dibujado nunca se sale del display, respeta el orden y la letra de
/// las lineas pedidas, y cada linea empieza justo donde termina la anterior.
pub proof fn lema_disposicion_cabe(lineas: Seq<(Seq<char>, Tamano)>, y: int)
    requires
        0 <= y,
    ensures
        disposicion(lineas, y).len() <= lineas.len(),
        disposicion(lineas, y).len() > 0 ==> disposicion(lineas, y)[0].2 == y,
        forall|k: int| 0 <= k < disposicion(lineas, y).len() ==> {
            let t = #[trigger] disposicion(lineas, y)[k];
            &&& t.0 == lineas[k].0
            &&& t.1 == lineas[k].1
            &&& 0 <= t.2
            &&& t.2 + alto_de(t.1) <= ALTO
        },
        forall|k: int| 0 <= k < disposicion(lineas, y).len() - 1 ==>
            #[trigger] disposicion(lineas, y)[k + 1].2 == disposicion(lineas, y)[k].2 + alto_de(disposicion(lineas, y)[k].1),
    decreases lineas.len(),
{
    if lineas.len() > 0 && y + alto_de(lineas[0].1) <= ALTO {
        let resto = lineas.drop_first();
        let y2 = y + alto_de(lineas[0].1);
        lema_disposicion_cabe(resto, y2);
        let d = disposicion(lineas, y);
        let dr = disposicion(resto, y2);
        assert(d == seq![(lineas[0].0, lineas[0].1, y)] + dr);
        assert forall|k: int| 0 <= k < d.len() implies {
            let t = #[trigger] d[k];
            &&& t.0 == lineas[k].0
            &&& t.1 == lineas[k].1
            &&& 0 <= t.2
            &&& t.2 + alto_de(t.1) <= ALTO
        } by {
            if k > 0 {
                assert(d[k] == dr[k - 1]);
                assert(resto[k - 1] == lineas[k]);
            }
        }
        assert forall|k: int| 0 <= k < d.len() - 1 implies
            #[trigger] d[k + 1].2 == d[k].2 + alto_de(d[k].1) by {
            assert(d[k + 1] == dr[k]);
            if k > 0 {
                assert(d[k] == dr[k - 1]);
            }
        }
    }
}

/// Las lineas de texto normal de `textos`.
pub open spec fn normales(textos: Seq<&str>) -> Seq<(Seq<char>, Tamano)> {
    textos.map_values(|t: &str| (t@, Tamano::Normal))
}

/// Lineas de letra normal que caben enteras quedan todas, una cada diez
/// pixeles a partir de `y`.
pub proof fn lema_normales_caben(lineas: Seq<(Seq<char>, Tamano)>, y: int)
    requires
        0 <= y,
        y + LINEA * lineas.len() <= ALTO,
        forall|k: int| 0 <= k < lineas.len() ==> (#[trigger] lineas[k]).1 == Tamano::Normal,
    ensures
        disposicion(lineas, y) == Seq::new(lineas.len(), |k: int| (lineas[k].0, Tamano::Normal, y + LINEA * k)),
    decreases lineas.len(),
{
    let esperado = Seq::new(lineas.len(), |k: int| (lineas[k].0, Tamano::Normal, y + LINEA * k));
    if lineas.len() == 0 {
        assert(disposicion(lineas, y) =~= esperado);
    } else {
        let resto = lineas.drop_first();
        assert forall|k: int| 0 <= k < resto.len() implies (#[trigger] resto[k]).1 == Tamano::Normal by {
            assert(resto[k] == lineas[k + 1]);
        }
        assert(lineas[0].1 == Tamano::Normal);
        lema_normales_caben(resto, y + LINEA);
        let d = disposicion(lineas, y);
        assert(d =~= esperado) by {
            assert forall|k: int| 0 <= k < esperado.len() implies #[trigger] d[k] == esperado[k] by {
                if k > 0 {
                    assert(resto[k - 1] == lineas[k]);
                }
            }
        }
    }
}

/// OLED de la bascula: guarda lo que esta dibujado en este momento.
pub struct Pantalla {
    trazos: Vec<Trazo>,
}

impl Pantalla {
    /// Las lineas dibujadas ahora, de arriba a abajo: texto, letra y fila.
    /// El texto va entero; lo que pase del ancho del display no se ve.
    pub closed spec fn vista(&self) -> Seq<(Seq<char>, Tamano, int)> {
        vistas_trazos(self.trazos@)
    }

    /// Pantalla en blanco.
    pub fn new() -> (r: Pantalla)
        ensures
            r.vista() == Seq::<(Seq<char>, Tamano, int)>::empty(),
    {
        let r = Pantalla { trazos: Vec::new() };
        assert(r.vista() =~= Seq::<(Seq<char>, Tamano, int)>::empty());
        r
    }

    /// Lo dibujado, para copiarlo al display.
    pub fn trazos(&self) -> (r: &[Trazo])
        ensures
            vistas_trazos(r@) == self.vista(),
    {
        self.trazos.as_slice()
    }

    /// Borra todo y escribe las lineas de arriba a abajo, avanzando segun el
    /// alto de cada letra. La linea que no quepa entera se descarta, y con
    /// ella todas las que siguen.
    pub fn dibujar(&mut self, lineas: &[Linea])
        ensures
            final(self).vista() == disposicion(vistas_lineas(lineas@), 0),
    {
        let ghost v = vistas_lineas(lineas@);
        let mut trazos: Vec<Trazo> = Vec::new();
        let mut y: i32 = 0;
        let mut i: usize = 0;
        assert(v.skip(0) =~= v);
        assert(vistas_trazos(trazos@) + disposicion(v, 0) =~= disposicion(v, 0));
        while i < lineas.len()
            invariant_except_break
                0 <= y <= ALTO,
                i <= lineas.len(),
                v == vistas_lineas(lineas@),
                disposicion(v, 0) == vistas_trazos(trazos@) + disposicion(v.skip(i as int), y as int),
            ensures
                disposicion(v, 0) == vistas_trazos(trazos@),
            decreases lineas.len() - i,
        {
            let alto = lineas[i].tamano.alto();
            let ghost resto = v.skip(i as int);
            assert(resto[0] == v[i as int]);
            if y + alto > ALTO {
                assert(disposicion(resto, y as int) =~= Seq::<(Seq<char>, Tamano, int)>::empty());
                assert(vistas_trazos(trazos@) + Seq::<(Seq<char>, Tamano, int)>::empty() =~= vistas_trazos(trazos@));
                break;
            }
            let ghost antes = vistas_trazos(trazos@);
            trazos.push(Trazo { texto: lineas[i].texto.clone(), tamano: lineas[i].tamano, y });
            assert(resto.drop_first() =~= v.skip(i + 1));
            assert(vistas_trazos(trazos@) =~= antes + seq![(v[i as int].0, v[i as int].1, y as int)]);
            assert(disposicion(resto, y as int) == seq![(resto[0].0, resto[0].1, y as int)]
                + disposicion(resto.drop_first(), y + alto_de(resto[0].1)));
            y = y + alto;
            i = i + 1;
        }
        if i == lineas.len() {
            assert(v.skip(i as int) =~= Seq::<(Seq<char>, Tamano)>::empty());
            assert(vistas_trazos(trazos@) + Seq::<(Seq<char>, Tamano, int)>::empty() =~= vistas_trazos(trazos@));
        }
        self.trazos = trazos;
    }

    /// Pantalla de solo texto normal, el caso comun: las primeras `FILAS`
    /// lineas, una debajo de la otra; las que sobran se descartan.
    pub fn texto(&mut self, lineas: &[&str])
        ensures
            ({
                let usadas = if lineas@.len() < FILAS { lineas@.len() as int } else { FILAS as int };
                final(self).vista() == Seq::new(usadas as nat, |k: int| (lineas@[k]@, Tamano::Normal, LINEA * k))
            }),
    {
        let usadas: usize = if lineas.len() < FILAS { lineas.len() } else { FILAS };
        let mut vista: Vec<Linea> = Vec::new();
        let mut i: usize = 0;
        while i < usadas
            invariant
                i <= usadas <= lineas.len(),
                usadas <= FILAS,
                vistas_lineas(vista@) == normales(lineas@.take(i as int)),
            decreases usadas - i,
        {
            let ghost antes = vistas_lineas(vista@);
            vista.push(Linea::normal(lineas[i]));
            assert(vistas_lineas(vista@) =~= antes.push((lineas@[i as int]@, Tamano::Normal)));
            assert(normales(lineas@.take(i + 1)) =~= normales(lineas@.take(i as int)).push((lineas@[i as int]@, Tamano::Normal)));
            i = i + 1;
        }
        let ghost n = normales(lineas@.take(usadas as int));
        proof {
            assert forall|k: int| 0 <= k < n.len() implies (#[trigger] n[k]).1 == Tamano::Normal by {}
            lema_normales_caben(n, 0);
        }
        self.dibujar(vista.as_slice());
        proof {
            let d = disposicion(n, 0);
            let esperado = Seq::new(usadas as nat, |k: int| (lineas@[k]@, Tamano::Normal, LINEA * k));
            assert(d =~= esperado);
        }
    }
}

} // verus!
