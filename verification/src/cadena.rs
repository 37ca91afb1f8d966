//! Construccion de textos caracter a caracter y las alineaciones que usan
//! las pantallas (`{:<n}`, `{:>n}`, `{:^n}`).

use vstd::prelude::*;

verus! {

/// `n` espacios seguidos.
pub open spec fn espacios(n: nat) -> Seq<char> {
    Seq::new(n, |_i: int| ' ')
}

/// Cuantos espacios faltan para que `largo` caracteres ocupen `ancho` columnas.
pub open spec fn relleno(largo: nat, ancho: nat) -> nat {
    if largo < ancho { (ancho - largo) as nat } else { 0 }
}

/// `{:<ancho}`: el texto a la izquierda, espacios a la derecha.
pub open spec fn a_la_izquierda(s: Seq<char>, ancho: nat) -> Seq<char> {
    s + espacios(relleno(s.len(), ancho))
}

/// `{:>ancho}`: espacios a la izquierda, el texto a la derecha.
pub open spec fn a_la_derecha(s: Seq<char>, ancho: nat) -> Seq<char> {
    espacios(relleno(s.len(), ancho)) + s
}

/// `{:^ancho}`: la mitad del relleno a la izquierda (redondeando hacia abajo)
/// y el resto a la derecha.
pub open spec fn al_centro(s: Seq<char>, ancho: nat) -> Seq<char> {
    let r = relleno(s.len(), ancho);
    espacios(r / 2) + s + espacios((r - r / 2) as nat)
}

/// Agrega un caracter al final de `s` (`String::push`).
#[verifier::external_body]
pub(crate) fn agregar_caracter(s: &mut String, c: char)
    ensures
        final(s)@ == old(s)@.push(c),
{
    s.push(c);
}

/// Agrega `n` espacios al final de `s`.
pub fn agregar_espacios(s: &mut String, n: usize)
    ensures
        final(s)@ == old(s)@ + espacios(n as nat),
{
    let ghost inicio = s@;
    let mut i: usize = 0;
    while i < n
        invariant
            i <= n,
            s@ == inicio + espacios(i as nat),
        decreases n - i,
    {
        agregar_caracter(s, ' ');
        i = i + 1;
        assert(s@ =~= inicio + espacios(i as nat));
    }
}

/// `format!("{:<ancho}", texto)`.
pub fn alinear_izquierda(texto: &str, ancho: usize) -> (r: String)
    ensures
        r@ == a_la_izquierda(texto@, ancho as nat),
{
    let largo = texto.unicode_len();
    let mut r = String::from_str(texto);
    let faltan: usize = if largo < ancho { ancho - largo } else { 0 };
    agregar_espacios(&mut r, faltan);
    r
}

/// `format!("{:>ancho}", texto)`.
pub fn alinear_derecha(texto: &str, ancho: usize) -> (r: String)
    ensures
        r@ == a_la_derecha(texto@, ancho as nat),
{
    let largo = texto.unicode_len();
    let faltan: usize = if largo < ancho { ancho - largo } else { 0 };
    let mut r = String::new();
    agregar_espacios(&mut r, faltan);
    r.append(texto);
    assert(r@ =~= a_la_derecha(texto@, ancho as nat));
    r
}

/// `format!("{:^ancho}", texto)`.
pub fn alinear_centro(texto: &str, ancho: usize) -> (r: String)
    ensures
        r@ == al_centro(texto@, ancho as nat),
{
    let largo = texto.unicode_len();
    let faltan: usize = if largo < ancho { ancho - largo } else { 0 };
    let mut r = String::new();
    agregar_espacios(&mut r, faltan / 2);
    r.append(texto);
    agregar_espacios(&mut r, faltan - faltan / 2);
    assert(r@ =~= al_centro(texto@, ancho as nat));
    r
}

/// Digito hexadecimal de `v` (menor que 16), en mayusculas o minusculas.
pub open spec fn digito_hex(v: int, mayusculas: bool) -> char {
    if v < 10 {
        (48 + v) as char
    } else if mayusculas {
        (55 + v) as char
    } else {
        (87 + v) as char
    }
}

/// Cada byte como dos digitos hexadecimales, el alto primero.
pub open spec fn hex_spec(bytes: Seq<u8>, mayusculas: bool) -> Seq<char> {
    Seq::new(
        2 * bytes.len(),
        |i: int|
            if i % 2 == 0 {
                digito_hex(bytes[i / 2] as int / 16, mayusculas)
            } else {
                digito_hex(bytes[i / 2] as int % 16, mayusculas)
            },
    )
}

/// El digito hexadecimal de `v`.
pub fn digito(v: u8, mayusculas: bool) -> (c: char)
    requires
        v < 16,
    ensures
        c == digito_hex(v as int, mayusculas),
{
    if v < 10 {
        (48 + v) as char
    } else if mayusculas {
        (55 + v) as char
    } else {
        (87 + v) as char
    }
}

/// `hex::encode`: cada byte como dos digitos hexadecimales en minusculas.
#[verifier::external_body]
pub(crate) fn hex_minusculas(bytes: &[u8]) -> (r: String)
    ensures
        r@ == hex_spec(bytes@, false),
{
    hex::encode(bytes)
}

/// `hex::encode_upper`: cada byte como dos digitos hexadecimales en mayusculas.
#[verifier::external_body]
pub(crate) fn hex_mayusculas(bytes: &[u8]) -> (r: String)
    ensures
        r@ == hex_spec(bytes@, true),
{
    hex::encode_upper(bytes)
}

/// Un numero en decimal, sin ceros a la izquierda.
pub open spec fn decimal(n: nat) -> Seq<char>
    decreases n,
{
    if n < 10 {
        seq![digito_hex(n as int, false)]
    } else {
        decimal(n / 10).push(digito_hex((n % 10) as int, false))
    }
}

/// Agrega `n` en decimal al final de `s`.
pub fn agregar_decimal(s: &mut String, n: u64)
    ensures
        final(s)@ == old(s)@ + decimal(n as nat),
    decreases n,
{
    let ghost inicio = s@;
    if n >= 10 {
        agregar_decimal(s, n / 10);
    }
    agregar_caracter(s, digito((n % 10) as u8, false));
    assert(s@ =~= inicio + decimal(n as nat));
}

/// `n` en decimal (`n.to_string()`).
pub fn a_decimal(n: u64) -> (r: String)
    ensures
        r@ == decimal(n as nat),
{
    let mut r = String::new();
    agregar_decimal(&mut r, n);
    assert(r@ =~= decimal(n as nat));
    r
}

} // verus!
