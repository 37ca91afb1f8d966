//! Lo que el cliente HTTP decide: a que URL va cada peticion, con que
//! cabeceras, y que respuestas cuentan como aceptadas.

use vstd::prelude::*;
use crate::cadena::{a_decimal, decimal};

verus! {

pub const RUTA_ARRANQUE: &'static str = "/dispositivos/arranque";
/// Plazo de cada peticion, en milisegundos.
pub const TIMEOUT_MS: u64 = 10000;

/// Fallos al hablar con el servidor. Los errores del stack HTTP llevan su
/// codigo `esp_err_t`.
#[derive(Debug, PartialEq, Eq, Structural, Clone, Copy)]
pub enum HttpError {
    /// No se pudo crear la conexion (memoria, config invalida).
    Init(i32),
    /// Fallo al abrir el socket o escribir: casi siempre problema de red.
    Envio(i32),
    /// Fallo leyendo la respuesta.
    Respuesta(i32),
    /// El servidor contesto pero con un status fuera de 2xx.
    Servidor(u16),
}

/// El texto de un error. `nombre_error` es el nombre del codigo `esp_err_t`
/// que lleva el error; el error del servidor no lo usa.
pub open spec fn mensaje_spec(e: HttpError, nombre_error: Seq<char>) -> Seq<char> {
    match e {
        HttpError::Init(_) => "fallo al crear el cliente HTTP: "@ + nombre_error,
        HttpError::Envio(_) => "fallo al enviar la petición: "@ + nombre_error,
        HttpError::Respuesta(_) => "fallo al leer la respuesta: "@ + nombre_error,
        HttpError::Servidor(s) => "el servidor respondió "@ + decimal(s as nat),
    }
}

impl HttpError {
    /// El texto del error, para el log.
    pub fn mensaje(&self, nombre_error: &str) -> (r: String)
        ensures
            r@ == mensaje_spec(*self, nombre_error@),
    {
        match self {
            HttpError::Init(_) => {
                let mut r = String::from_str("fallo al crear el cliente HTTP: ");
                r.append(nombre_error);
                r
            },
            HttpError::Envio(_) => {
                let mut r = String::from_str("fallo al enviar la petición: ");
                r.append(nombre_error);
                r
            },
            HttpError::Respuesta(_) => {
                let mut r = String::from_str("fallo al leer la respuesta: ");
                r.append(nombre_error);
                r
            },
            HttpError::Servidor(s) => {
                let mut r = String::from_str("el servidor respondió ");
                let n = a_decimal(*s as u64);
                r.append(n.as_str());
                r
            },
        }
    }
}

/// La URL de una ruta del servidor.
pub fn url(servidor: &str, ruta: &str) -> (r: String)
    ensures
        r@ == servidor@ + ruta@,
{
    let mut r = String::from_str(servidor);
    r.append(ruta);
    r
}

/// Las cabeceras de un POST con cuerpo JSON: tipo de contenido y largo en
/// bytes del cuerpo, en decimal.
pub fn cabeceras_json(body: &str) -> (r: Vec<(String, String)>)
    ensures
        r@.len() == 2,
        r@[0].0@ == "Content-Type"@,
        r@[0].1@ == "application/json"@,
        r@[1].0@ == "Content-Length"@,
        r@[1].1@ == decimal(body.len() as nat),
{
    let largo = a_decimal(body.len() as u64);
    vec![
        (String::from_str("Content-Type"), String::from_str("application/json")),
        (String::from_str("Content-Length"), largo),
    ]
}

/// Una respuesta cuenta como aceptada si y solo si su status es 2xx.
pub fn resultado_status(status: u16) -> (r: Result<u16, HttpError>)
    ensures
        r is Ok <==> 200 <= status < 300,
        r is Ok ==> r->Ok_0 == status,
        r is Err ==> r->Err_0 == HttpError::Servidor(status),
{
    if 200 <= status && status < 300 {
        Ok(status)
    } else {
        Err(HttpError::Servidor(status))
    }
}

} // verus!
