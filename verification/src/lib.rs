//! Logica de la bascula AgroFenix: que se muestra en la pantalla, que LEDs
//! se encienden, como se reintenta la conexion WiFi, que se reporta al
//! servidor y cuando una tarjeta NFC cuenta como nueva.

pub mod arranque;
pub mod cadena;
pub mod config;
pub mod estado;
pub mod hardware;
pub mod http;
pub mod mensajes;
pub mod pesaje;
pub mod ui;
pub mod wifi;
