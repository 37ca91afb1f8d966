//! Lo que la logica decide sobre cada periferico: que dibuja la pantalla,
//! en que nivel quedan los pines de los LEDs, que se escanea en el bus I2C,
//! como se leen los bytes del UART y cuando una tarjeta NFC cuenta como nueva.

pub mod bus_i2c;
pub mod bus_uart;
pub mod lector_nfc;
pub mod leds;
pub mod pantalla;
