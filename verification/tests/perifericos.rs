use bascula::cadena::a_decimal;
use bascula::hardware::bus_i2c::direcciones_a_escanear;
use bascula::hardware::bus_uart::{ascii_visible, coincide_eco, hex_crudo};
use bascula::hardware::lector_nfc::LectorNfc;
use bascula::hardware::leds::{nivel, pasos_secuencia, Leds};
use bascula::pesaje::{Fase, Pesaje};
use bascula::ui::pantallas::Pantallas;
use bascula::hardware::pantalla::Pantalla;
use bascula::ui::semaforo::Semaforo;

fn niveles(s: &Semaforo) -> Option<Vec<bool>> {
    s.leds().map(|l| (0..4).map(|i| l.nivel_de(i)).collect())
}

#[test]
fn anodo_comun_enciende_en_bajo() {
    assert!(!nivel(true));
    assert!(nivel(false));
    let mut l = Leds::new();
    assert_eq!(l.cantidad(), 4);
    assert!((0..4).all(|i| l.nivel_de(i)));
    l.poner(2, true);
    assert!(!l.nivel_de(2));
    assert!(l.nivel_de(1));
    l.todos(true);
    assert!((0..4).all(|i| !l.nivel_de(i)));
}

#[test]
fn semaforo_no_deja_restos() {
    let mut s = Semaforo::new(Some(Leds::new()));
    assert_eq!(niveles(&s), Some(vec![true, true, true, true]));
    s.pendiente();
    assert_eq!(niveles(&s), Some(vec![true, false, false, true]));
    s.error();
    assert_eq!(niveles(&s), Some(vec![true, true, true, false]));
    s.canasta();
    assert_eq!(niveles(&s), Some(vec![false, true, true, true]));
    s.enviando();
    assert_eq!(niveles(&s), Some(vec![true, false, true, true]));
    s.confirmado();
    assert_eq!(niveles(&s), Some(vec![true, true, false, true]));
    s.reposo();
    assert_eq!(niveles(&s), Some(vec![true, true, true, true]));
    let mut sin = Semaforo::new(None);
    sin.error();
    assert_eq!(niveles(&sin), None);
}

#[test]
fn rebote_de_tarjetas() {
    let mut l = LectorNfc::new(true);
    assert!(l.disponible());
    let a: &[u8] = &[0xde, 0xad, 0xbe, 0xef];
    let b: &[u8] = &[0x01, 0x0a];
    assert_eq!(l.leer_uid(None, 0), None);
    assert_eq!(l.leer_uid(Some(a), 1000), Some("DEADBEEF".to_string()));
    // misma tarjeta dentro del plazo: no se reporta, y renueva el plazo
    assert_eq!(l.leer_uid(Some(a), 3500), None);
    assert_eq!(l.leer_uid(Some(a), 6000), None);
    assert_eq!(l.leer_uid(Some(a), 9000), Some("DEADBEEF".to_string()));
    // otra tarjeta siempre se reporta
    assert_eq!(l.leer_uid(Some(b), 9001), Some("010A".to_string()));
    assert_eq!(l.leer_uid(Some(a), 9002), Some("DEADBEEF".to_string()));
    // un reloj que va para atras cuenta como cero
    assert_eq!(l.leer_uid(Some(a), 10), None);
}

#[test]
fn sin_lector_no_hay_tarjetas() {
    let mut l = LectorNfc::new(false);
    assert!(!l.disponible());
    assert_eq!(l.leer_uid(Some(&[1, 2, 3]), 0), None);
}

#[test]
fn hex_y_decimal() {
    assert_eq!(hex_crudo(&[0x00, 0x9f, 0xab]), "009fab");
    assert_eq!(hex_crudo(&[]), "");
    let mut l = LectorNfc::new(true);
    assert_eq!(l.leer_uid(Some(&[0x00, 0x9f, 0xab]), 0), Some("009FAB".to_string()));
    assert_eq!(a_decimal(0), "0");
    assert_eq!(a_decimal(9), "9");
    assert_eq!(a_decimal(10), "10");
    assert_eq!(a_decimal(u64::MAX), u64::MAX.to_string());
}

#[test]
fn eco_del_uart() {
    assert!(coincide_eco(b"hola bascula\r\n", b"hola bascula\r\n"));
    assert!(!coincide_eco(b"hola", b"hola bascula\r\n"));
    assert!(!coincide_eco(b"hola!", b"hola?"));
    assert!(coincide_eco(b"", b""));
}

#[test]
fn volcado_ascii() {
    assert_eq!(ascii_visible(b"A b~\r\n\x00\x7f\xff"), "A b~.....");
}

#[test]
fn escaneo_i2c() {
    let d = direcciones_a_escanear();
    assert_eq!(d.len(), 112);
    assert_eq!(d[0], 0x08);
    assert_eq!(*d.last().unwrap(), 0x77);
    assert_eq!(d, (0x08u8..=0x77).collect::<Vec<u8>>());
}

#[test]
fn pesaje_en_reposo() {
    let mut p = Pesaje::new();
    let mut s = Semaforo::new(Some(Leds::new()));
    s.error();
    let mut pantallas = Pantallas::new(Pantalla::new());
    p.entrar(Fase::Reposo, &mut s, &mut pantallas, false);
    assert_eq!(niveles(&s), Some(vec![true, true, true, true]));
    let t = pantallas.pantalla().trazos();
    assert_eq!(t.len(), 5);
    assert_eq!(t[2].texto, "   ---- kg  ");
    assert_eq!(t[4].texto, "    SIN SERVIDOR     ");
}

#[test]
fn secuencia_de_prueba_de_leds() {
    let pasos = pasos_secuencia();
    assert_eq!(
        pasos,
        vec![(0, true), (1, true), (2, true), (3, true), (0, false), (1, false), (2, false), (3, false)]
    );
    let mut l = Leds::new();
    l.poner(1, true);
    for (i, e) in pasos {
        l.poner(i, e);
    }
    assert!((0..4).all(|i| l.nivel_de(i)));
}
