use bascula::arranque::{identificador, mensaje_arranque, Arranque, Estado};
use bascula::config::VERSION_FIRMWARE;

#[test]
fn progreso_del_arranque() {
    let mut a = Arranque::comienzo();
    assert_eq!(a, Arranque { nfc: Estado::EnCurso, wifi: Estado::Pendiente, servidor: Estado::Pendiente });
    a.nfc_listo(false);
    assert_eq!(a.nfc, Estado::Fallo);
    a.wifi_conectando();
    assert_eq!(a.wifi, Estado::EnCurso);
    a.wifi_conectado();
    assert_eq!((a.wifi, a.servidor), (Estado::Correcto, Estado::EnCurso));
    assert!(!a.en_linea());
    a.servidor_respondio(true);
    assert!(a.en_linea());
    a.servidor_respondio(false);
    assert_eq!(a.servidor, Estado::Fallo);
    assert!(!a.en_linea());
    let mut b = Arranque::default();
    b.wifi_fallido();
    assert_eq!(b, Arranque { nfc: Estado::Pendiente, wifi: Estado::Fallo, servidor: Estado::Pendiente });
    assert_eq!(Estado::default(), Estado::Pendiente);
}

#[test]
fn identificador_es_la_mac() {
    assert_eq!(identificador([0x24, 0x0a, 0xc4, 0xff, 0x00, 0x9b]), "24:0a:c4:ff:00:9b");
    assert_eq!(identificador([0; 6]), "00:00:00:00:00:00");
}

#[test]
fn mensaje_de_arranque() {
    let m = mensaje_arranque(Some([1, 2, 3, 4, 5, 0xab]), Some(7), 123456);
    assert_eq!(m.device_id, "01:02:03:04:05:ab");
    assert_eq!(m.sesion_arranque, 7);
    assert_eq!(m.monotonico_ancla_us, 123456);
    assert_eq!(m.version_firmware, VERSION_FIRMWARE);
    let sin = mensaje_arranque(None, None, -1);
    assert_eq!(sin.device_id, "00:00:00:00:00:00");
    assert_eq!(sin.sesion_arranque, 0);
}
