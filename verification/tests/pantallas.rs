use bascula::arranque::{Arranque, Estado};
use bascula::hardware::pantalla::{Linea, Pantalla, Tamano, Trazo};
use bascula::ui::arranque as ui_arranque;
use bascula::ui::listo;
use bascula::ui::pantallas::{marca, Pantallas};
use bascula::ui::{cabecera, campo, centrar};

fn textos(t: &[Trazo]) -> Vec<(String, Tamano, i32)> {
    t.iter().map(|x| (x.texto.clone(), x.tamano, x.y)).collect()
}

#[test]
fn cabecera_con_version() {
    let c = cabecera();
    assert_eq!(c[0], "AgroFenix     v0.1.0");
    assert_eq!(c[1], "--------------------");
    assert_eq!(c[0].len(), 20);
}

#[test]
fn campo_alinea_en_doce_columnas() {
    assert_eq!(campo("WiFi", "OK"), "WiFi        OK");
    assert_eq!(campo("Lector NFC", "..."), "Lector NFC  ...");
    assert_eq!(campo("Servidor", ""), "Servidor    ");
    assert_eq!(campo("EtiquetaMuyLarga", "x"), "EtiquetaMuyLargax");
}

#[test]
fn centrar_como_format() {
    for (t, w) in [("LISTO", 21usize), ("SIN SERVIDOR", 21), ("ab", 5), ("abc", 4), ("largo", 3), ("", 4)] {
        assert_eq!(centrar(t, w), format!("{:^w$}", t, w = w));
    }
}

#[test]
fn marcas_de_estado() {
    assert_eq!(marca(Estado::Pendiente), "");
    assert_eq!(marca(Estado::EnCurso), "...");
    assert_eq!(marca(Estado::Correcto), "OK");
    assert_eq!(marca(Estado::Fallo), "FALLO");
    assert_eq!(ui_arranque::Estado::Correcto.texto(), "OK");
    assert_eq!(ui_arranque::Estado::Fallo.texto(), "FALLO");
    assert_eq!(ui_arranque::Estado::EnCurso.texto(), "...");
    assert_eq!(ui_arranque::Estado::Pendiente.texto(), "");
}

#[test]
fn dibujar_descarta_lo_que_no_cabe() {
    let mut p = Pantalla::new();
    assert!(p.trazos().is_empty());
    let lineas = vec![
        Linea::grande("a"),
        Linea::grande("b"),
        Linea::normal("c"),
        Linea::grande("d"),
        Linea::normal("e"),
    ];
    p.dibujar(&lineas);
    assert_eq!(
        textos(p.trazos()),
        vec![
            ("a".to_string(), Tamano::Grande, 0),
            ("b".to_string(), Tamano::Grande, 20),
            ("c".to_string(), Tamano::Normal, 40),
        ]
    );
}

#[test]
fn texto_limita_a_seis_filas() {
    let mut p = Pantalla::new();
    p.texto(&["1", "2", "3", "4", "5", "6", "7", "8"]);
    let t = textos(p.trazos());
    assert_eq!(t.len(), 6);
    assert_eq!(t[5], ("6".to_string(), Tamano::Normal, 50));
}

#[test]
fn pantalla_de_arranque() {
    let mut pantallas = Pantallas::new(Pantalla::new());
    let mut a = Arranque::comienzo();
    a.nfc_listo(true);
    a.wifi_conectando();
    pantallas.arranque(&a);
    assert_eq!(
        textos(pantallas.pantalla().trazos()),
        vec![
            ("AgroFenix     v0.1.0".to_string(), Tamano::Normal, 0),
            ("--------------------".to_string(), Tamano::Normal, 10),
            ("Lector NFC  OK".to_string(), Tamano::Normal, 20),
            ("WiFi        ...".to_string(), Tamano::Normal, 30),
        ]
    );
}

#[test]
fn pasos_pendientes_no_tienen_linea() {
    let mut pantallas = Pantallas::new(Pantalla::new());
    pantallas.arranque(&Arranque::comienzo());
    let t = textos(pantallas.pantalla().trazos());
    assert_eq!(t.len(), 3);
    assert_eq!(t[2], ("Lector NFC  ...".to_string(), Tamano::Normal, 20));
    let mut a = Arranque::comienzo();
    a.nfc_listo(false);
    a.wifi_conectando();
    a.wifi_conectado();
    a.servidor_respondio(true);
    pantallas.arranque(&a);
    let t = textos(pantallas.pantalla().trazos());
    assert_eq!(t.len(), 5);
    assert_eq!(t[2].0, "Lector NFC  FALLO");
    assert_eq!(t[3].0, "WiFi        OK");
    assert_eq!(t[4], ("Servidor    OK".to_string(), Tamano::Normal, 40));
    pantallas.arranque(&Arranque::default());
    assert_eq!(textos(pantallas.pantalla().trazos()).len(), 2);
}

#[test]
fn pantalla_de_espera_sin_peso_ni_servidor() {
    let mut pantallas = Pantallas::new(Pantalla::new());
    pantallas.espera(None, false);
    let t = textos(pantallas.pantalla().trazos());
    assert_eq!(t.len(), 5);
    assert_eq!(t[0].0, "AgroFenix     v0.1.0");
    assert_eq!(t[2], ("   ---- kg  ".to_string(), Tamano::Grande, 20));
    assert_eq!(t[3], ("  ponga la canasta   ".to_string(), Tamano::Normal, 40));
    assert_eq!(t[4], ("    SIN SERVIDOR     ".to_string(), Tamano::Normal, 50));
}

#[test]
fn pantalla_de_espera_con_peso_en_linea() {
    let mut pantallas = Pantallas::new(Pantalla::new());
    pantallas.espera(Some("9.8"), true);
    let t = textos(pantallas.pantalla().trazos());
    assert_eq!(t[2], (format!("{:^12}", format!("{:>6.1} kg", 9.8f32)), Tamano::Grande, 20));
    assert_eq!(t[4], (String::new(), Tamano::Normal, 50));
    pantallas.espera(Some("10.2"), true);
    let t2 = textos(pantallas.pantalla().trazos());
    // el numero termina en la misma columna
    assert_eq!(t[2].0.find(" kg"), t2[2].0.find(" kg"));
    assert_eq!(t2[2].0, "   10.2 kg  ");
}

#[test]
fn pantalla_lista() {
    let mut p = Pantalla::new();
    listo::mostrar(&mut p, "aa:bb:cc:dd:ee:ff", true);
    let t = textos(p.trazos());
    assert_eq!(t.len(), 6);
    assert_eq!(t[2].0, "");
    assert_eq!(t[3].0, format!("{:^21}", "LISTO"));
    assert_eq!(t[5], ("aa:bb:cc:dd:ee:ff".to_string(), Tamano::Normal, 50));
    listo::mostrar(&mut p, "x", false);
    assert_eq!(textos(p.trazos())[3].0, "    SIN SERVIDOR     ");
}

#[test]
fn progreso_de_arranque_antiguo() {
    let mut p = Pantalla::new();
    let a = ui_arranque::Arranque { wifi: ui_arranque::Estado::Correcto, servidor: ui_arranque::Estado::EnCurso };
    a.mostrar(&mut p);
    let t = textos(p.trazos());
    assert_eq!(t.len(), 4);
    assert_eq!(t[2].0, "WiFi        OK");
    assert_eq!(t[3].0, "Servidor    ...");
    let d = ui_arranque::Arranque::default();
    assert_eq!(d.wifi, ui_arranque::Estado::Pendiente);
}
