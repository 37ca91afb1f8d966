use bascula::estado::siguiente_sesion;
use bascula::http::{cabeceras_json, resultado_status, url, HttpError, RUTA_ARRANQUE};
use bascula::wifi::{
    validar_credenciales, DecisionReconexion, PlanReintento, Reconexion, Reintentos, WifiError,
};

#[test]
fn credenciales_que_caben() {
    assert_eq!(validar_credenciales("mi-red", "secreta"), Ok(()));
    let ssid32 = "s".repeat(32);
    let pass64 = "p".repeat(64);
    assert_eq!(validar_credenciales(&ssid32, &pass64), Ok(()));
    assert_eq!(validar_credenciales("", ""), Ok(()));
}

#[test]
fn credenciales_que_no_caben() {
    let ssid33 = "s".repeat(33);
    let pass65 = "p".repeat(65);
    assert_eq!(validar_credenciales(&ssid33, "x"), Err(WifiError::CredencialesInvalidas("SSID")));
    assert_eq!(validar_credenciales("red", &pass65), Err(WifiError::CredencialesInvalidas("password")));
    // el SSID se revisa primero
    assert_eq!(validar_credenciales(&ssid33, &pass65), Err(WifiError::CredencialesInvalidas("SSID")));
    // se cuentan bytes, no caracteres
    let ene = "ñ".repeat(17);
    assert_eq!(validar_credenciales(&ene, "x"), Err(WifiError::CredencialesInvalidas("SSID")));
}

#[test]
fn backoff_de_conexion_inicial() {
    let mut r = Reintentos::nuevo();
    let mut esperas = Vec::new();
    let mut reinicios = Vec::new();
    for n in 1..=25u32 {
        assert_eq!(r.intento(), n);
        let PlanReintento { reiniciar_driver, espera_ms } = r.tras_fallo();
        esperas.push(espera_ms);
        if reiniciar_driver {
            reinicios.push(n);
        }
    }
    assert_eq!(&esperas[..8], &[1000, 2000, 4000, 8000, 16000, 32000, 60000, 60000]);
    assert!(esperas[8..].iter().all(|&e| e == 60000));
    assert_eq!(reinicios, vec![10, 20]);
}

#[test]
fn reconexion_agota_y_se_rinde() {
    let mut r = Reconexion::nueva();
    assert_eq!(r.tras_fallo(), DecisionReconexion::Reintentar { espera_ms: 1000 });
    assert_eq!(r.tras_fallo(), DecisionReconexion::Reintentar { espera_ms: 2000 });
    assert_eq!(r.tras_fallo(), DecisionReconexion::ReiniciarDriver { espera_ms: 4000 });
    r.tras_reinicio();
    assert_eq!(r.tras_fallo(), DecisionReconexion::Rendirse);
    assert_eq!(r.tras_fallo(), DecisionReconexion::Rendirse);
}

#[test]
fn sesiones_crecen() {
    assert_eq!(siguiente_sesion(None), 1);
    assert_eq!(siguiente_sesion(Some(0)), 1);
    assert_eq!(siguiente_sesion(Some(41)), 42);
    assert_eq!(siguiente_sesion(Some(-5)), -4);
}

#[test]
fn status_2xx_es_aceptado() {
    assert_eq!(resultado_status(200), Ok(200));
    assert_eq!(resultado_status(204), Ok(204));
    assert_eq!(resultado_status(299), Ok(299));
    assert_eq!(resultado_status(300), Err(HttpError::Servidor(300)));
    assert_eq!(resultado_status(199), Err(HttpError::Servidor(199)));
    assert_eq!(resultado_status(500), Err(HttpError::Servidor(500)));
}

#[test]
fn url_y_cabeceras() {
    assert_eq!(url("http://10.0.0.2:8000", RUTA_ARRANQUE), "http://10.0.0.2:8000/dispositivos/arranque");
    let body = r#"{"device_id":"aa"}"#;
    let c = cabeceras_json(body);
    assert_eq!(c[0], ("Content-Type".to_string(), "application/json".to_string()));
    assert_eq!(c[1], ("Content-Length".to_string(), body.len().to_string()));
    assert_eq!(cabeceras_json("")[1].1, "0");
    let largo = "x".repeat(1234);
    assert_eq!(cabeceras_json(&largo)[1].1, "1234");
}

#[test]
fn mensajes_de_error() {
    assert_eq!(WifiError::InitFailed(257).mensaje("ESP_ERR_NO_MEM"), "fallo al inicializar el WiFi: ESP_ERR_NO_MEM");
    assert_eq!(WifiError::ConfigFailed(1).mensaje("X"), "fallo al configurar el WiFi: X");
    assert_eq!(WifiError::ConnectionFailed(1).mensaje("Y"), "fallo al conectar el WiFi: Y");
    assert_eq!(WifiError::CredencialesInvalidas("SSID").mensaje("ignorado"), "credencial inválida: SSID");
    assert_eq!(WifiError::NetworkInterfaceTimeout.mensaje("ignorado"), "timeout esperando que levante la interfaz de red");
    assert_eq!(HttpError::Init(1).mensaje("E"), "fallo al crear el cliente HTTP: E");
    assert_eq!(HttpError::Envio(1).mensaje("E"), "fallo al enviar la petición: E");
    assert_eq!(HttpError::Respuesta(1).mensaje("E"), "fallo al leer la respuesta: E");
    assert_eq!(HttpError::Servidor(503).mensaje("ignorado"), "el servidor respondió 503");
}
