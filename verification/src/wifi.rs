//! Decisiones de la conexion WiFi: que credenciales acepta el driver, cuanto
//! se espera entre intentos y cuando se reinicia el driver. El driver mismo
//! lo maneja quien llama; aqui solo se decide que hacer con cada resultado.

use vstd::prelude::*;
use vstd::arithmetic::power2::{pow2, lemma_pow2_unfold, lemma_pow2_pos};

verus! {

/// Espera del primer reintento; se duplica en cada fallo hasta `ESPERA_MAX_MS`.
pub const ESPERA_INICIAL_MS: u64 = 1000;
pub const ESPERA_MAX_MS: u64 = 60000;
/// Pausa entre el `stop()` y el `start()` al reiniciar el driver.
pub const ESPERA_REINICIO_MS: u64 = 1000;
/// Cada cuantos intentos fallidos se reinicia el driver completo.
pub const INTENTOS_POR_REINICIO: u32 = 10;
/// Reintentos suaves de `reconectar` antes de escalar a reiniciar el driver.
pub const INTENTOS_RECONEXION: u32 = 3;
/// Bytes que caben en el SSID y en el password del driver.
pub const MAX_SSID: usize = 32;
pub const MAX_PASSWORD: usize = 64;

/// Fallos de la conexion WiFi. Los errores del driver llevan su codigo
/// `esp_err_t`.
#[derive(Debug, PartialEq, Eq, Clone, Copy)]
pub enum WifiError {
    InitFailed(i32),
    ConfigFailed(i32),
    ConnectionFailed(i32),
    /// El SSID o el password no caben en los buffers del driver.
    CredencialesInvalidas(&'static str),
    NetworkInterfaceTimeout,
}

/// El texto de un error. `nombre_error` es el nombre del codigo `esp_err_t`
/// que lleva el error; los errores sin codigo no lo usan.
pub open spec fn mensaje_spec(e: WifiError, nombre_error: Seq<char>) -> Seq<char> {
    match e {
        WifiError::InitFailed(_) => "fallo al inicializar el WiFi: "@ + nombre_error,
        WifiError::ConfigFailed(_) => "fallo al configurar el WiFi: "@ + nombre_error,
        WifiError::ConnectionFailed(_) => "fallo al conectar el WiFi: "@ + nombre_error,
        WifiError::CredencialesInvalidas(campo) => "credencial inválida: "@ + campo@,
        WifiError::NetworkInterfaceTimeout => "timeout esperando que levante la interfaz de red"@,
    }
}

impl WifiError {
    /// El texto del error, para el log.
    pub fn mensaje(&self, nombre_error: &str) -> (r: String)
        ensures
            r@ == mensaje_spec(*self, nombre_error@),
    {
        let (prefijo, resto) = match self {
            WifiError::InitFailed(_) => ("fallo al inicializar el WiFi: ", nombre_error),
            WifiError::ConfigFailed(_) => ("fallo al configurar el WiFi: ", nombre_error),
            WifiError::ConnectionFailed(_) => ("fallo al conectar el WiFi: ", nombre_error),
            WifiError::CredencialesInvalidas(campo) => ("credencial inválida: ", *campo),
            WifiError::NetworkInterfaceTimeout => ("timeout esperando que levante la interfaz de red", ""),
        };
        let mut r = String::from_str(prefijo);
        r.append(resto);
        proof {
            reveal_strlit("");
            assert(""@ =~= Seq::<char>::empty());
        }
        assert(r@ =~= mensaje_spec(*self, nombre_error@));
        r
    }
}

/// Que credencial no cabe, si alguna: se revisa primero el SSID.
pub open spec fn error_credenciales(largo_ssid: nat, largo_password: nat) -> Option<WifiError> {
    if largo_ssid > MAX_SSID {
        Some(WifiError::CredencialesInvalidas("SSID"))
    } else if largo_password > MAX_PASSWORD {
        Some(WifiError::CredencialesInvalidas("password"))
    } else {
        None
    }
}

/// Las credenciales se aceptan exactamente cuando el SSID cabe en 32 bytes y
/// el password en 64: cualquier largo hasta el tope vale. Si el SSID no cabe
/// el error lo nombra a el; si cabe y el password no, nombra al password.
pub proof fn lema_credenciales(largo_ssid: nat, largo_password: nat)
    ensures
        error_credenciales(largo_ssid, largo_password) is None
            <==> (largo_ssid <= 32 && largo_password <= 64),
        largo_ssid > 32 ==> error_credenciales(largo_ssid, largo_password)
            == Some(WifiError::CredencialesInvalidas("SSID")),
        largo_ssid <= 32 && largo_password > 64 ==> error_credenciales(largo_ssid, largo_password)
            == Some(WifiError::CredencialesInvalidas("password")),
        largo_ssid <= 32 ==> (error_credenciales(largo_ssid, largo_password) is None
            <==> error_credenciales(0, largo_password) is None),
{
}

/// El SSID (hasta 32 bytes) y el password (hasta 64 bytes) tienen que
/// caber en los buffers fijos de la configuracion del driver.
pub fn validar_credenciales(ssid: &str, password: &str) -> (r: Result<(), WifiError>)
    ensures
        r is Ok <==> error_credenciales(ssid.len() as nat, password.len() as nat) is None,
        r is Err ==> Some(r->Err_0) == error_credenciales(ssid.len() as nat, password.len() as nat),
        r is Ok <==> (ssid.len() <= MAX_SSID && password.len() <= MAX_PASSWORD),
        ssid.len() > MAX_SSID ==> r == Err::<(), WifiError>(WifiError::CredencialesInvalidas("SSID")),
        ssid.len() <= MAX_SSID && password.len() > MAX_PASSWORD
            ==> r == Err::<(), WifiError>(WifiError::CredencialesInvalidas("password")),
{
    if ssid.len() > MAX_SSID {
        Err(WifiError::CredencialesInvalidas("SSID"))
    } else if password.len() > MAX_PASSWORD {
        Err(WifiError::CredencialesInvalidas("password"))
    } else {
        Ok(())
    }
}

/// La espera que sigue a una espera de `e` milisegundos: el doble, con tope.
pub open spec fn siguiente_espera(e: nat) -> nat {
    if 2 * e < ESPERA_MAX_MS { 2 * e } else { ESPERA_MAX_MS as nat }
}

/// La espera despues de `fallos` intentos fallidos.
pub open spec fn espera_tras(fallos: nat) -> nat
    decreases fallos,
{
    if fallos == 0 {
        ESPERA_INICIAL_MS as nat
    } else {
        siguiente_espera(espera_tras((fallos - 1) as nat))
    }
}

/// La espera crece como 1 s, 2 s, 4 s, ... y se queda en 60 s: tras `k`
/// fallos es `min(1 s * 2^k, 60 s)`, nunca baja y nunca pasa del tope.
pub proof fn lema_espera_exponencial(k: nat)
    ensures
        espera_tras(k) == if ESPERA_INICIAL_MS * pow2(k) < ESPERA_MAX_MS {
            ESPERA_INICIAL_MS * pow2(k)
        } else {
            ESPERA_MAX_MS as int
        },
        ESPERA_INICIAL_MS <= espera_tras(k) <= ESPERA_MAX_MS,
        espera_tras(k) <= espera_tras(k + 1),
    decreases k,
{
    lemma_pow2_pos(k);
    if k == 0 {
        assert(pow2(0) == 1) by {
            vstd::arithmetic::power2::lemma2_to64();
        }
    } else {
        lema_espera_exponencial((k - 1) as nat);
        lemma_pow2_unfold(k);
    }
}

/// Estado del ciclo de conexion inicial: cuantos intentos fallaron y
/// cuanto se esperara despues del proximo fallo.
pub struct Reintentos {
    fallos: u32,
    espera_ms: u64,
}

/// Lo que toca hacer despues de un intento fallido: reiniciar el driver o
/// no, y cuanto esperar antes del siguiente intento.
#[derive(Debug, PartialEq, Eq, Structural, Clone, Copy)]
pub struct PlanReintento {
    pub reiniciar_driver: bool,
    pub espera_ms: u64,
}

impl Reintentos {
    #[verifier::type_invariant]
    closed spec fn espera_al_dia(self) -> bool {
        self.espera_ms == espera_tras(self.fallos as nat)
    }

    /// Intentos que ya fallaron.
    pub closed spec fn fallos(&self) -> nat {
        self.fallos as nat
    }

    /// Lo que se esperara tras el proximo fallo: siempre `espera_tras(fallos)`.
    pub open spec fn espera(&self) -> nat {
        espera_tras(self.fallos())
    }

    /// Antes del primer intento.
    pub fn nuevo() -> (r: Reintentos)
        ensures
            r.fallos() == 0,
    {
        Reintentos { fallos: 0, espera_ms: ESPERA_INICIAL_MS }
    }

    /// Intentos que ya fallaron.
    pub fn fallidos(&self) -> (n: u32)
        ensures
            n == self.fallos(),
    {
        self.fallos
    }

    /// Numero del intento en curso, contando desde 1.
    pub fn intento(&self) -> (n: u32)
        requires
            self.fallos() < u32::MAX,
        ensures
            n == self.fallos() + 1,
    {
        self.fallos + 1
    }

    /// El intento en curso fallo. Cada `INTENTOS_POR_REINICIO` fallos se
    /// reinicia el driver; siempre se espera y se vuelve a intentar: el
    /// fallo numero `k` espera `espera_tras(k - 1)`, o sea 1 s, 2 s, 4 s...
    /// hasta quedarse en 60 s. Nunca se abandona.
    pub fn tras_fallo(&mut self) -> (plan: PlanReintento)
        requires
            old(self).fallos() < u32::MAX,
        ensures
            final(self).fallos() == old(self).fallos() + 1,
            plan.reiniciar_driver == (final(self).fallos() % (INTENTOS_POR_REINICIO as nat) == 0),
            plan.espera_ms == espera_tras(old(self).fallos()),
    {
        proof {
            use_type_invariant(&*self);
            lema_espera_exponencial(self.fallos as nat);
        }
        let espera = self.espera_ms;
        let siguiente: u64 = if 2 * espera < ESPERA_MAX_MS { 2 * espera } else { ESPERA_MAX_MS };
        let fallos = self.fallos + 1;
        *self = Reintentos { fallos, espera_ms: siguiente };
        PlanReintento {
            reiniciar_driver: fallos % INTENTOS_POR_REINICIO == 0,
            espera_ms: espera,
        }
    }
}

/// Lo que toca hacer cuando falla un intento de reconexion.
#[derive(Debug, PartialEq, Eq, Structural, Clone, Copy)]
pub enum DecisionReconexion {
    /// Desconectar, esperar y volver a intentar.
    Reintentar { espera_ms: u64 },
    /// Desconectar, esperar y reiniciar el driver antes del ultimo intento.
    ReiniciarDriver { espera_ms: u64 },
    /// Ya se reinicio el driver y tampoco alcanzo: devolver el error.
    Rendirse,
}

/// Lo que decide `Reconexion::tras_fallo` con `fallos` reintentos suaves
/// fallidos y con el driver ya reiniciado o no: el estado siguiente y la
/// decision.
pub open spec fn paso_reconexion(fallos: nat, reiniciado: bool) -> (nat, bool, DecisionReconexion) {
    if reiniciado || fallos >= INTENTOS_RECONEXION {
        (fallos, reiniciado, DecisionReconexion::Rendirse)
    } else if fallos + 1 < INTENTOS_RECONEXION {
        (fallos + 1, false, DecisionReconexion::Reintentar { espera_ms: espera_tras(fallos) as u64 })
    } else {
        (fallos + 1, false, DecisionReconexion::ReiniciarDriver { espera_ms: espera_tras(fallos) as u64 })
    }
}

/// Estado de una reconexion de un WiFi ya inicializado: cuantos reintentos
/// suaves fallaron y si ya se reinicio el driver.
pub struct Reconexion {
    fallos: u32,
    reiniciado: bool,
    espera_ms: u64,
}

impl Reconexion {
    #[verifier::type_invariant]
    closed spec fn bien_formada(self) -> bool {
        &&& self.fallos <= INTENTOS_RECONEXION
        &&& self.espera_ms == espera_tras(self.fallos as nat)
    }

    pub closed spec fn fallos(&self) -> nat {
        self.fallos as nat
    }

    pub closed spec fn reiniciado(&self) -> bool {
        self.reiniciado
    }

    /// Antes del primer intento.
    pub fn nueva() -> (r: Reconexion)
        ensures
            r.fallos() == 0,
            !r.reiniciado(),
    {
        Reconexion { fallos: 0, reiniciado: false, espera_ms: ESPERA_INICIAL_MS }
    }

    /// Un intento fallo: los primeros `INTENTOS_RECONEXION` se reintentan con
    /// espera creciente, el ultimo de ellos pide reiniciar el driver, y el
    /// intento que sigue al reinicio es el ultimo.
    pub fn tras_fallo(&mut self) -> (d: DecisionReconexion)
        ensures
            (final(self).fallos(), final(self).reiniciado(), d) == paso_reconexion(old(self).fallos(), old(self).reiniciado()),
    {
        proof {
            use_type_invariant(&*self);
            lema_espera_exponencial(self.fallos as nat);
        }
        if self.reiniciado || self.fallos >= INTENTOS_RECONEXION {
            return DecisionReconexion::Rendirse;
        }
        let espera = self.espera_ms;
        let fallos = self.fallos + 1;
        let siguiente: u64 = if 2 * espera < ESPERA_MAX_MS { 2 * espera } else { ESPERA_MAX_MS };
        *self = Reconexion { fallos, reiniciado: false, espera_ms: siguiente };
        if fallos < INTENTOS_RECONEXION {
            DecisionReconexion::Reintentar { espera_ms: espera }
        } else {
            DecisionReconexion::ReiniciarDriver { espera_ms: espera }
        }
    }

    /// El driver se reinicio bien: queda un ultimo intento.
    pub fn tras_reinicio(&mut self)
        ensures
            final(self).fallos() == old(self).fallos(),
            final(self).reiniciado(),
    {
        proof { use_type_invariant(&*self); }
        self.reiniciado = true;
    }
}

/// Una reconexion que falla siempre hace tres intentos suaves separados por
/// 1 s, 2 s y 4 s, pide reiniciar el driver tras el tercero, hace un ultimo
/// intento y se rinde: nunca mas de cuatro intentos.
pub proof fn lema_reconexion_acotada()
    ensures
        ({
            let p1 = paso_reconexion(0, false);
            let p2 = paso_reconexion(p1.0, p1.1);
            let p3 = paso_reconexion(p2.0, p2.1);
            let p4 = paso_reconexion(p3.0, true);
            let p5 = paso_reconexion(p4.0, p4.1);
            &&& p1.2 == DecisionReconexion::Reintentar { espera_ms: 1000 }
            &&& p2.2 == DecisionReconexion::Reintentar { espera_ms: 2000 }
            &&& p3.2 == DecisionReconexion::ReiniciarDriver { espera_ms: 4000 }
            &&& p4.2 == DecisionReconexion::Rendirse
            &&& p5 == p4
        }),
        forall|f: nat| #[trigger] paso_reconexion(f, true).2 == DecisionReconexion::Rendirse,
{
    reveal_with_fuel(espera_tras, 4);
}

} // verus!
