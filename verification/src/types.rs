//! Types fondamentaux : erreurs, horodatage, état des capteurs.
use vstd::prelude::*;

verus! {

/// Erreurs du système AirHaum.
#[derive(Debug, Clone)]
pub enum ErreursAirHaum {
    /// Erreur sur le bus I²C.
    ErreurI2C(String),
    /// Erreur d'entrée/sortie (fichier, port série).
    ErreurIO(String),
    /// Calibration absente, corrompue ou invalide.
    CalibrationEchouee(String),
    /// Capteur utilisé avant d'être opérationnel.
    CapteurNonInitialise(String),
    /// Données hors plages ou incohérentes.
    DonneesInvalides(String),
    /// Échec de communication avec un capteur.
    ErreurCommunication(String),
    /// Échec de la séquence d'initialisation.
    ErreurInitialisation(String),
    /// Mesure hors de la portée du capteur.
    HorsPortee,
    /// Lecture capteur impossible.
    LectureCapteurEchouee(String),
    /// Délai dépassé.
    Timeout,
    /// Délai dépassé pour le capteur nommé.
    TimeoutCapteur(String),
}

impl ErreursAirHaum {
    /// Texte affiché pour l'erreur.
    pub open spec fn spec_texte(&self) -> Seq<char> {
        match self {
            ErreursAirHaum::ErreurI2C(m) => "Erreur I2C: "@ + m@,
            ErreursAirHaum::ErreurIO(m) => "Erreur IO: "@ + m@,
            ErreursAirHaum::CalibrationEchouee(m) => "Calibration échouée: "@ + m@,
            ErreursAirHaum::CapteurNonInitialise(m) => "Capteur non initialisé: "@ + m@,
            ErreursAirHaum::DonneesInvalides(m) => "Données invalides: "@ + m@,
            ErreursAirHaum::ErreurCommunication(m) => "Erreur de communication: "@ + m@,
            ErreursAirHaum::ErreurInitialisation(m) => "Erreur d'initialisation: "@ + m@,
            ErreursAirHaum::HorsPortee => "Hors portée"@,
            ErreursAirHaum::LectureCapteurEchouee(m) => "Lecture capteur échouée: "@ + m@,
            ErreursAirHaum::Timeout => "Délai dépassé"@,
            ErreursAirHaum::TimeoutCapteur(m) => "Délai dépassé: "@ + m@,
        }
    }

    /// Texte affiché pour l'erreur.
    pub fn texte(&self) -> (s: String)
        ensures
            s@ == self.spec_texte(),
    {
        match self {
            ErreursAirHaum::ErreurI2C(m) => String::from_str("Erreur I2C: ").concat(m.as_str()),
            ErreursAirHaum::ErreurIO(m) => String::from_str("Erreur IO: ").concat(m.as_str()),
            ErreursAirHaum::CalibrationEchouee(m) => String::from_str("Calibration échouée: ").concat(m.as_str()),
            ErreursAirHaum::CapteurNonInitialise(m) => String::from_str("Capteur non initialisé: ").concat(m.as_str()),
            ErreursAirHaum::DonneesInvalides(m) => String::from_str("Données invalides: ").concat(m.as_str()),
            ErreursAirHaum::ErreurCommunication(m) => String::from_str("Erreur de communication: ").concat(m.as_str()),
            ErreursAirHaum::ErreurInitialisation(m) => String::from_str("Erreur d'initialisation: ").concat(m.as_str()),
            ErreursAirHaum::HorsPortee => String::from_str("Hors portée"),
            ErreursAirHaum::LectureCapteurEchouee(m) => String::from_str("Lecture capteur échouée: ").concat(m.as_str()),
            ErreursAirHaum::Timeout => String::from_str("Délai dépassé"),
            ErreursAirHaum::TimeoutCapteur(m) => String::from_str("Délai dépassé: ").concat(m.as_str()),
        }
    }
}

/// Résultat des opérations du système.
pub type Result<T> = core::result::Result<T, ErreursAirHaum>;

/// Horodatage en microsecondes.
#[derive(Debug, Clone, Copy, PartialEq, Eq)]
pub struct Horodatage {
    pub micros: u64,
}

impl Horodatage {
    /// Horodatage construit depuis un nombre de microsecondes.
    pub fn depuis_micros(micros: u64) -> (h: Horodatage)
        ensures
            h.micros == micros,
    {
        Horodatage { micros }
    }

    /// Nombre de microsecondes de l'horodatage.
    pub fn micros(&self) -> (m: u64)
        ensures
            m == self.micros,
    {
        self.micros
    }

    /// Durée écoulée depuis `precedent`, en microsecondes (nulle si `precedent` est postérieur).
    pub fn delta_micros(&self, precedent: Horodatage) -> (d: u64)
        ensures
            d == (if self.micros >= precedent.micros { (self.micros - precedent.micros) as u64 } else { 0 }),
    {
        self.micros.saturating_sub(precedent.micros)
    }
}

/// État de la machine à états d'un capteur.
#[derive(Debug, Clone, PartialEq, Eq)]
pub enum EtatCapteur {
    /// État initial, capteur jamais contacté.
    Inconnu,
    /// Capteur identifié mais non configuré.
    NonConfigure,
    /// Capteur configuré, calibration éventuellement manquante.
    Configure,
    /// Capteur pleinement opérationnel.
    Operationnel,
    /// Capteur utilisable mais ayant produit des données suspectes.
    Degrade { raison: String },
}

impl EtatCapteur {
    /// Vrai si le capteur peut produire des mesures.
    pub open spec fn spec_est_utilisable(&self) -> bool {
        self is Operationnel || self is Degrade
    }

    /// Vrai si le capteur peut produire des mesures.
    pub fn est_utilisable(&self) -> (r: bool)
        ensures
            r == self.spec_est_utilisable(),
    {
        match self {
            EtatCapteur::Operationnel => true,
            EtatCapteur::Degrade { .. } => true,
            _ => false,
        }
    }

    /// État opérationnel.
    pub fn nouveau_operationnel() -> (e: EtatCapteur)
        ensures
            e is Operationnel,
    {
        EtatCapteur::Operationnel
    }

    /// Texte affiché pour l'état.
    pub open spec fn spec_texte(&self) -> Seq<char> {
        match self {
            EtatCapteur::Inconnu => "Inconnu"@,
            EtatCapteur::NonConfigure => "Non configuré"@,
            EtatCapteur::Configure => "Configuré"@,
            EtatCapteur::Operationnel => "Opérationnel"@,
            EtatCapteur::Degrade { raison } => "Dégradé: "@ + raison@,
        }
    }

    /// Texte affiché pour l'état.
    pub fn texte(&self) -> (s: String)
        ensures
            s@ == self.spec_texte(),
    {
        match self {
            EtatCapteur::Inconnu => String::from_str("Inconnu"),
            EtatCapteur::NonConfigure => String::from_str("Non configuré"),
            EtatCapteur::Configure => String::from_str("Configuré"),
            EtatCapteur::Operationnel => String::from_str("Opérationnel"),
            EtatCapteur::Degrade { raison } => String::from_str("Dégradé: ").concat(raison.as_str()),
        }
    }

    /// État dégradé avec la raison donnée.
    pub fn nouveau_degrade(raison: String) -> (e: EtatCapteur)
        ensures
            e == (EtatCapteur::Degrade { raison }),
    {
        EtatCapteur::Degrade { raison }
    }
}

} // verus!

verus! {

#[verifier::external_type_specification]
#[verifier::external_body]
pub struct ExSystemTime(std::time::SystemTime);

/// Appelle `std::time::SystemTime::now` ; rien n'est promis de l'instant lu.
#[verifier::external_body]
fn heure_systeme() -> std::time::SystemTime {
    std::time::SystemTime::now()
}

/// Appelle `std::time::SystemTime::duration_since` avec l'époque Unix :
/// `None` si `t` lui est antérieur ; la durée n'est pas spécifiée.
#[verifier::external_body]
fn depuis_epoque(t: &std::time::SystemTime) -> Option<std::time::Duration> {
    t.duration_since(std::time::UNIX_EPOCH).ok()
}

/// Microsecondes écoulées depuis l'époque Unix selon l'horloge système
/// (zéro si elle est antérieure à l'époque, saturé au maximum d'un `u64`).
fn micros_unix() -> u64 {
    match depuis_epoque(&heure_systeme()) {
        Some(d) => sature_u64(micros_de_duree(&d)),
        None => 0,
    }
}

/// `v` ramené au plus grand `u64` s'il le dépasse.
fn sature_u64(v: u128) -> (r: u64)
    ensures
        r == (if v > u64::MAX { u64::MAX as u128 } else { v }),
{
    if v > u64::MAX as u128 {
        u64::MAX
    } else {
        v as u64
    }
}

/// Secondes entières écoulées depuis l'époque Unix (zéro si l'horloge est
/// antérieure à l'époque).
pub(crate) fn secondes_unix() -> u64 {
    micros_unix() / 1_000_000
}

/// Appelle `std::time::Duration::from_micros`.
#[verifier::external_body]
fn duree_de_micros(micros: u64) -> std::time::Duration {
    std::time::Duration::from_micros(micros)
}

/// Appelle `std::time::Duration::as_micros` : la durée en microsecondes.
#[verifier::external_body]
fn micros_de_duree(duree: &std::time::Duration) -> u128 {
    duree.as_micros()
}

impl Horodatage {
    /// Horodatage de l'instant présent.
    pub fn maintenant() -> Horodatage {
        Horodatage { micros: micros_unix() }
    }

    /// Vrai si, à l'instant `maintenant`, au moins `duree_micros` µs se sont
    /// écoulées depuis cet horodatage (temps nul si `maintenant` est antérieur).
    pub fn est_ecoule_a(&self, maintenant: Horodatage, duree_micros: u128) -> (r: bool)
        ensures
            r == ((if maintenant.micros >= self.micros { maintenant.micros - self.micros } else { 0 }) >= duree_micros),
    {
        (maintenant.delta_micros(*self) as u128) >= duree_micros
    }

    /// Temps écoulé depuis cet horodatage jusqu'à l'instant présent.
    pub fn ecoule(&self) -> std::time::Duration {
        duree_de_micros(Horodatage::maintenant().delta_micros(*self))
    }

    /// Vrai si au moins `duree` s'est écoulée depuis cet horodatage.
    pub fn est_ecoule(&self, duree: std::time::Duration) -> bool {
        self.est_ecoule_a(Horodatage::maintenant(), micros_de_duree(&duree))
    }
}

} // verus!

verus! {

/// Qualité du fix GPS.
#[derive(Debug, Clone, Copy, PartialEq, Eq)]
pub enum TypeFixGps {
    Aucun,
    Fix2D,
    Fix3D,
    GnssDr,
}

impl TypeFixGps {
    /// Type de fix correspondant au champ `fixType` d'un NAV-PVT.
    pub open spec fn spec_depuis_ubx(fix_type: u8) -> TypeFixGps {
        if fix_type == 2 {
            TypeFixGps::Fix2D
        } else if fix_type == 3 {
            TypeFixGps::Fix3D
        } else if fix_type == 4 {
            TypeFixGps::GnssDr
        } else {
            TypeFixGps::Aucun
        }
    }

    /// Type de fix correspondant au champ `fixType` d'un NAV-PVT.
    pub fn depuis_ubx(fix_type: u8) -> (t: TypeFixGps)
        ensures
            t == Self::spec_depuis_ubx(fix_type),
    {
        if fix_type == 2 {
            TypeFixGps::Fix2D
        } else if fix_type == 3 {
            TypeFixGps::Fix3D
        } else if fix_type == 4 {
            TypeFixGps::GnssDr
        } else {
            TypeFixGps::Aucun
        }
    }

    /// Vrai pour un fix au moins 2D.
    pub open spec fn spec_est_valide(self) -> bool {
        !(self is Aucun)
    }

    /// Vrai pour un fix au moins 2D.
    pub fn est_valide(&self) -> (r: bool)
        ensures
            r == self.spec_est_valide(),
    {
        match self {
            TypeFixGps::Aucun => false,
            _ => true,
        }
    }
}

/// Position GPS en unités entières.
#[derive(Debug, Clone, Copy)]
pub struct DonneesGps {
    pub horodatage: Horodatage,
    /// Latitude (1e-7 degré).
    pub latitude: i32,
    /// Longitude (1e-7 degré).
    pub longitude: i32,
    /// Altitude MSL (mm).
    pub altitude_msl: i32,
    /// Vitesse sol (mm/s).
    pub vitesse_sol: i32,
    /// Cap de déplacement dans [0, 360°[ (1e-5 degré).
    pub cap: i32,
    /// Vitesse Nord (mm/s).
    pub vel_nord: i32,
    /// Vitesse Est (mm/s).
    pub vel_est: i32,
    /// Vitesse vers le bas (mm/s).
    pub vel_bas: i32,
    /// Précision horizontale × 1000 : HDOP × 1000 si connu, sinon précision en mm.
    pub precision_h: u32,
    /// Précision verticale (mm).
    pub precision_v: u32,
    pub nombre_satellites: u8,
    pub type_fix: TypeFixGps,
}

} // verus!

verus! {

/// Mesure barométrique compensée.
#[derive(Debug, Clone, Copy, PartialEq, Eq)]
pub struct DonneesBarometre {
    pub horodatage: Horodatage,
    /// Pression absolue (Pa).
    pub pression_pa: u32,
    /// Température (centièmes de °C).
    pub temperature_centi: i32,
}

} // verus!

verus! {

/// Distance au-delà de laquelle le télémètre signale l'absence d'obstacle (mm).
pub const DISTANCE_MAX_VL53L0X_MM: u16 = 8190;

/// Délai maximal de la séquence d'initialisation du télémètre (ms).
pub const TIMEOUT_INIT_VL53L0X_MS: u64 = 1_000;

/// Délai maximal de la séquence d'initialisation du baromètre (ms).
pub const TIMEOUT_INIT_BMP280_MS: u64 = 1_000;

/// Pression minimale plausible (Pa), bas de la plage du BMP280.
pub const PRESSION_MIN_PA: u32 = 30_000;

/// Pression maximale plausible (Pa), haut de la plage du BMP280.
pub const PRESSION_MAX_PA: u32 = 110_000;

/// Température minimale de fonctionnement du BMP280 (centièmes de °C).
pub const TEMP_MIN_BMP280_CENTI: i32 = -4_000;

/// Température maximale de fonctionnement du BMP280 (centièmes de °C).
pub const TEMP_MAX_BMP280_CENTI: i32 = 8_500;

/// Variation de pression maximale plausible (Pa/s).
pub const VARIATION_PRESSION_MAX_PA_S: u64 = 500;

} // verus!

verus! {

#[verifier::external_type_specification]
#[verifier::external_body]
pub struct ExInstant(std::time::Instant);


/// Appelle `std::time::Instant::now` ; rien n'est promis de l'instant obtenu.
#[verifier::external_body]
pub(crate) fn instant_maintenant() -> std::time::Instant {
    std::time::Instant::now()
}

/// Appelle `std::time::Instant::elapsed` ; rien n'est promis de la durée.
#[verifier::external_body]
fn duree_ecoulee(depuis: &std::time::Instant) -> std::time::Duration {
    depuis.elapsed()
}

/// Microsecondes écoulées depuis `depuis` (saturé au maximum d'un `u64`).
pub(crate) fn micros_ecoulees(depuis: &std::time::Instant) -> u64 {
    sature_u64(micros_de_duree(&duree_ecoulee(depuis)))
}


/// Champ `fixType` du NAV-PVT : seules les valeurs 2 (fix 2D), 3 (fix 3D) et
/// 4 (GNSS + navigation à l'estime) donnent un fix exploitable, chacune vers
/// son type ; toute autre valeur (aucun fix, estime seule, temps seul,
/// réservée) donne l'absence de fix.
pub proof fn loi_fix_ubx(f: u8)
    ensures
        TypeFixGps::spec_depuis_ubx(f).spec_est_valide() <==> (2 <= f && f <= 4),
        TypeFixGps::spec_depuis_ubx(f) is Fix2D <==> f == 2,
        TypeFixGps::spec_depuis_ubx(f) is Fix3D <==> f == 3,
        TypeFixGps::spec_depuis_ubx(f) is GnssDr <==> f == 4,
{
}

} // verus!
