//! Messages publiés par les tâches capteurs I²C et compteurs de santé.
use vstd::prelude::*;
use std::sync::Arc;
use std::sync::atomic::AtomicU32;
use std::sync::atomic::Ordering;
use crate::types::{DonneesBarometre, ErreursAirHaum, EtatCapteur, Horodatage, Result};
use crate::taches::reprise::{ActionTache, EvenementTache, Publication, SuperviseurTache, transition, loi_succes_sans_erreur};
use crate::hal::i2c::BusI2c;
use crate::interfaces::barometre::Barometre;
use crate::interfaces::telemetre::Telemetre;
use crate::drivers::barometre::bmp280::Bmp280;
use crate::drivers::telemetre::vl53l0x::{Vl53l0x, ADRESSE_VL53L0X};
use crate::drivers::imu::mpu9250::{Mpu9250, ADRESSE_MPU9250};

verus! {

/// Capacité du FIFO de mesures inertielles : 20 mesures × 5 ms = 100 ms.
pub const FIFO_IMU_CAPACITE: usize = 20;

/// Mesure baromètre avec métadonnées de fiabilité.
#[derive(Debug, Clone)]
pub struct MesureBaro {
    pub donnees: Option<DonneesBarometre>,
    pub valide: bool,
    pub erreurs_consecutives: u32,
}

/// Mesure télémètre avec métadonnées de fiabilité.
#[derive(Debug, Clone)]
pub struct MesureTelem {
    pub distance_mm: Option<u16>,
    pub valide: bool,
    pub erreurs_consecutives: u32,
}

/// Distance publiée pour une mesure de `distance_mm` : seule une distance
/// strictement sous la portée maximale du capteur est exploitable.
pub fn distance_publiee(distance_mm: u16, portee_max_mm: u16) -> (r: Option<u16>)
    ensures
        r == (if distance_mm < portee_max_mm { Some(distance_mm) } else { None::<u16> }),
{
    if distance_mm < portee_max_mm {
        Some(distance_mm)
    } else {
        None
    }
}

/// Événement de supervision et distance à publier pour le résultat d'une
/// mesure du télémètre.
pub open spec fn issue_telemetre(lecture: Result<u16>, portee_max_mm: u16) -> (EvenementTache, Option<u16>) {
    match lecture {
        Ok(d) => if d < portee_max_mm {
            (EvenementTache::LectureReussie { valide: true }, Some(d))
        } else {
            (EvenementTache::LectureReussie { valide: false }, None::<u16>)
        },
        Err(ErreursAirHaum::HorsPortee) => (EvenementTache::LectureReussie { valide: true }, None::<u16>),
        Err(_) => (EvenementTache::LectureEchouee, None::<u16>),
    }
}

/// Issue d'une mesure du télémètre : une distance sous la portée est publiée
/// et valide ; une distance au-delà est une lecture réussie mais non valide ;
/// l'absence d'obstacle en portée (`HorsPortee`) est un fonctionnement normal,
/// lecture réussie et valide sans distance ; toute autre erreur est un échec.
pub fn issue_mesure_telemetre(lecture: &Result<u16>, portee_max_mm: u16) -> (r: (EvenementTache, Option<u16>))
    ensures
        r == issue_telemetre(*lecture, portee_max_mm),
{
    match lecture {
        Ok(d) => {
            let distance = distance_publiee(*d, portee_max_mm);
            (EvenementTache::LectureReussie { valide: distance.is_some() }, distance)
        },
        Err(ErreursAirHaum::HorsPortee) => (EvenementTache::LectureReussie { valide: true }, None),
        Err(_) => (EvenementTache::LectureEchouee, None),
    }
}

/// Une itération de lecture du télémètre qui aboutit à une distance ou à
/// « aucun obstacle en portée » n'est jamais comptée comme une erreur, ne
/// déclenche pas de réinitialisation, remet à zéro le compteur d'échecs et
/// publie une mesure valide exactement quand une distance sous la portée est
/// publiée ou qu'aucun obstacle n'est en portée.
pub proof fn loi_iteration_telemetre(s: SuperviseurTache, lecture: Result<u16>, portee_max_mm: u16)
    requires
        s.bien_forme(),
        lecture is Ok || lecture == Err::<u16, ErreursAirHaum>(ErreursAirHaum::HorsPortee),
    ensures
        ({
            let (e, distance) = issue_telemetre(lecture, portee_max_mm);
            let (t, a) = transition(s, e);
            &&& !a.compter_erreur
            &&& !a.compter_reinit
            &&& t.erreurs_consecutives == 0
            &&& a.publication == Some(Publication {
                valide: distance is Some || lecture is Err,
                erreurs_consecutives: 0,
            })
        }),
{
    let (e, distance) = issue_telemetre(lecture, portee_max_mm);
    match e {
        EvenementTache::LectureReussie { valide } => loi_succes_sans_erreur(s, valide),
        _ => {},
    }
}

/// Hauteur au-dessus du sol retenue pour la fusion d'altitude : la distance
/// d'une mesure valide du télémètre, sinon rien.
pub fn hauteur_fusionnee(telem: &MesureTelem) -> (r: Option<u32>)
    ensures
        r == (match telem.distance_mm {
            Some(d) => if telem.valide { Some(d as u32) } else { None::<u32> },
            None => None::<u32>,
        }),
{
    match telem.distance_mm {
        Some(d) => {
            if telem.valide {
                Some(d as u32)
            } else {
                None
            }
        },
        None => None,
    }
}

/// Capteur surveillé par les compteurs de santé.
#[derive(Debug, Clone, Copy, PartialEq, Eq)]
pub enum CapteurSurveille {
    Barometre,
    Telemetre,
    CentraleInertielle,
}

/// Compteurs de santé partagés entre tâches, lisibles depuis n'importe quel fil.
#[derive(Debug)]
pub struct SanteCapteurs {
    pub erreurs_baro: Arc<AtomicU32>,
    pub erreurs_telem: Arc<AtomicU32>,
    pub erreurs_imu: Arc<AtomicU32>,
    pub reinit_baro: Arc<AtomicU32>,
    pub reinit_telem: Arc<AtomicU32>,
    pub reinit_imu: Arc<AtomicU32>,
}

impl SanteCapteurs {
    /// Compteurs à zéro.
    pub fn nouveau() -> SanteCapteurs {
        SanteCapteurs {
            erreurs_baro: Arc::new(AtomicU32::new(0)),
            erreurs_telem: Arc::new(AtomicU32::new(0)),
            erreurs_imu: Arc::new(AtomicU32::new(0)),
            reinit_baro: Arc::new(AtomicU32::new(0)),
            reinit_telem: Arc::new(AtomicU32::new(0)),
            reinit_imu: Arc::new(AtomicU32::new(0)),
        }
    }

    /// Reporte sur les compteurs du capteur les incréments demandés par `action`.
    pub fn enregistrer(&self, capteur: CapteurSurveille, action: &ActionTache) {
        let (erreurs, reinit) = match capteur {
            CapteurSurveille::Barometre => (&self.erreurs_baro, &self.reinit_baro),
            CapteurSurveille::Telemetre => (&self.erreurs_telem, &self.reinit_telem),
            CapteurSurveille::CentraleInertielle => (&self.erreurs_imu, &self.reinit_imu),
        };
        if action.compter_erreur {
            erreurs.fetch_add(1, Ordering::Relaxed);
        }
        if action.compter_reinit {
            reinit.fetch_add(1, Ordering::Relaxed);
        }
    }
}

/// Sonde, avant le lancement des tâches, si les capteurs sont déjà configurés
/// et l'appareil en vol (redémarrage logiciel en l'air). La sonde des registres
/// n'étant pas encore définie, aucune reprise rapide n'est jamais détectée.
pub fn detecter_reprise_rapide<B: crate::hal::i2c::BusI2c>(bus: &B) -> (r: bool)
    ensures
        !r,
{
    false
}

/// Crée et initialise le baromètre sur le bus ; l'erreur est absorbée (la
/// tâche la compte et réessaie).
pub fn init_bmp280<B: BusI2c>(bus: B, calibration_valide: bool) -> (r: core::result::Result<Bmp280<B>, ()>)
    ensures
        r matches Ok(c) ==> (c.etat_capteur() is Operationnel || c.etat_capteur() is Configure)
            && (calibration_valide ==> c.etat_capteur() is Operationnel),
{
    let mut bmp = Bmp280::nouveau(bus);
    match bmp.initialiser(calibration_valide) {
        Ok(()) => Ok(bmp),
        Err(_) => Err(()),
    }
}

/// Crée et initialise le télémètre sur le bus, à son adresse par défaut ;
/// l'erreur est absorbée (la tâche la compte et réessaie).
pub fn init_vl53l0x<B: BusI2c>(bus: B, calibration_valide: bool) -> (r: core::result::Result<Vl53l0x<B>, ()>)
    ensures
        r matches Ok(c) ==> c.etat_capteur() == EtatCapteur::Operationnel,
        !bus.lecture_acceptee(ADRESSE_VL53L0X, seq![crate::drivers::telemetre::vl53l0x::IDENTIFICATION_MODEL_ID], 1) ==> r is Err,
{
    let mut vl53 = Vl53l0x::nouveau(bus, ADRESSE_VL53L0X);
    match vl53.initialiser(calibration_valide) {
        Ok(()) => Ok(vl53),
        Err(_) => Err(()),
    }
}

/// Crée la centrale inertielle à son adresse par défaut et en fait la partie
/// matérielle de l'initialisation (reprise rapide si `calibrations_valides`) ;
/// rend aussi les octets ASA d'une initialisation complète. L'erreur est
/// absorbée (la tâche la compte et réessaie).
pub fn init_mpu9250<B: BusI2c>(bus: B, calibrations_valides: bool) -> (r: core::result::Result<(Mpu9250<B>, Option<[u8; 3]>), ()>)
    ensures
        !(bus.lecture_acceptee(ADRESSE_MPU9250, seq![crate::drivers::imu::mpu9250::WHO_AM_I], 1)
            && bus.reponse(ADRESSE_MPU9250, seq![crate::drivers::imu::mpu9250::WHO_AM_I], 1)[0]
            == crate::drivers::imu::mpu9250::WHO_AM_I_ATTENDU) ==> r is Err,
        r matches Ok((m, asa)) ==> (asa is None <==> calibrations_valides)
            && (asa is None ==> m.etat() == EtatCapteur::Operationnel)
            && (asa is Some ==> m.etat() == EtatCapteur::Configure),
{
    let mut mpu = Mpu9250::nouveau(bus, ADRESSE_MPU9250);
    match mpu.initialiser_materiel(calibrations_valides) {
        Ok(asa) => Ok((mpu, asa)),
        Err(_) => Err(()),
    }
}

/// Suivi temporel des mesures inertielles : intervalle entre deux mesures
/// valides successives.
pub struct TraitementImu {
    dernier_horodatage: Option<Horodatage>,
}

impl TraitementImu {
    /// Horodatage de la dernière mesure valide traitée.
    pub closed spec fn dernier(&self) -> Option<Horodatage> {
        self.dernier_horodatage
    }

    /// Aucun horodatage de référence.
    pub fn nouveau() -> (t: TraitementImu)
        ensures
            t.dernier() is None,
    {
        TraitementImu { dernier_horodatage: None }
    }

    /// Horodatage de la dernière mesure valide traitée.
    pub fn dernier_horodatage(&self) -> (h: Option<Horodatage>)
        ensures
            h == self.dernier(),
    {
        self.dernier_horodatage
    }

    /// Traite l'horodatage d'une mesure (`None` : mesure invalide, ignorée
    /// sans toucher à la référence). Pour une mesure valide, rend l'intervalle
    /// depuis la précédente en µs (`None` pour la première, nul si l'horloge
    /// recule) et en fait la nouvelle référence.
    pub fn avancer(&mut self, horodatage: Option<Horodatage>) -> (r: Option<Option<u64>>)
        ensures
            (final(self).dernier(), r) == etape_imu(old(self).dernier(), horodatage),
            match horodatage {
                None => r is None && final(self).dernier() == old(self).dernier(),
                Some(h) => final(self).dernier() == Some(h) && r == Some(match old(self).dernier() {
                    None => None::<u64>,
                    Some(p) => Some(if h.micros >= p.micros { (h.micros - p.micros) as u64 } else { 0 }),
                }),
            },
    {
        match horodatage {
            None => None,
            Some(h) => {
                let dt = match self.dernier_horodatage {
                    None => None,
                    Some(p) => Some(h.delta_micros(p)),
                };
                self.dernier_horodatage = Some(h);
                Some(dt)
            },
        }
    }
}

/// Effet d'une mesure inertielle d'horodatage `h` (`None` : mesure invalide)
/// sur la référence `r` : nouvelle référence et intervalle rendu.
pub open spec fn etape_imu(r: Option<Horodatage>, h: Option<Horodatage>) -> (Option<Horodatage>, Option<Option<u64>>) {
    match h {
        None => (r, None),
        Some(h) => (Some(h), Some(match r {
            None => None::<u64>,
            Some(p) => Some(if h.micros >= p.micros { (h.micros - p.micros) as u64 } else { 0 }),
        })),
    }
}

/// Référence après les mesures `hs` traitées dans l'ordre depuis `r`.
pub open spec fn reference_apres(r: Option<Horodatage>, hs: Seq<Option<Horodatage>>) -> Option<Horodatage>
    decreases hs.len(),
{
    if hs.len() == 0 { r } else { etape_imu(reference_apres(r, hs.drop_last()), hs.last()).0 }
}

/// Dernier horodatage valide de `hs`, `r` s'il n'y en a aucun.
pub open spec fn dernier_valide(r: Option<Horodatage>, hs: Seq<Option<Horodatage>>) -> Option<Horodatage>
    decreases hs.len(),
{
    if hs.len() == 0 {
        r
    } else {
        match hs.last() {
            Some(h) => Some(h),
            None => dernier_valide(r, hs.drop_last()),
        }
    }
}

/// Après toute suite de mesures inertielles, la référence du traitement est
/// l'horodatage de la dernière mesure valide (les invalides l'ignorent) ; une
/// mesure valide rend l'intervalle depuis cette référence, en µs, nul si
/// l'horloge a reculé, et rien pour la toute première.
pub proof fn loi_reference_imu(r: Option<Horodatage>, hs: Seq<Option<Horodatage>>, h: Horodatage)
    ensures
        reference_apres(r, hs) == dernier_valide(r, hs),
        etape_imu(reference_apres(r, hs), Some(h)).1 == Some(match dernier_valide(r, hs) {
            None => None::<u64>,
            Some(p) => Some(if h.micros >= p.micros { (h.micros - p.micros) as u64 } else { 0 }),
        }),
    decreases hs.len(),
{
    if hs.len() > 0 {
        loi_reference_imu(r, hs.drop_last(), h);
    }
}


/// Issue d'une mesure du télémètre : une distance n'est publiée que si la
/// mesure l'a donnée et qu'elle est sous la portée ; seule une erreur autre
/// que l'absence d'obstacle en portée est un échec de lecture ; une mesure à
/// la portée ou au-delà est réussie mais non valide.
pub proof fn loi_issue_telemetre(lecture: Result<u16>, portee_max_mm: u16)
    ensures
        issue_telemetre(lecture, portee_max_mm).1 matches Some(d)
            ==> (lecture == Ok::<u16, ErreursAirHaum>(d) && d < portee_max_mm),
        match lecture {
            Ok(d) => d < portee_max_mm ==> issue_telemetre(lecture, portee_max_mm).1 == Some(d),
            Err(_) => issue_telemetre(lecture, portee_max_mm).1 is None,
        },
        issue_telemetre(lecture, portee_max_mm).0 is LectureEchouee
            <==> (lecture is Err && !(lecture matches Err(ErreursAirHaum::HorsPortee))),
        (lecture matches Ok(d) && d >= portee_max_mm)
            ==> issue_telemetre(lecture, portee_max_mm).0 == (EvenementTache::LectureReussie { valide: false }),
        lecture matches Err(ErreursAirHaum::HorsPortee)
            ==> issue_telemetre(lecture, portee_max_mm) == (EvenementTache::LectureReussie { valide: true }, None::<u16>),
{
}

} // verus!
