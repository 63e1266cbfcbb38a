//! Diagnostics matériels : séquences de test des capteurs, dont les résultats
//! sont rendus à l'appelant pour affichage.
use vstd::prelude::*;
use crate::hal::i2c::BusI2c;
use crate::interfaces::barometre::Barometre;
use crate::drivers::barometre::bmp280::{
    dans_les_plages, mesure_de, mesures_intactes, texte_id_invalide, Bmp280, ID_VALEUR_ATTENDUE, REG_ID, REG_PRESS_MSB,
};
use crate::drivers::barometre::compensation::{calibration_de, ADRESSE_BMP280, REG_CALIB_START};
use crate::types::{DonneesBarometre, ErreursAirHaum, Result};

verus! {

/// Nombre de lectures du test du baromètre.
pub const LECTURES_TEST_BMP280: usize = 5;

/// Pause entre deux lectures du test du baromètre (ms).
pub const PAUSE_TEST_BMP280_MS: u32 = 250;

/// Résultat du test du baromètre.
pub struct RapportBmp280 {
    /// Issue de l'initialisation.
    pub initialisation: Result<()>,
    /// Issues des lectures, dans l'ordre (aucune si l'initialisation a échoué).
    pub lectures: Vec<Result<DonneesBarometre>>,
}

/// Test du baromètre sur le bus `i2c` : initialisation d'un driver BMP280
/// (`calibration_valide` : une calibration au sol persistée et valide
/// existe), puis cinq lectures espacées de 250 ms si elle a réussi. Toute
/// lecture réussie est dans les plages plausibles. Sur un bus mémoire de
/// registres, un identifiant absent ou différent de 0x58 fait échouer
/// l'initialisation ; en service, chaque lecture réussie est la mesure
/// compensée des données brutes du bus avec ses coefficients.
pub fn tester_bmp280<I: BusI2c>(i2c: I, calibration_valide: bool) -> (r: RapportBmp280)
    ensures
        r.initialisation is Err ==> r.lectures.len() == 0,
        r.initialisation is Ok ==> r.lectures.len() == LECTURES_TEST_BMP280,
        forall|i: int| 0 <= i < r.lectures.len() ==> (#[trigger] r.lectures@[i] matches Ok(d) ==> dans_les_plages(d)),
        I::registres_memoire() && !(i2c.lecture_acceptee(ADRESSE_BMP280, seq![REG_ID], 1)
            && i2c.reponse(ADRESSE_BMP280, seq![REG_ID], 1)[0] == ID_VALEUR_ATTENDUE) ==> r.initialisation is Err,
        I::registres_memoire() && i2c.lecture_acceptee(ADRESSE_BMP280, seq![REG_ID], 1)
            && i2c.reponse(ADRESSE_BMP280, seq![REG_ID], 1)[0] != ID_VALEUR_ATTENDUE
            ==> (r.initialisation matches Err(e) && e matches ErreursAirHaum::DonneesInvalides(m)
                && m@ == texte_id_invalide(i2c.reponse(ADRESSE_BMP280, seq![REG_ID], 1)[0])),
        I::registres_memoire() && i2c.en_service() ==> forall|i: int| 0 <= i < r.lectures.len()
            ==> (#[trigger] r.lectures@[i] matches Ok(d) ==> mesure_de(
                calibration_de(i2c.reponse(ADRESSE_BMP280, seq![REG_CALIB_START], 24)),
                i2c.reponse(ADRESSE_BMP280, seq![REG_PRESS_MSB], 6)) == Some((d.pression_pa, d.temperature_centi))),
{
    let ghost bus0 = i2c;
    let mut bmp = Bmp280::nouveau(i2c);
    let initialisation = bmp.initialiser(calibration_valide);
    let mut lectures: Vec<Result<DonneesBarometre>> = Vec::new();
    if initialisation.is_ok() {
        let ghost c0 = calibration_de(bus0.reponse(ADRESSE_BMP280, seq![REG_CALIB_START], 24));
        let mut i: usize = 0;
        while i < LECTURES_TEST_BMP280
            invariant
                i <= LECTURES_TEST_BMP280,
                lectures.len() == i,
                forall|j: int| 0 <= j < lectures.len() ==> (#[trigger] lectures@[j] matches Ok(d) ==> dans_les_plages(d)),
                c0 == calibration_de(bus0.reponse(ADRESSE_BMP280, seq![REG_CALIB_START], 24)),
                I::registres_memoire() && bus0.en_service() ==> {
                    &&& bmp.bus().en_service()
                    &&& mesures_intactes(bmp.bus(), bus0)
                    &&& bmp.coefficients() == Some(c0)
                    &&& forall|j: int| 0 <= j < lectures.len() ==> (#[trigger] lectures@[j] matches Ok(d) ==> mesure_de(
                        c0, bus0.reponse(ADRESSE_BMP280, seq![REG_PRESS_MSB], 6)) == Some((d.pression_pa, d.temperature_centi)))
                },
            decreases LECTURES_TEST_BMP280 - i,
        {
            lectures.push(bmp.lire());
            bmp.pause(PAUSE_TEST_BMP280_MS);
            i = i + 1;
        }
    }
    RapportBmp280 { initialisation, lectures }
}

/// Somme des distances d'une série.
pub open spec fn somme_distances(s: Seq<u16>) -> int
    decreases s.len(),
{
    if s.len() == 0 {
        0
    } else {
        somme_distances(s.drop_last()) + s.last()
    }
}

/// Statistiques d'une série de mesures de distance (mm).
#[derive(Debug, Clone, Copy, PartialEq, Eq)]
pub struct StatistiquesDistances {
    pub min: u16,
    pub max: u16,
    /// Somme des mesures (la moyenne est `somme / nombre`).
    pub somme: u128,
    pub nombre: usize,
}

/// Minimum, maximum, somme et nombre des mesures ; `None` pour une série vide.
pub fn statistiques_distances(d: &Vec<u16>) -> (r: Option<StatistiquesDistances>)
    ensures
        r is None <==> d.len() == 0,
        r matches Some(st) ==> {
            &&& st.nombre == d.len()
            &&& st.somme == somme_distances(d@)
            &&& forall|i: int| 0 <= i < d.len() ==> st.min <= #[trigger] d@[i] <= st.max
            &&& exists|i: int| 0 <= i < d.len() && d@[i] == st.min
            &&& exists|i: int| 0 <= i < d.len() && d@[i] == st.max
        },
{
    if d.len() == 0 {
        return None;
    }
    let mut min = d[0];
    let mut max = d[0];
    let mut i_min: usize = 0;
    let mut i_max: usize = 0;
    let mut somme: u128 = d[0] as u128;
    let mut i: usize = 1;
    proof {
        assert(d@.take(1).drop_last() == d@.take(0));
        assert(d@.take(0).len() == 0);
        assert(somme_distances(d@.take(0)) == 0);
        assert(d@.take(1).last() == d@[0]);
        assert(somme_distances(d@.take(1)) == somme_distances(d@.take(0)) + d@[0]);
    }
    while i < d.len()
        invariant
            1 <= i <= d.len(),
            i_min < i,
            i_max < i,
            d@[i_min as int] == min,
            d@[i_max as int] == max,
            forall|j: int| 0 <= j < i ==> min <= #[trigger] d@[j] <= max,
            somme == somme_distances(d@.take(i as int)),
            somme <= 65535 * i,
        decreases d.len() - i,
    {
        let x = d[i];
        if x < min {
            min = x;
            i_min = i;
        }
        if x > max {
            max = x;
            i_max = i;
        }
        proof {
            assert(d@.take(i as int + 1).drop_last() == d@.take(i as int));
            assert(d@.take(i as int + 1).last() == x);
        }
        somme = somme + x as u128;
        i = i + 1;
    }
    proof {
        assert(d@.take(d.len() as int) == d@);
    }
    Some(StatistiquesDistances { min, max, somme, nombre: d.len() })
}

} // verus!
