//! Coefficients d'usine du BMP280 et compensation entière de la température
//! et de la pression (algorithme de la fiche technique Bosch, version 64 bits).
//!
//! Les calculs intermédiaires se font en entiers signés 32 bits (température)
//! et 64 bits (pression) ; un dépassement de capacité, qui n'arrive pas avec
//! des coefficients réels, donne `None` au lieu d'une valeur tronquée.
use vstd::prelude::*;
use crate::hal::i2c::{BusI2c, u16_le};
use crate::types::{ErreursAirHaum, Result};

verus! {

/// Adresse I²C par défaut du BMP280 (0x77 selon le câblage de SDO).
pub const ADRESSE_BMP280: u8 = 0x76;

/// Premier registre des coefficients de calibration (24 octets).
pub const REG_CALIB_START: u8 = 0x88;

/// Entier 16 bits signé petit-boutiste formé de deux octets.
pub open spec fn i16_le(lo: u8, hi: u8) -> i16 {
    let u = u16_le(lo, hi) as int;
    (if u >= 32768 { u - 65536 } else { u }) as i16
}

/// Coefficients de calibration d'usine, propres à chaque capteur.
#[derive(Debug, Clone, Copy, PartialEq, Eq)]
pub struct Calibration {
    pub dig_t1: u16,
    pub dig_t2: i16,
    pub dig_t3: i16,
    pub dig_p1: u16,
    pub dig_p2: i16,
    pub dig_p3: i16,
    pub dig_p4: i16,
    pub dig_p5: i16,
    pub dig_p6: i16,
    pub dig_p7: i16,
    pub dig_p8: i16,
    pub dig_p9: i16,
}

/// Coefficients décodés de la zone de calibration (24 octets petit-boutistes).
pub open spec fn calibration_de(o: Seq<u8>) -> Calibration {
    Calibration {
        dig_t1: u16_le(o[0], o[1]),
        dig_t2: i16_le(o[2], o[3]),
        dig_t3: i16_le(o[4], o[5]),
        dig_p1: u16_le(o[6], o[7]),
        dig_p2: i16_le(o[8], o[9]),
        dig_p3: i16_le(o[10], o[11]),
        dig_p4: i16_le(o[12], o[13]),
        dig_p5: i16_le(o[14], o[15]),
        dig_p6: i16_le(o[16], o[17]),
        dig_p7: i16_le(o[18], o[19]),
        dig_p8: i16_le(o[20], o[21]),
        dig_p9: i16_le(o[22], o[23]),
    }
}

fn assembler_i16_le(lo: u8, hi: u8) -> (v: i16)
    ensures
        v == i16_le(lo, hi),
{
    let u = crate::hal::i2c::assembler_u16_le(lo, hi);
    if u >= 32768 {
        (u as i32 - 65536) as i16
    } else {
        u as i16
    }
}

/// Valeur représentable en entier signé 32 bits.
pub open spec fn dans_i32(x: int) -> bool {
    i32::MIN <= x <= i32::MAX
}

/// Valeur représentable en entier signé 64 bits.
pub open spec fn dans_i64(x: int) -> bool {
    i64::MIN <= x <= i64::MAX
}

/// Division entière tronquée vers zéro (celle des entiers signés de Rust).
pub open spec fn div_tronquee(a: int, b: int) -> int {
    if b > 0 {
        if a >= 0 { a / b } else { -((-a) / b) }
    } else {
        if a >= 0 { -(a / (-b)) } else { (-a) / (-b) }
    }
}

/// Température compensée (centièmes de °C) et `t_fine`, ou `None` si un
/// produit intermédiaire dépasse 32 bits. Les décalages à droite de la fiche
/// technique sont des divisions par défaut.
pub open spec fn temperature_compensee(c: Calibration, adc_t: int) -> Option<(int, int)> {
    let m1 = (adc_t / 8 - 2 * c.dig_t1) * c.dig_t2;
    let d = adc_t / 16 - c.dig_t1;
    let m2 = d * d;
    let m3 = (m2 / 4096) * c.dig_t3;
    if dans_i32(m1) && dans_i32(m2) && dans_i32(m3) {
        let t_fine = m1 / 2048 + m3 / 16384;
        Some(((t_fine * 5 + 128) / 256, t_fine))
    } else {
        None
    }
}

/// Terme `var2` de la compensation de pression, ou `None` en cas de dépassement 64 bits.
pub open spec fn pression_var2(c: Calibration, v1: int) -> Option<int> {
    let a2 = v1 * v1 * c.dig_p6;
    let b2 = v1 * c.dig_p5 * 131072;
    let s1 = a2 + b2;
    let s2 = s1 + c.dig_p4 * 34359738368;
    if dans_i64(a2) && dans_i64(b2) && dans_i64(s1) && dans_i64(s2) { Some(s2) } else { None }
}

/// Terme `var1` (diviseur) de la compensation de pression, ou `None` en cas de dépassement 64 bits.
pub open spec fn pression_var1(c: Calibration, v1: int) -> Option<int> {
    let c1 = v1 * v1 * c.dig_p3;
    let v = c1 / 256 + v1 * c.dig_p2 * 4096;
    let d2 = (140737488355328 + v) * c.dig_p1;
    if dans_i64(c1) && dans_i64(d2) { Some(d2 / 8589934592) } else { None }
}

/// Pression en Q24.8 (Pa × 256), étape finale, ou `None` en cas de dépassement 64 bits.
pub open spec fn pression_q24_8(c: Calibration, adc_p: int, var1: int, var2: int) -> Option<int> {
    let e1 = (1048576 - adc_p) * 2147483648;
    let e2 = e1 - var2;
    let e3 = e2 * 3125;
    let p = div_tronquee(e3, var1);
    let f1 = p / 8192;
    let f2 = c.dig_p9 * f1;
    let f3 = f2 * f1;
    let g = c.dig_p8 * p;
    let h1 = p + f3 / 33554432;
    let h = h1 + g / 524288;
    if dans_i64(e1) && dans_i64(e2) && dans_i64(e3) && dans_i64(p) && dans_i64(f2) && dans_i64(f3)
        && dans_i64(g) && dans_i64(h1) && dans_i64(h) {
        Some(h / 256 + c.dig_p7 * 16)
    } else {
        None
    }
}

/// Pression compensée (Pa) ; 0 si le diviseur est nul ; `None` en cas de dépassement 64 bits.
pub open spec fn pression_compensee(c: Calibration, adc_p: int, t_fine: int) -> Option<u32> {
    let v1 = t_fine - 128000;
    match (pression_var2(c, v1), pression_var1(c, v1)) {
        (Some(var2), Some(var1)) => if var1 == 0 {
            Some(0u32)
        } else {
            match pression_q24_8(c, adc_p, var1, var2) {
                Some(q) => Some((q / 256) as u32),
                None => None,
            }
        },
        _ => None,
    }
}

proof fn lemme_shr_i32_3(x: i32) ensures (x >> 3u32) as int == (x as int) / 8 {
    assert(8 * ((x >> 3u32) as int) <= x as int && (x as int) < 8 * ((x >> 3u32) as int) + 8) by (bit_vector);
}

proof fn lemme_shr_i32_4(x: i32) ensures (x >> 4u32) as int == (x as int) / 16 {
    assert(16 * ((x >> 4u32) as int) <= x as int && (x as int) < 16 * ((x >> 4u32) as int) + 16) by (bit_vector);
}

proof fn lemme_shr_i32_8(x: i32) ensures (x >> 8u32) as int == (x as int) / 256 {
    assert(256 * ((x >> 8u32) as int) <= x as int && (x as int) < 256 * ((x >> 8u32) as int) + 256) by (bit_vector);
}

proof fn lemme_shr_i32_11(x: i32) ensures (x >> 11u32) as int == (x as int) / 2048 {
    assert(2048 * ((x >> 11u32) as int) <= x as int && (x as int) < 2048 * ((x >> 11u32) as int) + 2048) by (bit_vector);
}

proof fn lemme_shr_i32_12(x: i32) ensures (x >> 12u32) as int == (x as int) / 4096 {
    assert(4096 * ((x >> 12u32) as int) <= x as int && (x as int) < 4096 * ((x >> 12u32) as int) + 4096) by (bit_vector);
}

proof fn lemme_shr_i32_14(x: i32) ensures (x >> 14u32) as int == (x as int) / 16384 {
    assert(16384 * ((x >> 14u32) as int) <= x as int && (x as int) < 16384 * ((x >> 14u32) as int) + 16384) by (bit_vector);
}

proof fn lemme_shr_i64_8(x: i64) ensures (x >> 8u32) as int == (x as int) / 256 {
    assert(256 * ((x >> 8u32) as int) <= x as int && (x as int) < 256 * ((x >> 8u32) as int) + 256) by (bit_vector);
}

proof fn lemme_shr_i64_13(x: i64) ensures (x >> 13u32) as int == (x as int) / 8192 {
    assert(8192 * ((x >> 13u32) as int) <= x as int && (x as int) < 8192 * ((x >> 13u32) as int) + 8192) by (bit_vector);
}

proof fn lemme_shr_i64_19(x: i64) ensures (x >> 19u32) as int == (x as int) / 524288 {
    assert(524288 * ((x >> 19u32) as int) <= x as int && (x as int) < 524288 * ((x >> 19u32) as int) + 524288) by (bit_vector);
}

proof fn lemme_shr_i64_25(x: i64) ensures (x >> 25u32) as int == (x as int) / 33554432 {
    assert(33554432 * ((x >> 25u32) as int) <= x as int && (x as int) < 33554432 * ((x >> 25u32) as int) + 33554432) by (bit_vector);
}

proof fn lemme_shr_i64_33(x: i64) ensures (x >> 33u32) as int == (x as int) / 8589934592 {
    assert(8589934592 * ((x >> 33u32) as int) <= x as int && (x as int) < 8589934592 * ((x >> 33u32) as int) + 8589934592) by (bit_vector);
}

/// Produit de deux entiers 64 bits s'il est représentable.
fn produit_i64(a: i64, b: i64) -> (r: Option<i64>)
    ensures
        match r {
            Some(x) => x == a * b,
            None => !dans_i64(a * b),
        },
{
    a.checked_mul(b)
}

/// Somme de deux entiers 64 bits si elle est représentable.
fn somme_i64(a: i64, b: i64) -> (r: Option<i64>)
    ensures
        match r {
            Some(x) => x == a + b,
            None => !dans_i64(a + b),
        },
{
    a.checked_add(b)
}

impl Calibration {
    /// Lit les 24 octets de coefficients du capteur et les décode ; erreur
    /// `CalibrationEchouee` si `dig_T1` ou `dig_P1` est nul.
    pub fn lire_depuis_capteur<I: BusI2c>(i2c: &mut I) -> (r: Result<Calibration>)
        ensures
            final(i2c).ecritures() == old(i2c).ecritures(),
            I::registres_memoire() ==> *final(i2c) == *old(i2c),
            old(i2c).en_service() ==> final(i2c).en_service(),
            r is Ok <==> old(i2c).lecture_acceptee(ADRESSE_BMP280, seq![REG_CALIB_START], 24) && ({
                let c = calibration_de(old(i2c).reponse(ADRESSE_BMP280, seq![REG_CALIB_START], 24));
                c.dig_t1 != 0 && c.dig_p1 != 0
            }),
            old(i2c).lecture_acceptee(ADRESSE_BMP280, seq![REG_CALIB_START], 24) && r is Err
                ==> (r matches Err(e) && e is CalibrationEchouee),
            r is Ok ==> ({
                let c = calibration_de(old(i2c).reponse(ADRESSE_BMP280, seq![REG_CALIB_START], 24));
                &&& r == Ok::<Calibration, ErreursAirHaum>(c)
                &&& c.dig_t1 != 0
                &&& c.dig_p1 != 0
            }),
    {
        let mut b = [0u8; 24];
        let reg = [REG_CALIB_START];
        assert(reg@ == seq![REG_CALIB_START]);
        match i2c.ecrire_lire(ADRESSE_BMP280, &reg, &mut b) {
            Ok(()) => {},
            Err(e) => {
                return Err(e);
            },
        }
        let c = Calibration {
            dig_t1: crate::hal::i2c::assembler_u16_le(b[0], b[1]),
            dig_t2: assembler_i16_le(b[2], b[3]),
            dig_t3: assembler_i16_le(b[4], b[5]),
            dig_p1: crate::hal::i2c::assembler_u16_le(b[6], b[7]),
            dig_p2: assembler_i16_le(b[8], b[9]),
            dig_p3: assembler_i16_le(b[10], b[11]),
            dig_p4: assembler_i16_le(b[12], b[13]),
            dig_p5: assembler_i16_le(b[14], b[15]),
            dig_p6: assembler_i16_le(b[16], b[17]),
            dig_p7: assembler_i16_le(b[18], b[19]),
            dig_p8: assembler_i16_le(b[20], b[21]),
            dig_p9: assembler_i16_le(b[22], b[23]),
        };
        if c.dig_t1 == 0 || c.dig_p1 == 0 {
            return Err(ErreursAirHaum::CalibrationEchouee(String::from_str("Coefficients invalides (zéros)")));
        }
        Ok(c)
    }

    /// Température compensée (centièmes de °C) et `t_fine` pour la mesure brute `adc_t`.
    pub fn compenser_temperature(&self, adc_t: i32) -> (r: Option<(i32, i32)>)
        ensures
            match temperature_compensee(*self, adc_t as int) {
                Some((t, f)) => r == Some((t as i32, f as i32)) && dans_i32(t) && dans_i32(f),
                None => r is None,
            },
    {
        proof {
            lemme_shr_i32_3(adc_t);
            lemme_shr_i32_4(adc_t);
        }
        let a = (adc_t >> 3) - ((self.dig_t1 as i32) * 2);
        let m1 = match a.checked_mul(self.dig_t2 as i32) {
            Some(x) => x,
            None => {
                return None;
            },
        };
        let d = (adc_t >> 4) - (self.dig_t1 as i32);
        let m2 = match d.checked_mul(d) {
            Some(x) => x,
            None => {
                return None;
            },
        };
        proof {
            lemme_shr_i32_12(m2);
        }
        let m3 = match (m2 >> 12).checked_mul(self.dig_t3 as i32) {
            Some(x) => x,
            None => {
                return None;
            },
        };
        proof {
            lemme_shr_i32_11(m1);
            lemme_shr_i32_14(m3);
        }
        let t_fine = (m1 >> 11) + (m3 >> 14);
        let u = t_fine * 5 + 128;
        proof {
            lemme_shr_i32_8(u);
        }
        Some((u >> 8, t_fine))
    }

    /// Pression compensée (Pa) pour la mesure brute `adc_p`, à partir de `t_fine`.
    pub fn compenser_pression(&self, adc_p: i32, t_fine: i32) -> (r: Option<u32>)
        ensures
            r == pression_compensee(*self, adc_p as int, t_fine as int),
    {
        let v1: i64 = (t_fine as i64) - 128000;
        // var2
        assert(0 <= v1 * v1 <= 0x4010_0000_0000_0000) by (nonlinear_arith)
            requires
                -0x8002_0000 <= v1 <= 0x8000_0000;
        let a1 = v1 * v1;
        let a2 = match produit_i64(a1, self.dig_p6 as i64) { Some(x) => x, None => { return None; } };
        let b1 = match produit_i64(v1, self.dig_p5 as i64) { Some(x) => x, None => { return None; } };
        let b2 = match produit_i64(b1, 131072) { Some(x) => x, None => { return None; } };
        let s1 = match somme_i64(a2, b2) { Some(x) => x, None => { return None; } };
        let s2 = match somme_i64(s1, (self.dig_p4 as i64) * 34359738368) { Some(x) => x, None => { return None; } };
        let var2 = s2;
        // var1
        let c1 = match produit_i64(a1, self.dig_p3 as i64) { Some(x) => x, None => { return None; } };
        proof {
            lemme_shr_i64_8(c1);
        }
        assert(-0x4002_0000_0000 <= v1 * (self.dig_p2 as i64) <= 0x4002_0000_0000) by (nonlinear_arith)
            requires
                -0x8002_0000 <= v1 <= 0x8000_0000,
                -32768 <= self.dig_p2 <= 32767;
        let c3 = v1 * (self.dig_p2 as i64);
        let c4 = c3 * 4096;
        let v = (c1 >> 8) + c4;
        let d1 = 140737488355328 + v;
        let d2 = match produit_i64(d1, self.dig_p1 as i64) { Some(x) => x, None => { return None; } };
        proof {
            lemme_shr_i64_33(d2);
        }
        let var1 = d2 >> 33;
        if var1 == 0 {
            return Some(0);
        }
        // pression
        let p0: i64 = 1048576 - (adc_p as i64);
        let e1 = match produit_i64(p0, 2147483648) { Some(x) => x, None => { return None; } };
        let e2 = match e1.checked_sub(var2) { Some(x) => x, None => { return None; } };
        let e3 = match produit_i64(e2, 3125) { Some(x) => x, None => { return None; } };
        if e3 == i64::MIN && var1 == -1 {
            return None;
        }
        // Division tronquée : diviseur négatif ramené à un diviseur positif.
        let p = if var1 > 0 { e3 / var1 } else { -(e3 / (-var1)) };
        assert(p as int == div_tronquee(e3 as int, var1 as int));
        proof {
            lemme_shr_i64_13(p);
        }
        let f1 = p >> 13;
        let f2 = match produit_i64(self.dig_p9 as i64, f1) { Some(x) => x, None => { return None; } };
        let f3 = match produit_i64(f2, f1) { Some(x) => x, None => { return None; } };
        let g = match produit_i64(self.dig_p8 as i64, p) { Some(x) => x, None => { return None; } };
        proof {
            lemme_shr_i64_25(f3);
            lemme_shr_i64_19(g);
        }
        let h1 = match somme_i64(p, f3 >> 25) { Some(x) => x, None => { return None; } };
        let h = match somme_i64(h1, g >> 19) { Some(x) => x, None => { return None; } };
        proof {
            lemme_shr_i64_8(h);
        }
        let q = (h >> 8) + ((self.dig_p7 as i64) * 16);
        proof {
            lemme_shr_i64_8(q);
        }
        Some((q >> 8) as u32)
    }
}

} // verus!
