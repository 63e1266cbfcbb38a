//! Parseur UBX en flux : automate consommant un octet à la fois.
//!
//! Format d'une trame : `0xB5 0x62 CLASSE ID LEN_LSB LEN_MSB [PAYLOAD × LEN] CK_A CK_B`,
//! la somme de Fletcher (CK_A, CK_B) portant sur CLASSE..PAYLOAD. Une trame dont
//! la longueur dépasse [`TAILLE_MAX_PAYLOAD`] ou dont la somme est fausse est
//! ignorée et l'automate se resynchronise sur l'octet suivant.
use vstd::prelude::*;
use crate::hal::i2c::u16_le;

verus! {

/// Taille maximale du payload accepté.
pub const TAILLE_MAX_PAYLOAD: usize = 512;

/// États de l'automate.
#[derive(Debug, Clone, Copy, PartialEq, Eq)]
pub enum EtatParseur {
    AttenteSync1,
    AttenteSync2,
    LectureClasse,
    LectureId,
    LectureLongueurLsb,
    LectureLongueurMsb,
    LecturePayload,
    LectureCkA,
    LectureCkB,
}

/// NAV-PVT (0x01 / 0x07), champs en unités natives UBX.
#[derive(Debug, Clone, Copy)]
pub struct NavPvt {
    /// Temps GPS de la semaine (ms).
    pub i_tow: u32,
    /// 0 = pas de fix, 2 = 2D, 3 = 3D, 4 = GNSS + estime.
    pub fix_type: u8,
    pub flags: u8,
    /// Nombre de satellites utilisés.
    pub num_sv: u8,
    /// Longitude (1e-7 degré).
    pub lon: i32,
    /// Latitude (1e-7 degré).
    pub lat: i32,
    /// Hauteur ellipsoïdale (mm).
    pub height: i32,
    /// Altitude MSL (mm).
    pub h_msl: i32,
    /// Précision horizontale (mm).
    pub h_acc: u32,
    /// Précision verticale (mm).
    pub v_acc: u32,
    /// Vitesse Nord (mm/s).
    pub vel_n: i32,
    /// Vitesse Est (mm/s).
    pub vel_e: i32,
    /// Vitesse vers le bas (mm/s).
    pub vel_d: i32,
    /// Vitesse sol (mm/s).
    pub g_speed: i32,
    /// Cap de déplacement (1e-5 degré).
    pub head_mot: i32,
}

/// NAV-STATUS (0x01 / 0x03).
#[derive(Debug, Clone, Copy)]
pub struct NavStatus {
    pub i_tow: u32,
    pub gps_fix: u8,
    pub flags: u8,
    pub fix_stat: u8,
    /// Temps jusqu'au premier fix (ms).
    pub ttff: u32,
    /// Millisecondes depuis le démarrage.
    pub msss: u32,
}

/// NAV-DOP (0x01 / 0x04), facteurs × 100.
#[derive(Debug, Clone, Copy)]
pub struct NavDop {
    pub i_tow: u32,
    pub g_dop: u16,
    pub p_dop: u16,
    pub t_dop: u16,
    pub v_dop: u16,
    pub h_dop: u16,
    pub n_dop: u16,
    pub e_dop: u16,
}

/// En-tête du dernier message reconnu.
#[derive(Debug, Clone, Copy)]
pub struct EnteteMessage {
    pub classe: u8,
    pub id: u8,
    pub longueur: u16,
}

// ── Lecture petit-boutiste ──────────────────────────────────────────────────

/// Entier 32 bits petit-boutiste.
pub open spec fn u32_le(b0: u8, b1: u8, b2: u8, b3: u8) -> u32 {
    (b0 as int + 256 * b1 as int + 65536 * b2 as int + 16777216 * b3 as int) as u32
}

/// u16 petit-boutiste à l'offset `o`.
pub open spec fn u16_a(p: Seq<u8>, o: int) -> u16 {
    u16_le(p[o], p[o + 1])
}

/// u32 petit-boutiste à l'offset `o`.
pub open spec fn u32_a(p: Seq<u8>, o: int) -> u32 {
    u32_le(p[o], p[o + 1], p[o + 2], p[o + 3])
}

/// i32 petit-boutiste (complément à deux) à l'offset `o`.
pub open spec fn i32_a(p: Seq<u8>, o: int) -> i32 {
    u32_a(p, o) as i32
}

fn lire_u16(b: &[u8], o: usize) -> (r: Option<u16>)
    requires
        o <= usize::MAX - 2,
    ensures
        r == (if o + 2 <= b@.len() { Some(u16_a(b@, o as int)) } else { None }),
{
    if o + 2 <= b.len() {
        Some(b[o] as u16 + (b[o + 1] as u16) * 256)
    } else {
        None
    }
}

fn lire_u32(b: &[u8], o: usize) -> (r: Option<u32>)
    requires
        o <= usize::MAX - 4,
    ensures
        r == (if o + 4 <= b@.len() { Some(u32_a(b@, o as int)) } else { None }),
{
    if o + 4 <= b.len() {
        Some(b[o] as u32 + (b[o + 1] as u32) * 256 + (b[o + 2] as u32) * 65536 + (b[o + 3] as u32) * 16777216)
    } else {
        None
    }
}

fn lire_i32(b: &[u8], o: usize) -> (r: Option<i32>)
    requires
        o <= usize::MAX - 4,
    ensures
        r == (if o + 4 <= b@.len() { Some(i32_a(b@, o as int)) } else { None }),
{
    match lire_u32(b, o) {
        Some(v) => Some(v as i32),
        None => None,
    }
}

// ── Décodage des payloads ───────────────────────────────────────────────────

/// NAV-PVT décodé depuis un payload de `plen` octets.
pub open spec fn nav_pvt_de(p: Seq<u8>, plen: int) -> Option<NavPvt> {
    if plen < 44 {
        None
    } else {
        Some(NavPvt {
            i_tow: u32_a(p, 0),
            fix_type: p[20],
            flags: p[21],
            num_sv: p[23],
            lon: i32_a(p, 24),
            lat: i32_a(p, 28),
            height: i32_a(p, 32),
            h_msl: i32_a(p, 36),
            h_acc: u32_a(p, 40),
            v_acc: u32_a(p, 44),
            vel_n: if plen >= 52 { i32_a(p, 48) } else { 0 },
            vel_e: if plen >= 56 { i32_a(p, 52) } else { 0 },
            vel_d: if plen >= 60 { i32_a(p, 56) } else { 0 },
            g_speed: if plen >= 64 { i32_a(p, 60) } else { 0 },
            head_mot: if plen >= 68 { i32_a(p, 64) } else { 0 },
        })
    }
}

/// NAV-STATUS décodé depuis un payload de `plen` octets.
pub open spec fn nav_status_de(p: Seq<u8>, plen: int) -> Option<NavStatus> {
    if plen < 16 {
        None
    } else {
        Some(NavStatus {
            i_tow: u32_a(p, 0),
            gps_fix: p[4],
            flags: p[5],
            fix_stat: p[6],
            ttff: u32_a(p, 8),
            msss: u32_a(p, 12),
        })
    }
}

/// NAV-DOP décodé depuis un payload de `plen` octets.
pub open spec fn nav_dop_de(p: Seq<u8>, plen: int) -> Option<NavDop> {
    if plen < 18 {
        None
    } else {
        Some(NavDop {
            i_tow: u32_a(p, 0),
            g_dop: u16_a(p, 4),
            p_dop: u16_a(p, 6),
            t_dop: u16_a(p, 8),
            v_dop: u16_a(p, 10),
            h_dop: u16_a(p, 12),
            n_dop: u16_a(p, 14),
            e_dop: u16_a(p, 16),
        })
    }
}

// ── Modèle de l'automate ────────────────────────────────────────────────────

/// Vue abstraite du parseur.
pub struct VueParseur {
    pub etat: EtatParseur,
    pub classe: u8,
    pub id: u8,
    pub longueur: u16,
    pub idx_payload: usize,
    pub payload: Seq<u8>,
    pub ck_a: u8,
    pub ck_b: u8,
    pub last_entete: Option<EnteteMessage>,
    pub last_nav_pvt: Option<NavPvt>,
    pub last_nav_status: Option<NavStatus>,
    pub last_nav_dop: Option<NavDop>,
}

/// Invariant de l'automate.
pub open spec fn vue_valide(v: VueParseur) -> bool {
    &&& v.payload.len() == TAILLE_MAX_PAYLOAD
    &&& v.etat == EtatParseur::LectureLongueurMsb ==> v.longueur < 256
    &&& v.etat == EtatParseur::LecturePayload ==> v.idx_payload < v.longueur <= TAILLE_MAX_PAYLOAD
    &&& (v.etat == EtatParseur::LectureCkA || v.etat == EtatParseur::LectureCkB) ==> v.longueur <= TAILLE_MAX_PAYLOAD
    &&& v.last_entete matches Some(h) ==> h.longueur <= TAILLE_MAX_PAYLOAD
}

/// Mise à jour de la somme de Fletcher par un octet.
pub open spec fn fletcher_pas(ck_a: u8, ck_b: u8, octet: u8) -> (u8, u8) {
    (ck_a.wrapping_add(octet), ck_b.wrapping_add(ck_a.wrapping_add(octet)))
}

/// Somme de Fletcher d'une suite d'octets.
pub open spec fn fletcher(s: Seq<u8>) -> (u8, u8)
    decreases s.len(),
{
    if s.len() == 0 {
        (0, 0)
    } else {
        let (a, b) = fletcher(s.drop_last());
        fletcher_pas(a, b, s.last())
    }
}

/// Vue après accumulation de `octet` dans la somme de contrôle.
pub open spec fn accumuler(v: VueParseur, octet: u8) -> VueParseur {
    VueParseur { ck_a: fletcher_pas(v.ck_a, v.ck_b, octet).0, ck_b: fletcher_pas(v.ck_a, v.ck_b, octet).1, ..v }
}

/// Vue après une trame dont la somme est valide.
pub open spec fn trame_acceptee(v: VueParseur) -> VueParseur {
    let plen = v.longueur as int;
    let w = VueParseur {
        etat: EtatParseur::AttenteSync1,
        last_entete: Some(EnteteMessage { classe: v.classe, id: v.id, longueur: v.longueur }),
        ..v
    };
    if v.classe == 0x01 && v.id == 0x07 {
        VueParseur { last_nav_pvt: nav_pvt_de(v.payload, plen), ..w }
    } else if v.classe == 0x01 && v.id == 0x03 {
        VueParseur { last_nav_status: nav_status_de(v.payload, plen), ..w }
    } else if v.classe == 0x01 && v.id == 0x04 {
        VueParseur { last_nav_dop: nav_dop_de(v.payload, plen), ..w }
    } else {
        w
    }
}

/// Transition de l'automate sur un octet : (nouvelle vue, trame complète et valide).
#[verifier::opaque]
pub open spec fn etape(v: VueParseur, octet: u8) -> (VueParseur, bool) {
    match v.etat {
        EtatParseur::AttenteSync1 => (
            VueParseur {
                etat: if octet == 0xB5 { EtatParseur::AttenteSync2 } else { EtatParseur::AttenteSync1 },
                ..v
            },
            false,
        ),
        EtatParseur::AttenteSync2 => (
            if octet == 0x62 {
                VueParseur { etat: EtatParseur::LectureClasse, ck_a: 0, ck_b: 0, ..v }
            } else if octet != 0xB5 {
                VueParseur { etat: EtatParseur::AttenteSync1, ..v }
            } else {
                v
            },
            false,
        ),
        EtatParseur::LectureClasse => (
            VueParseur { classe: octet, etat: EtatParseur::LectureId, ..accumuler(v, octet) },
            false,
        ),
        EtatParseur::LectureId => (
            VueParseur { id: octet, etat: EtatParseur::LectureLongueurLsb, ..accumuler(v, octet) },
            false,
        ),
        EtatParseur::LectureLongueurLsb => (
            VueParseur { longueur: octet as u16, etat: EtatParseur::LectureLongueurMsb, ..accumuler(v, octet) },
            false,
        ),
        EtatParseur::LectureLongueurMsb => {
            let l = (v.longueur as int + 256 * octet as int) as u16;
            let w = VueParseur { longueur: l, ..accumuler(v, octet) };
            if l as int > TAILLE_MAX_PAYLOAD {
                (VueParseur { etat: EtatParseur::AttenteSync1, ..w }, false)
            } else {
                (
                    VueParseur {
                        idx_payload: 0,
                        etat: if l == 0 { EtatParseur::LectureCkA } else { EtatParseur::LecturePayload },
                        ..w
                    },
                    false,
                )
            }
        },
        EtatParseur::LecturePayload => {
            let p = if v.idx_payload < TAILLE_MAX_PAYLOAD { v.payload.update(v.idx_payload as int, octet) } else { v.payload };
            let i = (v.idx_payload + 1) as usize;
            (
                VueParseur {
                    payload: p,
                    idx_payload: i,
                    etat: if i >= v.longueur { EtatParseur::LectureCkA } else { EtatParseur::LecturePayload },
                    ..accumuler(v, octet)
                },
                false,
            )
        },
        EtatParseur::LectureCkA => (
            VueParseur {
                etat: if octet == v.ck_a { EtatParseur::LectureCkB } else { EtatParseur::AttenteSync1 },
                ..v
            },
            false,
        ),
        EtatParseur::LectureCkB => {
            if octet == v.ck_b {
                (trame_acceptee(v), true)
            } else {
                (VueParseur { etat: EtatParseur::AttenteSync1, ..v }, false)
            }
        },
    }
}

// ── Parseur ─────────────────────────────────────────────────────────────────

/// Parseur UBX en flux, sans allocation.
pub struct UbxParseur {
    etat: EtatParseur,
    classe: u8,
    id: u8,
    longueur: u16,
    idx_payload: usize,
    payload: [u8; 512],
    ck_a: u8,
    ck_b: u8,
    last_entete: Option<EnteteMessage>,
    last_nav_pvt: Option<NavPvt>,
    last_nav_status: Option<NavStatus>,
    last_nav_dop: Option<NavDop>,
}

impl UbxParseur {
    /// Vue abstraite du parseur.
    pub closed spec fn vue(&self) -> VueParseur {
        VueParseur {
            etat: self.etat,
            classe: self.classe,
            id: self.id,
            longueur: self.longueur,
            idx_payload: self.idx_payload,
            payload: self.payload@,
            ck_a: self.ck_a,
            ck_b: self.ck_b,
            last_entete: self.last_entete,
            last_nav_pvt: self.last_nav_pvt,
            last_nav_status: self.last_nav_status,
            last_nav_dop: self.last_nav_dop,
        }
    }

    /// Invariant du parseur.
    pub open spec fn inv(&self) -> bool {
        vue_valide(self.vue())
    }

    /// Parseur en attente de synchronisation, aucun message décodé.
    pub fn nouveau() -> (p: UbxParseur)
        ensures
            p.inv(),
            p.vue().etat == EtatParseur::AttenteSync1,
            p.vue().last_entete is None,
            p.vue().last_nav_pvt is None,
            p.vue().last_nav_status is None,
            p.vue().last_nav_dop is None,
            p.vue().classe == 0,
            p.vue().id == 0,
            p.vue().longueur == 0,
            p.vue().idx_payload == 0,
            p.vue().payload == Seq::new(512, |i: int| 0u8),
            p.vue().ck_a == 0,
            p.vue().ck_b == 0,
    {
        let p = UbxParseur {
            etat: EtatParseur::AttenteSync1,
            classe: 0,
            id: 0,
            longueur: 0,
            idx_payload: 0,
            payload: [0u8; 512],
            ck_a: 0,
            ck_b: 0,
            last_entete: None,
            last_nav_pvt: None,
            last_nav_status: None,
            last_nav_dop: None,
        };
        assert(p.payload@ =~= Seq::new(512, |i: int| 0u8));
        p
    }

    fn accumule_checksum(&mut self, octet: u8)
        ensures
            final(self).vue() == accumuler(old(self).vue(), octet),
    {
        self.ck_a = self.ck_a.wrapping_add(octet);
        self.ck_b = self.ck_b.wrapping_add(self.ck_a);
    }

    /// Alimente l'automate avec un octet ; vrai si une trame complète et
    /// valide vient d'être reconnue (les derniers messages sont alors à jour).
    pub fn alimenter(&mut self, octet: u8) -> (r: bool)
        requires
            old(self).inv(),
        ensures
            final(self).inv(),
            final(self).vue() == etape(old(self).vue(), octet).0,
            r == etape(old(self).vue(), octet).1,
    {
        reveal(etape);
        match self.etat {
            EtatParseur::AttenteSync1 => {
                if octet == 0xB5 {
                    self.etat = EtatParseur::AttenteSync2;
                }
                false
            },
            EtatParseur::AttenteSync2 => {
                if octet == 0x62 {
                    self.ck_a = 0;
                    self.ck_b = 0;
                    self.etat = EtatParseur::LectureClasse;
                } else if octet != 0xB5 {
                    self.etat = EtatParseur::AttenteSync1;
                }
                false
            },
            EtatParseur::LectureClasse => {
                self.classe = octet;
                self.accumule_checksum(octet);
                self.etat = EtatParseur::LectureId;
                false
            },
            EtatParseur::LectureId => {
                self.id = octet;
                self.accumule_checksum(octet);
                self.etat = EtatParseur::LectureLongueurLsb;
                false
            },
            EtatParseur::LectureLongueurLsb => {
                self.longueur = octet as u16;
                self.accumule_checksum(octet);
                self.etat = EtatParseur::LectureLongueurMsb;
                false
            },
            EtatParseur::LectureLongueurMsb => {
                self.longueur = self.longueur + (octet as u16) * 256;
                self.accumule_checksum(octet);
                if (self.longueur as usize) > TAILLE_MAX_PAYLOAD {
                    self.etat = EtatParseur::AttenteSync1;
                    return false;
                }
                self.idx_payload = 0;
                self.etat = if self.longueur == 0 {
                    EtatParseur::LectureCkA
                } else {
                    EtatParseur::LecturePayload
                };
                false
            },
            EtatParseur::LecturePayload => {
                if self.idx_payload < TAILLE_MAX_PAYLOAD {
                    self.payload[self.idx_payload] = octet;
                }
                self.idx_payload = self.idx_payload + 1;
                self.accumule_checksum(octet);
                if self.idx_payload >= self.longueur as usize {
                    self.etat = EtatParseur::LectureCkA;
                }
                false
            },
            EtatParseur::LectureCkA => {
                if octet == self.ck_a {
                    self.etat = EtatParseur::LectureCkB;
                } else {
                    self.etat = EtatParseur::AttenteSync1;
                }
                false
            },
            EtatParseur::LectureCkB => {
                let valide = octet == self.ck_b;
                self.etat = EtatParseur::AttenteSync1;
                if valide {
                    self.last_entete = Some(EnteteMessage {
                        classe: self.classe,
                        id: self.id,
                        longueur: self.longueur,
                    });
                    if self.classe == 0x01 && self.id == 0x07 {
                        self.parse_nav_pvt();
                    } else if self.classe == 0x01 && self.id == 0x03 {
                        self.parse_nav_status();
                    } else if self.classe == 0x01 && self.id == 0x04 {
                        self.parse_nav_dop();
                    }
                }
                valide
            },
        }
    }

    /// Dernier NAV-PVT décodé.
    pub fn last_nav_pvt(&self) -> (r: Option<NavPvt>)
        ensures
            r == self.vue().last_nav_pvt,
    {
        self.last_nav_pvt
    }

    /// Dernier NAV-STATUS décodé.
    pub fn last_nav_status(&self) -> (r: Option<NavStatus>)
        ensures
            r == self.vue().last_nav_status,
    {
        self.last_nav_status
    }

    /// Dernier NAV-DOP décodé.
    pub fn last_nav_dop(&self) -> (r: Option<NavDop>)
        ensures
            r == self.vue().last_nav_dop,
    {
        self.last_nav_dop
    }

    /// En-tête du dernier message reconnu.
    pub fn last_entete(&self) -> (r: Option<EnteteMessage>)
        ensures
            r == self.vue().last_entete,
    {
        self.last_entete
    }

    /// Copie le payload du dernier message dans `dest` ; retourne le nombre d'octets copiés.
    pub fn copier_payload(&self, dest: &mut [u8]) -> (n: usize)
        requires
            self.inv(),
        ensures
            final(dest)@.len() == old(dest)@.len(),
            n == match self.vue().last_entete {
                Some(h) => if (h.longueur as int) < old(dest)@.len() { h.longueur as int } else { old(dest)@.len() as int },
                None => 0,
            },
            final(dest)@ == self.vue().payload.take(n as int) + old(dest)@.skip(n as int),
    {
        match self.last_entete {
            Some(h) => {
                let n = if (h.longueur as usize) < dest.len() { h.longueur as usize } else { dest.len() };
                let mut i: usize = 0;
                while i < n
                    invariant
                        0 <= i <= n,
                        n <= dest@.len(),
                        n <= TAILLE_MAX_PAYLOAD,
                        dest@.len() == old(dest)@.len(),
                        self.payload@.len() == TAILLE_MAX_PAYLOAD,
                        forall|j: int| 0 <= j < i ==> dest@[j] == self.payload@[j],
                        forall|j: int| i <= j < dest@.len() ==> dest@[j] == old(dest)@[j],
                    decreases n - i,
                {
                    dest[i] = self.payload[i];
                    i = i + 1;
                }
                assert(dest@ =~= self.payload@.take(n as int) + old(dest)@.skip(n as int));
                n
            },
            None => {
                assert(dest@ =~= self.payload@.take(0) + old(dest)@.skip(0));
                0
            },
        }
    }

    fn parse_nav_pvt(&mut self)
        ensures
            final(self).vue() == (VueParseur {
                last_nav_pvt: nav_pvt_de(old(self).vue().payload, old(self).vue().longueur as int),
                ..old(self).vue()
            }),
    {
        let plen = self.longueur as usize;
        if plen < 44 {
            self.last_nav_pvt = None;
            return;
        }
        let p: &[u8] = &self.payload;
        let pvt = NavPvt {
            i_tow: lire_u32(p, 0).unwrap_or(0),
            fix_type: p[20],
            flags: p[21],
            num_sv: p[23],
            lon: lire_i32(p, 24).unwrap_or(0),
            lat: lire_i32(p, 28).unwrap_or(0),
            height: lire_i32(p, 32).unwrap_or(0),
            h_msl: lire_i32(p, 36).unwrap_or(0),
            h_acc: lire_u32(p, 40).unwrap_or(0),
            v_acc: lire_u32(p, 44).unwrap_or(0),
            vel_n: if plen >= 52 { lire_i32(p, 48).unwrap_or(0) } else { 0 },
            vel_e: if plen >= 56 { lire_i32(p, 52).unwrap_or(0) } else { 0 },
            vel_d: if plen >= 60 { lire_i32(p, 56).unwrap_or(0) } else { 0 },
            g_speed: if plen >= 64 { lire_i32(p, 60).unwrap_or(0) } else { 0 },
            head_mot: if plen >= 68 { lire_i32(p, 64).unwrap_or(0) } else { 0 },
        };
        self.last_nav_pvt = Some(pvt);
    }

    fn parse_nav_status(&mut self)
        ensures
            final(self).vue() == (VueParseur {
                last_nav_status: nav_status_de(old(self).vue().payload, old(self).vue().longueur as int),
                ..old(self).vue()
            }),
    {
        if (self.longueur as usize) < 16 {
            self.last_nav_status = None;
            return;
        }
        let p: &[u8] = &self.payload;
        self.last_nav_status = Some(NavStatus {
            i_tow: lire_u32(p, 0).unwrap_or(0),
            gps_fix: p[4],
            flags: p[5],
            fix_stat: p[6],
            ttff: lire_u32(p, 8).unwrap_or(0),
            msss: lire_u32(p, 12).unwrap_or(0),
        });
    }

    fn parse_nav_dop(&mut self)
        ensures
            final(self).vue() == (VueParseur {
                last_nav_dop: nav_dop_de(old(self).vue().payload, old(self).vue().longueur as int),
                ..old(self).vue()
            }),
    {
        if (self.longueur as usize) < 18 {
            self.last_nav_dop = None;
            return;
        }
        let p: &[u8] = &self.payload;
        self.last_nav_dop = Some(NavDop {
            i_tow: lire_u32(p, 0).unwrap_or(0),
            g_dop: lire_u16(p, 4).unwrap_or(0),
            p_dop: lire_u16(p, 6).unwrap_or(0),
            t_dop: lire_u16(p, 8).unwrap_or(0),
            v_dop: lire_u16(p, 10).unwrap_or(0),
            h_dop: lire_u16(p, 12).unwrap_or(0),
            n_dop: lire_u16(p, 14).unwrap_or(0),
            e_dop: lire_u16(p, 16).unwrap_or(0),
        });
    }
}


// ── Lois de l'automate ──────────────────────────────────────────────────────

/// Vue après avoir fourni les octets `s` un à un.
pub open spec fn alimenter_suite(v: VueParseur, s: Seq<u8>) -> VueParseur
    decreases s.len(),
{
    if s.len() == 0 {
        v
    } else {
        etape(alimenter_suite(v, s.drop_last()), s.last()).0
    }
}

/// Nombre de trames reconnues en fournissant les octets `s` un à un.
pub open spec fn trames_reconnues(v: VueParseur, s: Seq<u8>) -> nat
    decreases s.len(),
{
    if s.len() == 0 {
        0
    } else {
        trames_reconnues(v, s.drop_last()) + if etape(alimenter_suite(v, s.drop_last()), s.last()).1 {
            1nat
        } else {
            0nat
        }
    }
}

/// Corps d'une trame UBX : classe, identifiant, longueur (LE) et payload.
pub open spec fn corps_ubx(classe: u8, id: u8, payload: Seq<u8>) -> Seq<u8> {
    seq![classe, id, (payload.len() % 256) as u8, ((payload.len() / 256) % 256) as u8] + payload
}

/// Trame UBX dont les deux derniers octets sont `ck_a`, `ck_b`.
pub open spec fn trame_ubx_avec(classe: u8, id: u8, payload: Seq<u8>, ck_a: u8, ck_b: u8) -> Seq<u8> {
    seq![0xB5u8, 0x62u8] + corps_ubx(classe, id, payload) + seq![ck_a, ck_b]
}

/// Trame UBX bien formée (somme de Fletcher du corps).
pub open spec fn trame_ubx(classe: u8, id: u8, payload: Seq<u8>) -> Seq<u8> {
    trame_ubx_avec(classe, id, payload, fletcher(corps_ubx(classe, id, payload)).0,
        fletcher(corps_ubx(classe, id, payload)).1)
}

proof fn lemme_suite_push(v: VueParseur, s: Seq<u8>, o: u8)
    ensures
        alimenter_suite(v, s.push(o)) == etape(alimenter_suite(v, s), o).0,
        trames_reconnues(v, s.push(o)) == trames_reconnues(v, s) + if etape(alimenter_suite(v, s), o).1 {
            1nat
        } else {
            0nat
        },
{
    assert(s.push(o).drop_last() =~= s);
}

proof fn lemme_suite_concat(v: VueParseur, a: Seq<u8>, b: Seq<u8>)
    ensures
        alimenter_suite(v, a + b) == alimenter_suite(alimenter_suite(v, a), b),
        trames_reconnues(v, a + b) == trames_reconnues(v, a) + trames_reconnues(alimenter_suite(v, a), b),
    decreases b.len(),
{
    if b.len() == 0 {
        assert(a + b =~= a);
    } else {
        lemme_suite_concat(v, a, b.drop_last());
        assert((a + b).drop_last() =~= a + b.drop_last());
        assert((a + b).last() == b.last());
    }
}

proof fn lemme_fletcher_push(s: Seq<u8>, o: u8)
    ensures
        fletcher(s.push(o)) == fletcher_pas(fletcher(s).0, fletcher(s).1, o),
{
    assert(s.push(o).drop_last() =~= s);
}

proof fn lemme_payload(v: VueParseur, entete: Seq<u8>, payload: Seq<u8>, k: int)
    requires
        v.etat == EtatParseur::LecturePayload,
        v.idx_payload == 0,
        v.longueur as int == payload.len(),
        0 < payload.len() <= TAILLE_MAX_PAYLOAD,
        v.payload.len() == TAILLE_MAX_PAYLOAD,
        (v.ck_a, v.ck_b) == fletcher(entete),
        0 <= k <= payload.len(),
    ensures
        ({
            let w = alimenter_suite(v, payload.take(k));
            &&& w.etat == (if k < payload.len() { EtatParseur::LecturePayload } else { EtatParseur::LectureCkA })
            &&& w.idx_payload == k
            &&& (w.ck_a, w.ck_b) == fletcher(entete + payload.take(k))
            &&& w.payload.len() == TAILLE_MAX_PAYLOAD
            &&& w.payload.take(k) == payload.take(k)
            &&& w.classe == v.classe
            &&& w.id == v.id
            &&& w.longueur == v.longueur
            &&& w.last_entete == v.last_entete
            &&& w.last_nav_pvt == v.last_nav_pvt
            &&& w.last_nav_status == v.last_nav_status
            &&& w.last_nav_dop == v.last_nav_dop
            &&& trames_reconnues(v, payload.take(k)) == 0
        }),
    decreases k,
{
    reveal(etape);
    if k == 0 {
        assert(payload.take(0) =~= Seq::<u8>::empty());
        assert(entete + payload.take(0) =~= entete);
    } else {
        lemme_payload(v, entete, payload, k - 1);
        assert(payload.take(k) =~= payload.take(k - 1).push(payload[k - 1]));
        lemme_suite_push(v, payload.take(k - 1), payload[k - 1]);
        assert(entete + payload.take(k) =~= (entete + payload.take(k - 1)).push(payload[k - 1]));
        lemme_fletcher_push(entete + payload.take(k - 1), payload[k - 1]);
        let w0 = alimenter_suite(v, payload.take(k - 1));
        let w = alimenter_suite(v, payload.take(k));
        assert(w.payload == w0.payload.update(k - 1, payload[k - 1]));
        assert(w.payload.take(k) =~= payload.take(k));
    }
}

/// Six premiers octets d'une trame : synchronisation, classe, identifiant, longueur.
pub open spec fn entete_ubx(classe: u8, id: u8, n: nat) -> Seq<u8> {
    seq![0xB5u8, 0x62u8, classe, id, (n % 256) as u8, ((n / 256) % 256) as u8]
}

proof fn lemme_sync(v: VueParseur)
    requires
        v.etat == EtatParseur::AttenteSync1 || v.etat == EtatParseur::AttenteSync2,
    ensures
        ({
            let w = alimenter_suite(v, seq![0xB5u8, 0x62u8]);
            &&& w == VueParseur { etat: EtatParseur::LectureClasse, ck_a: 0, ck_b: 0, ..v }
            &&& trames_reconnues(v, seq![0xB5u8, 0x62u8]) == 0
        }),
{
    reveal(etape);
    let e0 = Seq::<u8>::empty();
    lemme_suite_push(v, e0, 0xB5u8);
    lemme_suite_push(v, e0.push(0xB5u8), 0x62u8);
    assert(seq![0xB5u8, 0x62u8] =~= e0.push(0xB5u8).push(0x62u8));
}

proof fn lemme_classe_id(v: VueParseur, classe: u8, id: u8)
    requires
        v.etat == EtatParseur::LectureClasse,
        v.ck_a == 0,
        v.ck_b == 0,
    ensures
        ({
            let w = alimenter_suite(v, seq![classe, id]);
            &&& w.etat == EtatParseur::LectureLongueurLsb
            &&& w.classe == classe
            &&& w.id == id
            &&& w.payload == v.payload
            &&& w.last_entete == v.last_entete
            &&& (w.ck_a, w.ck_b) == fletcher(seq![classe, id])
            &&& trames_reconnues(v, seq![classe, id]) == 0
        }),
{
    reveal(etape);
    let e0 = Seq::<u8>::empty();
    lemme_suite_push(v, e0, classe);
    lemme_suite_push(v, e0.push(classe), id);
    assert(seq![classe, id] =~= e0.push(classe).push(id));
    lemme_fletcher_push(e0, classe);
    lemme_fletcher_push(e0.push(classe), id);
}

proof fn lemme_pas_msb(v: VueParseur, hi: u8)
    requires
        v.etat == EtatParseur::LectureLongueurMsb,
        v.longueur as int + 256 * hi as int <= TAILLE_MAX_PAYLOAD,
    ensures
        ({
            let l = v.longueur as int + 256 * hi as int;
            let w = etape(v, hi);
            &&& !w.1
            &&& w.0 == VueParseur {
                longueur: l as u16,
                idx_payload: 0,
                etat: if l == 0 { EtatParseur::LectureCkA } else { EtatParseur::LecturePayload },
                ..accumuler(v, hi)
            }
        }),
{
    reveal(etape);
}

proof fn lemme_longueur(v: VueParseur, lo: u8, hi: u8, pre: Seq<u8>)
    requires
        v.etat == EtatParseur::LectureLongueurLsb,
        (v.ck_a, v.ck_b) == fletcher(pre),
        lo as int + 256 * hi as int <= TAILLE_MAX_PAYLOAD,
    ensures
        ({
            let n = lo as int + 256 * hi as int;
            let l = seq![lo, hi];
            let w = alimenter_suite(v, l);
            &&& w.etat == (if n == 0 { EtatParseur::LectureCkA } else { EtatParseur::LecturePayload })
            &&& w.idx_payload == 0
            &&& w.longueur as int == n
            &&& w.classe == v.classe
            &&& w.id == v.id
            &&& w.payload == v.payload
            &&& w.last_entete == v.last_entete
            &&& (w.ck_a, w.ck_b) == fletcher(pre + l)
            &&& trames_reconnues(v, l) == 0
        }),
{
    reveal(etape);
    let e0 = Seq::<u8>::empty();
    let w1 = etape(v, lo).0;
    assert(w1 == VueParseur { longueur: lo as u16, etat: EtatParseur::LectureLongueurMsb, ..accumuler(v, lo) });
    lemme_pas_msb(w1, hi);
    lemme_suite_push(v, e0, lo);
    lemme_suite_push(v, e0.push(lo), hi);
    assert(seq![lo, hi] =~= e0.push(lo).push(hi));
    lemme_fletcher_push(pre, lo);
    lemme_fletcher_push(pre.push(lo), hi);
    assert(pre + seq![lo, hi] =~= pre.push(lo).push(hi));
}

#[verifier::rlimit(100)]
proof fn lemme_entete(v: VueParseur, classe: u8, id: u8, n: nat)
    requires
        vue_valide(v),
        v.etat == EtatParseur::AttenteSync1 || v.etat == EtatParseur::AttenteSync2,
        n <= TAILLE_MAX_PAYLOAD,
    ensures
        ({
            let w = alimenter_suite(v, entete_ubx(classe, id, n));
            &&& w.etat == (if n == 0 { EtatParseur::LectureCkA } else { EtatParseur::LecturePayload })
            &&& w.idx_payload == 0
            &&& w.longueur as int == n
            &&& w.classe == classe
            &&& w.id == id
            &&& w.payload == v.payload
            &&& w.last_entete == v.last_entete
            &&& (w.ck_a, w.ck_b) == fletcher(seq![classe, id, (n % 256) as u8, ((n / 256) % 256) as u8])
            &&& trames_reconnues(v, entete_ubx(classe, id, n)) == 0
        }),
{
    let a = seq![0xB5u8, 0x62u8];
    let b = seq![classe, id];
    let l = seq![(n % 256) as u8, ((n / 256) % 256) as u8];
    lemme_sync(v);
    let v2 = alimenter_suite(v, a);
    lemme_classe_id(v2, classe, id);
    let v4 = alimenter_suite(v2, b);
    assert((n % 256) as u8 as int + 256 * ((n / 256) % 256) as u8 as int == n) by {
        assert(n / 256 <= 2);
        assert(n == 256 * (n / 256) + n % 256);
    }
    lemme_longueur(v4, (n % 256) as u8, ((n / 256) % 256) as u8, b);
    lemme_suite_concat(v, a, b);
    lemme_suite_concat(v, a + b, l);
    assert(entete_ubx(classe, id, n) =~= (a + b) + l);
    assert(b + l =~= seq![classe, id, (n % 256) as u8, ((n / 256) % 256) as u8]);
}

proof fn lemme_queue(v: VueParseur, ck_a: u8, ck_b: u8)
    requires
        v.etat == EtatParseur::LectureCkA,
    ensures
        ({
            let q = seq![ck_a, ck_b];
            let valide = ck_a == v.ck_a && ck_b == v.ck_b;
            let w = alimenter_suite(v, q);
            &&& trames_reconnues(v, q) == (if valide { 1nat } else { 0nat })
            &&& etape(alimenter_suite(v, seq![ck_a]), ck_b).1 == valide
            &&& valide ==> w.etat == EtatParseur::AttenteSync1
            &&& valide ==> w.last_entete == Some(EnteteMessage { classe: v.classe, id: v.id, longueur: v.longueur })
            &&& valide ==> w.payload == v.payload
            &&& w.etat == EtatParseur::AttenteSync1 || w.etat == EtatParseur::AttenteSync2
            &&& w.payload == v.payload
            &&& !valide ==> w.last_entete == v.last_entete
            &&& valide ==> w == trame_acceptee(v)
        }),
{
    reveal(etape);
    let e0 = Seq::<u8>::empty();
    lemme_suite_push(v, e0, ck_a);
    lemme_suite_push(v, e0.push(ck_a), ck_b);
    assert(seq![ck_a] =~= e0.push(ck_a));
    assert(seq![ck_a, ck_b] =~= e0.push(ck_a).push(ck_b));
}

/// Une trame UBX, fournie octet par octet à un parseur en attente de
/// synchronisation, est reconnue exactement une fois, à son dernier octet, si
/// et seulement si ses deux derniers octets sont la somme de Fletcher de son
/// corps ; sinon elle n'est pas reconnue du tout. Une trame reconnue ramène
/// le parseur en attente de synchronisation et met à jour l'en-tête du dernier
/// message et le payload mémorisé. Reconnue ou non, la trame laisse le
/// parseur dans un état valide en attente de synchronisation, prêt pour la
/// trame suivante.
#[verifier::rlimit(100)]
#[verifier::spinoff_prover]
pub proof fn loi_trame_ubx(v: VueParseur, classe: u8, id: u8, payload: Seq<u8>, ck_a: u8, ck_b: u8)
    requires
        vue_valide(v),
        v.etat == EtatParseur::AttenteSync1 || v.etat == EtatParseur::AttenteSync2,
        payload.len() <= TAILLE_MAX_PAYLOAD,
    ensures
        ({
            let t = trame_ubx_avec(classe, id, payload, ck_a, ck_b);
            let valide = (ck_a, ck_b) == fletcher(corps_ubx(classe, id, payload));
            let w = alimenter_suite(v, t);
            &&& trames_reconnues(v, t) == (if valide { 1nat } else { 0nat })
            &&& etape(alimenter_suite(v, t.drop_last()), t.last()).1 == valide
            &&& valide ==> w.etat == EtatParseur::AttenteSync1
            &&& valide ==> w.last_entete == Some(EnteteMessage { classe, id, longueur: payload.len() as u16 })
            &&& valide ==> w.payload.take(payload.len() as int) == payload
            &&& vue_valide(w)
            &&& w.etat == EtatParseur::AttenteSync1 || w.etat == EtatParseur::AttenteSync2
        }),
{
    let n = payload.len();
    let h = entete_ubx(classe, id, n);
    let entete = seq![classe, id, (n % 256) as u8, ((n / 256) % 256) as u8];
    lemme_entete(v, classe, id, n);
    let v6 = alimenter_suite(v, h);
    let corps = corps_ubx(classe, id, payload);
    assert(corps =~= entete + payload);
    let vp = alimenter_suite(v6, payload);
    assert((vp.ck_a, vp.ck_b) == fletcher(corps) && vp.etat == EtatParseur::LectureCkA
        && vp.classe == classe && vp.id == id && vp.longueur as int == n
        && vp.payload.len() == TAILLE_MAX_PAYLOAD && vp.last_entete == v.last_entete
        && vp.payload.take(n as int) == payload && trames_reconnues(v6, payload) == 0) by {
        if n == 0 {
            assert(payload =~= Seq::<u8>::empty());
            assert(entete + payload =~= entete);
            assert(vp.payload.take(0) =~= payload);
        } else {
            lemme_payload(v6, entete, payload, n as int);
            assert(payload.take(n as int) =~= payload);
        }
    }
    let t = trame_ubx_avec(classe, id, payload, ck_a, ck_b);
    let q = seq![ck_a, ck_b];
    lemme_suite_concat(v, h, payload);
    lemme_suite_concat(v, h + payload, q);
    lemme_queue(vp, ck_a, ck_b);
    assert(t =~= (h + payload) + q);
    assert(t.drop_last() =~= (h + payload) + seq![ck_a]);
    lemme_suite_concat(v, h + payload, seq![ck_a]);
    assert(n <= TAILLE_MAX_PAYLOAD);
    assert(vp.longueur == n as u16);
}

/// Entier non signé formé des quatre octets de `p` à partir de l'offset `o`,
/// octet de poids faible en tête (ordre des champs UBX).
pub open spec fn octets_le32(p: Seq<u8>, o: int) -> int {
    p[o] as int + 256 * p[o + 1] as int + 65536 * p[o + 2] as int + 16777216 * p[o + 3] as int
}

proof fn lemme_i32_u32(x: u32)
    by (bit_vector)
    ensures
        ((x as i32) as u32) == x,
{
}

/// État du parseur après l'en-tête et le payload d'une trame, avant sa somme.
proof fn lemme_corps_ubx(v: VueParseur, classe: u8, id: u8, payload: Seq<u8>) -> (vp: VueParseur)
    requires
        vue_valide(v),
        v.etat == EtatParseur::AttenteSync1 || v.etat == EtatParseur::AttenteSync2,
        payload.len() <= TAILLE_MAX_PAYLOAD,
    ensures
        vp == alimenter_suite(v, entete_ubx(classe, id, payload.len()) + payload),
        vp.etat == EtatParseur::LectureCkA,
        (vp.ck_a, vp.ck_b) == fletcher(corps_ubx(classe, id, payload)),
        vp.classe == classe,
        vp.id == id,
        vp.longueur as int == payload.len(),
        vp.payload.len() == TAILLE_MAX_PAYLOAD,
        vp.payload.take(payload.len() as int) == payload,
{
    let n = payload.len();
    let h = entete_ubx(classe, id, n);
    let entete = seq![classe, id, (n % 256) as u8, ((n / 256) % 256) as u8];
    lemme_entete(v, classe, id, n);
    let v6 = alimenter_suite(v, h);
    let corps = corps_ubx(classe, id, payload);
    assert(corps =~= entete + payload);
    let vp = alimenter_suite(v6, payload);
    assert((vp.ck_a, vp.ck_b) == fletcher(corps) && vp.etat == EtatParseur::LectureCkA
        && vp.classe == classe && vp.id == id && vp.longueur as int == n
        && vp.payload.len() == TAILLE_MAX_PAYLOAD
        && vp.payload.take(n as int) == payload) by {
        if n == 0 {
            assert(payload =~= Seq::<u8>::empty());
            assert(entete + payload =~= entete);
            assert(vp.payload.take(0) =~= payload);
        } else {
            lemme_payload(v6, entete, payload, n as int);
            assert(payload.take(n as int) =~= payload);
        }
    }
    lemme_suite_concat(v, h, payload);
    vp
}

/// Disposition du message NAV-PVT (classe 0x01, identifiant 0x07) : une
/// trame NAV-PVT bien formée, fournie octet par octet à un parseur en attente
/// de synchronisation, laisse comme dernier NAV-PVT les champs lus aux
/// offsets fixes de son payload, en petit-boutiste : iTOW en 0..4, fixType
/// en 20, flags en 21, numSV en 23, lon en 24..28, lat en 28..32, hMSL en
/// 36..40, height en 32..36, hAcc en 40..44, vAcc en 44..48, velN, velE,
/// velD, gSpeed et headMot en 48..68 (nuls si le payload s'arrête avant).
/// Un payload de moins de 44 octets ne laisse aucun NAV-PVT.
pub proof fn loi_nav_pvt(v: VueParseur, payload: Seq<u8>)
    requires
        vue_valide(v),
        v.etat == EtatParseur::AttenteSync1 || v.etat == EtatParseur::AttenteSync2,
        payload.len() <= TAILLE_MAX_PAYLOAD,
    ensures
        ({
            let w = alimenter_suite(v, trame_ubx(0x01, 0x07, payload));
            &&& payload.len() < 44 ==> w.last_nav_pvt is None
            &&& payload.len() >= 44 ==> (w.last_nav_pvt matches Some(pvt) && {
                &&& pvt.i_tow as int == octets_le32(payload, 0)
                &&& pvt.fix_type == payload[20]
                &&& pvt.flags == payload[21]
                &&& pvt.num_sv == payload[23]
                &&& pvt.lon as u32 as int == octets_le32(payload, 24)
                &&& pvt.lat as u32 as int == octets_le32(payload, 28)
                &&& pvt.h_msl as u32 as int == octets_le32(payload, 36)
                &&& pvt.h_acc as int == octets_le32(payload, 40)
                &&& payload.len() >= 48 ==> pvt.v_acc as int == octets_le32(payload, 44)
                &&& pvt.height as u32 as int == octets_le32(payload, 32)
                &&& pvt.vel_n as u32 as int == (if payload.len() >= 52 { octets_le32(payload, 48) } else { 0 })
                &&& pvt.vel_e as u32 as int == (if payload.len() >= 56 { octets_le32(payload, 52) } else { 0 })
                &&& pvt.vel_d as u32 as int == (if payload.len() >= 60 { octets_le32(payload, 56) } else { 0 })
                &&& pvt.g_speed as u32 as int == (if payload.len() >= 64 { octets_le32(payload, 60) } else { 0 })
                &&& pvt.head_mot as u32 as int == (if payload.len() >= 68 { octets_le32(payload, 64) } else { 0 })
            })
        }),
{
    let n = payload.len();
    let ck = fletcher(corps_ubx(0x01, 0x07, payload));
    let h = entete_ubx(0x01, 0x07, n);
    let vp = lemme_corps_ubx(v, 0x01, 0x07, payload);
    let q = seq![ck.0, ck.1];
    let t = trame_ubx(0x01, 0x07, payload);
    assert(t =~= (h + payload) + q);
    lemme_suite_concat(v, h + payload, q);
    lemme_queue(vp, ck.0, ck.1);
    let w = alimenter_suite(v, t);
    assert(w == trame_acceptee(vp));
    let b = vp.payload;
    assert forall|i: int| 0 <= i < n implies b[i] == payload[i] by {
        assert(b.take(n as int)[i] == b[i]);
    }
    assert forall|o: int| 0 <= o && o + 4 <= n implies #[trigger] (u32_a(b, o) as int) == octets_le32(payload, o) by {
        assert(b[o] == payload[o] && b[o + 1] == payload[o + 1] && b[o + 2] == payload[o + 2] && b[o + 3] == payload[o + 3]);
        assert(0 <= octets_le32(payload, o) <= u32::MAX);
    }
    if n >= 44 {
        assert(u32_a(b, 0) as int == octets_le32(payload, 0));
        assert(u32_a(b, 24) as int == octets_le32(payload, 24));
        assert(u32_a(b, 28) as int == octets_le32(payload, 28));
        assert(u32_a(b, 36) as int == octets_le32(payload, 36));
        assert(u32_a(b, 40) as int == octets_le32(payload, 40));
        lemme_i32_u32(u32_a(b, 24));
        lemme_i32_u32(u32_a(b, 28));
        lemme_i32_u32(u32_a(b, 36));
        if n >= 48 {
            assert(u32_a(b, 44) as int == octets_le32(payload, 44));
        }
        assert(u32_a(b, 32) as int == octets_le32(payload, 32));
        lemme_i32_u32(u32_a(b, 32));
        if n >= 52 {
            assert(u32_a(b, 48) as int == octets_le32(payload, 48));
            lemme_i32_u32(u32_a(b, 48));
        }
        if n >= 56 {
            assert(u32_a(b, 52) as int == octets_le32(payload, 52));
            lemme_i32_u32(u32_a(b, 52));
        }
        if n >= 60 {
            assert(u32_a(b, 56) as int == octets_le32(payload, 56));
            lemme_i32_u32(u32_a(b, 56));
        }
        if n >= 64 {
            assert(u32_a(b, 60) as int == octets_le32(payload, 60));
            lemme_i32_u32(u32_a(b, 60));
        }
        if n >= 68 {
            assert(u32_a(b, 64) as int == octets_le32(payload, 64));
            lemme_i32_u32(u32_a(b, 64));
        }
    }
}

/// Disposition du message NAV-STATUS (classe 0x01, identifiant 0x03) : une
/// trame bien formée, fournie à un parseur en attente de synchronisation,
/// laisse comme dernier NAV-STATUS iTOW en 0..4, gpsFix en 4, flags en 5,
/// fixStat en 6, ttff en 8..12 et msss en 12..16 (petit-boutiste) ; moins de
/// 16 octets de payload n'en laissent aucun.
pub proof fn loi_nav_status(v: VueParseur, payload: Seq<u8>)
    requires
        vue_valide(v),
        v.etat == EtatParseur::AttenteSync1 || v.etat == EtatParseur::AttenteSync2,
        payload.len() <= TAILLE_MAX_PAYLOAD,
    ensures
        ({
            let w = alimenter_suite(v, trame_ubx(0x01, 0x03, payload));
            &&& payload.len() < 16 ==> w.last_nav_status is None
            &&& payload.len() >= 16 ==> (w.last_nav_status matches Some(st) && {
                &&& st.i_tow as int == octets_le32(payload, 0)
                &&& st.gps_fix == payload[4]
                &&& st.flags == payload[5]
                &&& st.fix_stat == payload[6]
                &&& st.ttff as int == octets_le32(payload, 8)
                &&& st.msss as int == octets_le32(payload, 12)
            })
        }),
{
    let n = payload.len();
    let ck = fletcher(corps_ubx(0x01, 0x03, payload));
    let h = entete_ubx(0x01, 0x03, n);
    let vp = lemme_corps_ubx(v, 0x01, 0x03, payload);
    let q = seq![ck.0, ck.1];
    let t = trame_ubx(0x01, 0x03, payload);
    assert(t =~= (h + payload) + q);
    lemme_suite_concat(v, h + payload, q);
    lemme_queue(vp, ck.0, ck.1);
    let b = vp.payload;
    assert forall|i: int| 0 <= i < n implies b[i] == payload[i] by {
        assert(b.take(n as int)[i] == b[i]);
    }
    assert forall|o: int| 0 <= o && o + 4 <= n implies #[trigger] (u32_a(b, o) as int) == octets_le32(payload, o) by {
        assert(b[o] == payload[o] && b[o + 1] == payload[o + 1] && b[o + 2] == payload[o + 2] && b[o + 3] == payload[o + 3]);
    }
    if n >= 16 {
        assert(u32_a(b, 0) as int == octets_le32(payload, 0));
        assert(u32_a(b, 8) as int == octets_le32(payload, 8));
        assert(u32_a(b, 12) as int == octets_le32(payload, 12));
    }
}

/// Disposition du message NAV-DOP (classe 0x01, identifiant 0x04) : une
/// trame bien formée, fournie à un parseur en attente de synchronisation,
/// laisse comme dernier NAV-DOP iTOW en 0..4 puis gDOP, pDOP, tDOP, vDOP,
/// hDOP, nDOP et eDOP sur deux octets petit-boutistes chacun de 4 à 18 ;
/// moins de 18 octets de payload n'en laissent aucun.
pub proof fn loi_nav_dop(v: VueParseur, payload: Seq<u8>)
    requires
        vue_valide(v),
        v.etat == EtatParseur::AttenteSync1 || v.etat == EtatParseur::AttenteSync2,
        payload.len() <= TAILLE_MAX_PAYLOAD,
    ensures
        ({
            let w = alimenter_suite(v, trame_ubx(0x01, 0x04, payload));
            &&& payload.len() < 18 ==> w.last_nav_dop is None
            &&& payload.len() >= 18 ==> (w.last_nav_dop matches Some(dop) && {
                &&& dop.i_tow as int == octets_le32(payload, 0)
                &&& dop.g_dop as int == payload[4] as int + 256 * payload[5] as int
                &&& dop.p_dop as int == payload[6] as int + 256 * payload[7] as int
                &&& dop.t_dop as int == payload[8] as int + 256 * payload[9] as int
                &&& dop.v_dop as int == payload[10] as int + 256 * payload[11] as int
                &&& dop.h_dop as int == payload[12] as int + 256 * payload[13] as int
                &&& dop.n_dop as int == payload[14] as int + 256 * payload[15] as int
                &&& dop.e_dop as int == payload[16] as int + 256 * payload[17] as int
            })
        }),
{
    let n = payload.len();
    let ck = fletcher(corps_ubx(0x01, 0x04, payload));
    let h = entete_ubx(0x01, 0x04, n);
    let vp = lemme_corps_ubx(v, 0x01, 0x04, payload);
    let q = seq![ck.0, ck.1];
    let t = trame_ubx(0x01, 0x04, payload);
    assert(t =~= (h + payload) + q);
    lemme_suite_concat(v, h + payload, q);
    lemme_queue(vp, ck.0, ck.1);
    let b = vp.payload;
    assert forall|i: int| 0 <= i < n implies b[i] == payload[i] by {
        assert(b.take(n as int)[i] == b[i]);
    }
    if n >= 18 {
        assert(u32_a(b, 0) as int == octets_le32(payload, 0)) by {
            assert(b[0] == payload[0] && b[1] == payload[1] && b[2] == payload[2] && b[3] == payload[3]);
        }
        assert forall|o: int| 4 <= o && o + 2 <= 18 implies
            #[trigger] (u16_a(b, o) as int) == payload[o] as int + 256 * payload[o + 1] as int by {
            assert(b[o] == payload[o] && b[o + 1] == payload[o + 1]);
        }
        assert(u16_a(b, 4) as int == payload[4] as int + 256 * payload[5] as int);
        assert(u16_a(b, 6) as int == payload[6] as int + 256 * payload[7] as int);
        assert(u16_a(b, 8) as int == payload[8] as int + 256 * payload[9] as int);
        assert(u16_a(b, 10) as int == payload[10] as int + 256 * payload[11] as int);
        assert(u16_a(b, 12) as int == payload[12] as int + 256 * payload[13] as int);
        assert(u16_a(b, 14) as int == payload[14] as int + 256 * payload[15] as int);
        assert(u16_a(b, 16) as int == payload[16] as int + 256 * payload[17] as int);
    }
}

/// Flux formé des trames `fs` mises bout à bout ; chaque trame est donnée
/// par (classe, identifiant, payload, `ck_a`, `ck_b`).
pub open spec fn flux_ubx(fs: Seq<(u8, u8, Seq<u8>, u8, u8)>) -> Seq<u8>
    decreases fs.len(),
{
    if fs.len() == 0 {
        Seq::empty()
    } else {
        let f = fs.last();
        flux_ubx(fs.drop_last()) + trame_ubx_avec(f.0, f.1, f.2, f.3, f.4)
    }
}

/// Nombre de trames de `fs` dont les deux derniers octets sont la somme de
/// Fletcher de leur corps.
pub open spec fn trames_valides(fs: Seq<(u8, u8, Seq<u8>, u8, u8)>) -> nat
    decreases fs.len(),
{
    if fs.len() == 0 {
        0
    } else {
        let f = fs.last();
        trames_valides(fs.drop_last()) + if (f.3, f.4) == fletcher(corps_ubx(f.0, f.1, f.2)) { 1nat } else { 0nat }
    }
}

/// Un flux de trames UBX entières, fourni octet par octet à un parseur en
/// attente de synchronisation, fait reconnaître exactement ses trames dont la
/// somme de contrôle est valide, chacune une fois ; le parseur finit dans un
/// état valide en attente de synchronisation.
pub proof fn loi_flux_ubx(v: VueParseur, fs: Seq<(u8, u8, Seq<u8>, u8, u8)>)
    requires
        vue_valide(v),
        v.etat == EtatParseur::AttenteSync1 || v.etat == EtatParseur::AttenteSync2,
        forall|i: int| 0 <= i < fs.len() ==> (#[trigger] fs[i]).2.len() <= TAILLE_MAX_PAYLOAD,
    ensures
        trames_reconnues(v, flux_ubx(fs)) == trames_valides(fs),
        vue_valide(alimenter_suite(v, flux_ubx(fs))),
        alimenter_suite(v, flux_ubx(fs)).etat == EtatParseur::AttenteSync1
            || alimenter_suite(v, flux_ubx(fs)).etat == EtatParseur::AttenteSync2,
    decreases fs.len(),
{
    if fs.len() > 0 {
        let debut = fs.drop_last();
        assert forall|i: int| 0 <= i < debut.len() implies (#[trigger] debut[i]).2.len() <= TAILLE_MAX_PAYLOAD by {
            assert(debut[i] == fs[i]);
        }
        loi_flux_ubx(v, debut);
        let w = alimenter_suite(v, flux_ubx(debut));
        let f = fs.last();
        assert(f == fs[fs.len() - 1]);
        loi_trame_ubx(w, f.0, f.1, f.2, f.3, f.4);
        lemme_suite_concat(v, flux_ubx(debut), trame_ubx_avec(f.0, f.1, f.2, f.3, f.4));
    }
}

/// Pour tout état du parseur, un octet fait reconnaître une trame si et
/// seulement si le parseur attendait le second octet de somme de contrôle et
/// que l'octet est égal au second octet de la somme accumulée ; l'en-tête
/// mémorisé devient alors celui de la trame et le parseur revient en attente
/// de synchronisation. Sinon l'en-tête et les messages décodés mémorisés
/// restent inchangés.
pub proof fn loi_octet_ubx(v: VueParseur, octet: u8)
    ensures
        etape(v, octet).1 <==> (v.etat == EtatParseur::LectureCkB && octet == v.ck_b),
        etape(v, octet).1 ==> etape(v, octet).0.etat == EtatParseur::AttenteSync1
            && etape(v, octet).0.last_entete == Some(EnteteMessage { classe: v.classe, id: v.id, longueur: v.longueur }),
        !etape(v, octet).1 ==> {
            let w = etape(v, octet).0;
            &&& w.last_entete == v.last_entete
            &&& w.last_nav_pvt == v.last_nav_pvt
            &&& w.last_nav_status == v.last_nav_status
            &&& w.last_nav_dop == v.last_nav_dop
        },
{
    reveal(etape);
}

/// Corps de trame (classe, identifiant, longueur, payload) déjà lu par le
/// parseur dans l'état `v` depuis la dernière synchronisation.
pub open spec fn corps_lu(v: VueParseur) -> Seq<u8> {
    let l = v.longueur as int;
    let entete = seq![v.classe, v.id, (l % 256) as u8, ((l / 256) % 256) as u8];
    match v.etat {
        EtatParseur::LectureId => seq![v.classe],
        EtatParseur::LectureLongueurLsb => seq![v.classe, v.id],
        EtatParseur::LectureLongueurMsb => seq![v.classe, v.id, v.longueur as u8],
        EtatParseur::LecturePayload => entete + v.payload.take(v.idx_payload as int),
        EtatParseur::LectureCkA => entete + v.payload.take(l),
        EtatParseur::LectureCkB => entete + v.payload.take(l),
        _ => Seq::empty(),
    }
}

/// Octets lus depuis la dernière synchronisation, synchronisation comprise.
pub open spec fn trame_en_cours(v: VueParseur) -> Seq<u8> {
    if v.etat == EtatParseur::LectureCkB {
        seq![0xB5u8, 0x62u8] + corps_lu(v) + seq![v.ck_a]
    } else {
        seq![0xB5u8, 0x62u8] + corps_lu(v)
    }
}

/// `s` se termine par `t`.
pub open spec fn finit_par(s: Seq<u8>, t: Seq<u8>) -> bool {
    t.len() <= s.len() && s.skip(s.len() - t.len()) == t
}

/// L'état `v` du parseur est cohérent avec les octets `s` qu'il a reçus : en
/// cours de trame, `s` se termine par la synchronisation et le corps déjà lu,
/// et la somme de contrôle accumulée est celle de ce corps.
pub open spec fn coherent(v: VueParseur, s: Seq<u8>) -> bool {
    match v.etat {
        EtatParseur::AttenteSync1 => true,
        EtatParseur::AttenteSync2 => s.len() > 0 && s.last() == 0xB5,
        _ => finit_par(s, trame_en_cours(v)) && (v.ck_a, v.ck_b) == fletcher(corps_lu(v)),
    }
}

proof fn lemme_finit_par_push(s: Seq<u8>, t: Seq<u8>, o: u8)
    requires
        finit_par(s, t),
    ensures
        finit_par(s.push(o), t.push(o)),
{
    assert(s.push(o).skip(s.push(o).len() - t.push(o).len()) =~= s.skip(s.len() - t.len()).push(o));
}

#[verifier::rlimit(60)]
proof fn lemme_pas_coherent(v: VueParseur, s: Seq<u8>, o: u8)
    requires
        vue_valide(v),
        coherent(v, s),
    ensures
        vue_valide(etape(v, o).0),
        coherent(etape(v, o).0, s.push(o)),
{
    reveal(etape);
    let w = etape(v, o).0;
    let t = trame_en_cours(v);
    match v.etat {
        EtatParseur::AttenteSync1 => {},
        EtatParseur::AttenteSync2 => {
            if o == 0x62 {
                assert(s.push(o).skip(s.push(o).len() - 2) =~= seq![0xB5u8, 0x62u8]);
                assert(trame_en_cours(w) =~= seq![0xB5u8, 0x62u8]);
                assert(fletcher(Seq::<u8>::empty()) == (0u8, 0u8));
            }
        },
        EtatParseur::LectureClasse => {
            lemme_finit_par_push(s, t, o);
            assert(trame_en_cours(w) =~= t.push(o));
            lemme_fletcher_push(corps_lu(v), o);
            assert(corps_lu(w) =~= corps_lu(v).push(o));
        },
        EtatParseur::LectureId => {
            lemme_finit_par_push(s, t, o);
            assert(trame_en_cours(w) =~= t.push(o));
            lemme_fletcher_push(corps_lu(v), o);
            assert(corps_lu(w) =~= corps_lu(v).push(o));
        },
        EtatParseur::LectureLongueurLsb => {
            lemme_finit_par_push(s, t, o);
            assert(corps_lu(w) =~= corps_lu(v).push(o));
            assert(trame_en_cours(w) =~= t.push(o));
            lemme_fletcher_push(corps_lu(v), o);
        },
        EtatParseur::LectureLongueurMsb => {
            let l = v.longueur as int + 256 * o as int;
            if l <= TAILLE_MAX_PAYLOAD {
                lemme_finit_par_push(s, t, o);
                assert(w.longueur as int == l);
                assert((l % 256) as u8 == v.longueur as u8);
                assert(((l / 256) % 256) as u8 == o);
                assert(w.payload.take(0) =~= Seq::<u8>::empty());
                assert(corps_lu(w) =~= corps_lu(v).push(o));
                assert(trame_en_cours(w) =~= t.push(o));
                lemme_fletcher_push(corps_lu(v), o);
            }
        },
        EtatParseur::LecturePayload => {
            lemme_finit_par_push(s, t, o);
            let l = v.longueur as int;
            let i = v.idx_payload as int;
            assert(w.payload.take(i + 1) =~= v.payload.take(i).push(o));
            if i + 1 >= l {
                assert(corps_lu(w) =~= corps_lu(v).push(o));
            } else {
                assert(corps_lu(w) =~= corps_lu(v).push(o));
            }
            assert(trame_en_cours(w) =~= t.push(o));
            lemme_fletcher_push(corps_lu(v), o);
        },
        EtatParseur::LectureCkA => {
            if o == v.ck_a {
                lemme_finit_par_push(s, t, o);
                assert(corps_lu(w) =~= corps_lu(v));
                assert(trame_en_cours(w) =~= t.push(o));
            }
        },
        EtatParseur::LectureCkB => {},
    }
}

proof fn lemme_suite_coherente(v0: VueParseur, s: Seq<u8>)
    requires
        vue_valide(v0),
        v0.etat == EtatParseur::AttenteSync1,
    ensures
        vue_valide(alimenter_suite(v0, s)),
        coherent(alimenter_suite(v0, s), s),
    decreases s.len(),
{
    if s.len() > 0 {
        lemme_suite_coherente(v0, s.drop_last());
        lemme_pas_coherent(alimenter_suite(v0, s.drop_last()), s.drop_last(), s.last());
        assert(s.drop_last().push(s.last()) =~= s);
    }
}

/// Pour un parseur parti d'un état valide en attente de synchronisation (tel
/// celui que rend `nouveau`), après les octets `s` : l'octet `o` fait
/// reconnaître une trame seulement si `s` suivi de `o` se termine par une
/// trame UBX entière, de payload d'au plus 512 octets et de somme de contrôle
/// valide ; l'en-tête mémorisé devient celui de cette trame. Sinon l'en-tête
/// et les messages décodés mémorisés restent inchangés.
pub proof fn loi_octet_reconnu(v0: VueParseur, s: Seq<u8>, o: u8)
    requires
        vue_valide(v0),
        v0.etat == EtatParseur::AttenteSync1,
    ensures
        ({
            let v = alimenter_suite(v0, s);
            let (w, reconnu) = etape(v, o);
            &&& reconnu ==> exists|classe: u8, id: u8, payload: Seq<u8>| {
                &&& payload.len() <= TAILLE_MAX_PAYLOAD
                &&& #[trigger] finit_par(s.push(o), trame_ubx(classe, id, payload))
                &&& w.last_entete == Some(EnteteMessage { classe, id, longueur: payload.len() as u16 })
            }
            &&& !reconnu ==> w.last_entete == v.last_entete && w.last_nav_pvt == v.last_nav_pvt
                && w.last_nav_status == v.last_nav_status && w.last_nav_dop == v.last_nav_dop
        }),
{
    let v = alimenter_suite(v0, s);
    lemme_suite_coherente(v0, s);
    loi_octet_ubx(v, o);
    if etape(v, o).1 {
        reveal(etape);
        let l = v.longueur as int;
        let payload = v.payload.take(l);
        assert(l <= TAILLE_MAX_PAYLOAD);
        assert(corps_lu(v) =~= corps_ubx(v.classe, v.id, payload));
        let t = trame_en_cours(v);
        lemme_finit_par_push(s, t, o);
        assert(t.push(o) =~= trame_ubx(v.classe, v.id, payload));
        assert(payload.len() as u16 == v.longueur);
        assert(finit_par(s.push(o), trame_ubx(v.classe, v.id, payload)));
    }
}

/// Pour un parseur parti d'un état valide en attente de synchronisation (tel
/// celui que rend `nouveau`), si après les octets `s` il attend de nouveau
/// une synchronisation, une trame UBX de payload d'au plus 512 octets qui
/// suit est reconnue à son dernier octet si et seulement si sa somme de
/// contrôle est celle de son corps, et n'est reconnue qu'à cet octet.
pub proof fn loi_trame_apres_historique(v0: VueParseur, s: Seq<u8>, classe: u8, id: u8, payload: Seq<u8>, ck_a: u8, ck_b: u8)
    requires
        vue_valide(v0),
        v0.etat == EtatParseur::AttenteSync1,
        alimenter_suite(v0, s).etat == EtatParseur::AttenteSync1 || alimenter_suite(v0, s).etat == EtatParseur::AttenteSync2,
        payload.len() <= TAILLE_MAX_PAYLOAD,
    ensures
        ({
            let t = trame_ubx_avec(classe, id, payload, ck_a, ck_b);
            let valide = (ck_a, ck_b) == fletcher(corps_ubx(classe, id, payload));
            &&& etape(alimenter_suite(v0, s + t.drop_last()), t.last()).1 == valide
            &&& trames_reconnues(v0, s + t) == trames_reconnues(v0, s) + (if valide { 1nat } else { 0nat })
        }),
{
    let t = trame_ubx_avec(classe, id, payload, ck_a, ck_b);
    lemme_suite_coherente(v0, s);
    let v = alimenter_suite(v0, s);
    loi_trame_ubx(v, classe, id, payload, ck_a, ck_b);
    lemme_suite_concat(v0, s, t.drop_last());
    lemme_suite_concat(v0, s, t);
    assert(s + t.drop_last() =~= (s + t).drop_last());
}

} // verus!
