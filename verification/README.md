# AirHaum II — cœur vérifié du pilote automatique

Bibliothèque `airhaum` : la logique du pilote automatique d'un avion-drone,
écrite en Verus et prouvée contre ses contrats.

- `src/types.rs` — erreurs, horodatage, états des capteurs, mesures en unités entières.
- `src/hal/` — bus I²C et port série abstraits (modèle : journal des écritures,
  réponses, octets émis et entrants, prédicats d'acceptation) et leurs bus
  simulés en mémoire. Le bus simulé est une mémoire de registres
  (`registres_memoire`), en service tant qu'aucune panne n'est simulée
  (`en_service`), et le port simulé transfère tout (`ecriture_complete`,
  `lecture_complete`) : sur eux, les contrats des drivers fixent les octets
  émis, les valeurs lues et quand une mesure aboutit.
- `src/interfaces/` — traits des capteurs (baromètre, télémètre, GPS).
- `src/drivers/` — BMP280 (compensation entière de la fiche technique),
  VL53L0X, MPU9250 (niveau registres), récepteur u-blox (parseur UBX,
  configuration), liaison série avec la carte Arduino des servos.
- `src/taches/` — décisions des tâches capteurs : superviseur de reprise
  (réinitialisation au seuil, backoff exponentiel, suspension), santé,
  publication des mesures.
- `src/mission/` — machine à états du vol, bilan des calibrations et
  check-liste d'armement.
- `src/surete/` — états de sécurité.
- `src/systeme/` — textes des calibrations (TOML simple), journalisation
  (échappement JSON, filtrage du fil de vie), outils de texte.
- `src/diagnostiques.rs` — séquences de test des capteurs.

Les propriétés transverses sont des fonctions de preuve `loi_*`.

Les bus et ports matériels de `app/` (`I2cLinux`, `BusPartage`,
`PortSerieLinux`) gardent le modèle par défaut des traits (journal vide,
toute opération acceptée, réponses vides), qu'aucune implémentation réelle ne
peut tenir : les garanties des drivers valent pour les bus et ports de la
bibliothèque et pour tout bus qui tiendrait les contrats des traits, pas pour
ces implémentations matérielles, que rien ne vérifie.

`app/` est le programme de bord : bus Linux (`i2cdev`, `serialport`), fils et
canaux (`tokio`), journalisation (`log`, `chrono`), estimation d'attitude et de
navigation en virgule flottante, consoles opérateur.
