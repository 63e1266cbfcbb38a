//! GPS u-blox : parseur UBX, driver, encodage de l'assistance.
pub mod ubx_parser;
pub mod ublox;
pub mod calibration;
