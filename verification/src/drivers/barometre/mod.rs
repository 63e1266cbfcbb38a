//! Baromètre BMP280.
pub mod compensation;
pub mod bmp280;
