//! ARRL Logbook of The World: uploads signed by TQSL, and the QSL report.
pub mod fetch;
pub mod upload;
