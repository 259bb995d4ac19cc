//! eQSL.cc: uploads of ADIF text, and the inbox of confirmations.
pub mod fetch;
pub mod upload;
