//! The benchmark scenarios: one implementation of the scenario interface
//! per benchmark kind, each pairing a request builder with a validator for
//! that request's response.

pub mod download_binary;
pub mod matrix_multiplication;
pub mod plaintext;
