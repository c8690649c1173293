//! Addition on encrypted 32-bit unsigned integers: key generation, encryption,
//! homomorphic addition under an evaluation key, verification by decryption,
//! the byte form of every artifact, and the two renderings of the encrypted sum.

pub mod artifact;
pub mod blob;
pub mod ciphertext;
pub mod encoder;
pub mod keys;
pub mod mode;
pub mod pipeline;
pub mod report;
pub mod text;
pub mod verification;
