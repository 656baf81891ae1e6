//! Arithmetic-circuit definitions for verifiable ElGamal encryption.
//!
//! The core is a proof relation — "ciphertext `C` is the ElGamal
//! encryption, under public key `PK` and nonce `r`, of plaintext `m`"
//! — together with everything it is built from: the native scheme
//! that serves as the reference relation, the constraint-system
//! substrate the relation populates, circuit-level mirrors of every
//! native data type, and the encryption gadget that recomputes the
//! ciphertext in-circuit with bitwise double-and-add scalar
//! multiplication over the nonce's canonical byte-and-bit
//! decomposition.
//!
//! The scheme and the relation are stated and proved over a model
//! group — the additive cyclic group of prime order `Q` — where every
//! group law is within the verifier's reach; the same scheme also
//! runs over a real twisted Edwards curve, with the outside curve
//! engine's operations as named, trusted functions of point
//! encodings.

pub mod modular;
pub mod group;
pub mod elgamal;
pub mod serialize;
pub mod r1cs;
pub mod constraints;
pub mod circuit;
pub mod simple_circuits;
pub mod curve;
