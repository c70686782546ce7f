//! Hybrid (classical + post-quantum) key management and JWS signing over DID
//! documents, and the validation pipeline for credentials issued as JPTs.
pub mod alg;
pub mod text;
pub mod document;
pub mod external;
pub mod handle;
pub mod method;
pub mod keygen;
pub mod header;
pub mod signer;
pub mod validator;
