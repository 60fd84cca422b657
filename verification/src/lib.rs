//! Generation of asymmetric key pairs emitted as JSON Web Key (JWK)
//! documents: the parameter model with its defaults, the dispatch to the
//! EdDSA or RSA generation routine, the stamping of an optional key id,
//! and the rendering of the finished document as pretty-printed JSON.

pub mod cli;
pub mod command;
pub mod keygen;
pub mod laws;
pub mod model;
pub mod params;
pub mod text;

pub use params::EdCurveType;
pub use params::JwkAlgorithm;
pub use params::RsaDigestSize;
pub use params::GenerateJwkCommand;
