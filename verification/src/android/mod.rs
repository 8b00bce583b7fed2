pub mod signer;

pub use signer::AndroidSigner;
