pub mod codesign;
pub mod signer;

pub use crate::security::Security;
pub use codesign::Codesign;
pub use signer::MacSigner;
pub mod laws;
