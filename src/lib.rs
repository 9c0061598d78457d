//! Certificate toolkit: a tag-length-value wire format, a certificate data
//! model encoded on it, signature back ends and a network-synchronised clock.

pub mod cert;
pub mod certificate;
pub mod crypto;
pub mod error;
pub mod keys;
pub mod name;
pub mod time;
pub mod tlv;
pub mod validity;

pub use cert::{CertSerializable, CertificateVersion, SignatureAlgorithm};
pub use certificate::{Certificate, TbsCertificate};
pub use crypto::{Ed25519, Falcon1024, Falcon512, SigningOperands};
pub use error::StpcError;
pub use keys::{Key, PrivateKey, PublicKey, Signature};
pub use name::DistinguishedName;
pub use time::{
    fetch_step, ntp_to_unix, ClockHandle, ClockState, FetchStep, NtpServers, TimeManager,
};
pub use tlv::{TLVParser, TLV};
pub use validity::Validity;
