pub mod authn;
pub mod base64text;
pub mod bigendian;
pub mod buffer;
pub mod clock;
pub mod digest;
pub mod ed25519;
pub mod lemmas;
pub mod pwhash;
