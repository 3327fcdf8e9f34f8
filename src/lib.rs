//! Client core for Apple's GrandSlam identity service: SRP login with the
//! `s2k` / `s2k_fo` password derivations, anisette device attestation,
//! request framing, two-factor flows and app-token decryption.
//!
//! No function here touches the network: each builds the request a caller
//! must send, or interprets the response a caller received.
use vstd::prelude::*;

pub mod account;
pub mod anisette;
pub mod crypto;
pub mod device_type;
pub mod error;
pub mod grandslam;
pub mod login;
pub mod plist;
pub mod requests;
pub mod srp;
pub mod text;

verus! {

} // verus!
