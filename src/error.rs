use vstd::prelude::*;

verus! {

/// Failures surfaced by the authentication core.
#[derive(Debug, Clone)]
pub enum Error {
    /// Network, TLS, WebSocket or timeout failure reported by the host.
    Transport(String),
    /// A JSON or plist structure lacked what the protocol requires; holds the key.
    ParseProtocol(String),
    /// GrandSlam returned a nonzero `ec` with its message.
    AuthWithMessage(i64, String),
    /// The server proof did not match.
    NegotiationFailed,
    /// The SRP reply could not be processed (for example `B mod N == 0`).
    SrpReplyRejected,
    /// The server selected a password protocol other than `s2k` / `s2k_fo`.
    UnsupportedProtocol(String),
    /// An operation needs `adi_pb`, but the anisette state is not provisioned.
    AnisetteNotProvisioned,
    /// A named provisioning failure: the phase, and the server's message if any.
    Provisioning(String, Option<String>),
    /// The SMS code was refused: code, title and message of the service error.
    Bad2FACode(String, String, String),
    /// The SMS endpoint failed without a structured service error: status and body.
    SmsRejected(u16, String),
    /// The two-factor callback gave no code.
    No2FACodeProvided,
    /// An unknown `au` step with no PET token to fall back on.
    ExtraStepRequired(String),
    /// An operation needs the session private data, which is absent.
    NotLoggedIn,
    /// The login loop ran out of iterations.
    MaxLoginAttempts,
    /// Decryption or key setup failed.
    Decryption(String),
    /// The decrypted app-token bag carried a status other than 200.
    AppTokenStatus(i64),
}

} // verus!
