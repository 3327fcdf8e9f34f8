use vstd::prelude::*;

verus! {

/// The SRP-6a public ephemeral `A = g^a mod N` over the 2048-bit group, big-endian.
pub uninterp spec fn srp_public_of(a: Seq<u8>) -> Seq<u8>;

/// What processing the server's reply gives: the client proof `M1` and the
/// session key `K`, or `None` when the reply is illegal (`B mod N == 0`).
pub uninterp spec fn srp_reply_of(
    a: Seq<u8>,
    user: Seq<u8>,
    password: Seq<u8>,
    salt: Seq<u8>,
    b_pub: Seq<u8>,
) -> Option<(Seq<u8>, Seq<u8>)>;

/// The server proof `M2` that a correct server answers for the same exchange.
pub uninterp spec fn srp_server_proof_of(
    a: Seq<u8>,
    user: Seq<u8>,
    password: Seq<u8>,
    salt: Seq<u8>,
    b_pub: Seq<u8>,
) -> Seq<u8>;

/// Relies on srp's `SrpClient::<Sha256>::compute_public_ephemeral` over `G_2048`.
#[verifier::external_body]
pub fn srp_public_ephemeral(a: &[u8]) -> (r: Vec<u8>)
    ensures
        r@ == srp_public_of(a@),
{
    srp::client::SrpClient::<sha2::Sha256>::new(&srp::groups::G_2048).compute_public_ephemeral(a)
}

/// Relies on srp's `SrpClient::<Sha256>::process_reply` over `G_2048`, read
/// through the verifier's `proof` and `key`.
#[verifier::external_body]
pub fn srp_process_reply(a: &[u8], user: &[u8], password: &[u8], salt: &[u8], b_pub: &[u8]) -> (r: Option<(Vec<u8>, Vec<u8>)>)
    ensures
        match srp_reply_of(a@, user@, password@, salt@, b_pub@) {
            Some(t) => r matches Some((proof, key)) && proof@ == t.0 && key@ == t.1,
            None => r is None,
        },
{
    let client = srp::client::SrpClient::<sha2::Sha256>::new(&srp::groups::G_2048);
    let v = client.process_reply(a, user, password, salt, b_pub).ok()?;
    Some((v.proof().to_vec(), v.key().to_vec()))
}

/// Relies on srp's `SrpClientVerifier::verify_server`, on the verifier that
/// `process_reply` gives for the same inputs: it accepts exactly the expected `M2`.
#[verifier::external_body]
pub fn srp_verify_server(
    a: &[u8],
    user: &[u8],
    password: &[u8],
    salt: &[u8],
    b_pub: &[u8],
    m2: &[u8],
) -> (r: bool)
    ensures
        r == (srp_reply_of(a@, user@, password@, salt@, b_pub@) is Some
            && m2@ == srp_server_proof_of(a@, user@, password@, salt@, b_pub@)),
{
    let client = srp::client::SrpClient::<sha2::Sha256>::new(&srp::groups::G_2048);
    match client.process_reply(a, user, password, salt, b_pub) {
        Ok(v) => v.verify_server(m2).is_ok(),
        Err(_) => false,
    }
}

} // verus!
