//! The trusted boundary to the Fuel SDK's compute-only calls: decoding the
//! configured secret key into a keypair, and decoding a receiver address
//! from its bech32 text form.
//!
//! Both decoders are deterministic functions of their input text alone, so
//! each gets an uninterpreted name for "this text decodes", and the pipeline
//! is verified against those names.

use vstd::prelude::*;

verus! {

/// The signing curve's secret key, derived from the configured key text.
#[verifier::external_type_specification]
#[verifier::external_body]
pub struct ExSecretKey(fuel_crypto::SecretKey);

/// The network's native address encoding for a receiver.
#[verifier::external_type_specification]
#[verifier::external_body]
pub struct ExBech32Address(fuels_core::types::bech32::Bech32Address);

/// Whether the key text decodes to a valid private-key scalar for the
/// signing curve: 32 bytes of hex, optionally `0x`-prefixed, within the
/// curve order. Decided by the Fuel SDK; a function of the text alone.
pub uninterp spec fn is_valid_secret_key(s: Seq<char>) -> bool;

/// Whether the address text passes the network's bech32 decoding and
/// checksum rules with a 32-byte payload. Decided by the Fuel SDK; a
/// function of the text alone.
pub uninterp spec fn is_valid_receiver_address(s: Seq<char>) -> bool;

/// Relies on `fuel_crypto::SecretKey::from_str`: hex-decodes the key text
/// and checks it is a valid scalar, succeeding exactly on valid key text;
/// its error's display text is returned on failure.
#[verifier::external_body]
pub(crate) fn decode_secret_key(s: &str) -> (r: Result<fuel_crypto::SecretKey, String>)
    ensures
        r is Ok <==> is_valid_secret_key(s@),
{
    <fuel_crypto::SecretKey as core::str::FromStr>::from_str(s).map_err(|e| e.to_string())
}

/// Relies on `Bech32Address::from_str` of the Fuel SDK: bech32-decodes the
/// address text into a 32-byte hash, succeeding exactly on well-formed
/// address text; its error's display text is returned on failure.
#[verifier::external_body]
pub(crate) fn decode_receiver_address(s: &str) -> (r: Result<
    fuels_core::types::bech32::Bech32Address,
    String,
>)
    ensures
        r is Ok <==> is_valid_receiver_address(s@),
{
    <fuels_core::types::bech32::Bech32Address as core::str::FromStr>::from_str(s).map_err(
        |e| e.to_string(),
    )
}

} // verus!
