use vstd::prelude::*;
use crate::record::{ModelData, ModelResponse, RecordView, opt_view, copy_name};
use base64::Engine;

verus! {

/// The standard base64 text (RFC 4648 alphabet, `=` padding) of a byte
/// sequence, as base64's `STANDARD` engine writes it.
pub uninterp spec fn base64_of(b: Seq<u8>) -> Seq<char>;

#[verifier::external_type_specification]
#[verifier::external_body]
pub struct ExDecodeError(base64::DecodeError);

/// Relies on base64's `Engine::encode` with the `STANDARD` engine. It panics
/// only when the output length overflows `usize`, which a length of at most
/// `isize::MAX` rules out.
#[verifier::external_body]
fn encode_standard(b: &[u8]) -> (r: String)
    requires
        b@.len() <= isize::MAX,
    ensures
        r@ == base64_of(b@),
{
    base64::engine::general_purpose::STANDARD.encode(b)
}

/// Relies on base64's `Engine::decode` with the `STANDARD` engine, whose
/// configuration requires canonical padding and rejects trailing bits: it
/// succeeds on exactly the texts that the engine's `encode` writes, and then
/// returns the bytes that were encoded.
#[verifier::external_body]
fn decode_standard(s: &str) -> (r: Result<Vec<u8>, base64::DecodeError>)
    ensures
        forall|b: Seq<u8>| #[trigger] base64_of(b) == s@ <==> (r matches Ok(v) && v@ == b),
{
    base64::engine::general_purpose::STANDARD.decode(s)
}

/// The bytes that a base64 text stands for, if it is the standard encoding of
/// some byte sequence.
pub open spec fn decoded(s: Seq<char>) -> Option<Seq<u8>> {
    if exists|b: Seq<u8>| base64_of(b) == s {
        Some(choose|b: Seq<u8>| base64_of(b) == s)
    } else {
        None
    }
}

/// Why a payload text was refused.
pub struct PayloadError {
    /// What the decoder reported.
    pub detail: String,
}

/// Encodes raw payload bytes as standard base64 text.
pub fn encode_payload(b: &Vec<u8>) -> (r: String)
    requires
        b@.len() <= isize::MAX,
    ensures
        r@ == base64_of(b@),
{
    encode_standard(b.as_slice())
}

/// Decodes standard base64 text. It succeeds exactly on the texts that
/// `encode_payload` writes, and gives back the bytes that were encoded; so
/// decoding the encoding of any bytes returns those bytes.
pub fn decode_payload(s: &String) -> (r: Result<Vec<u8>, PayloadError>)
    ensures
        forall|b: Seq<u8>| #[trigger] base64_of(b) == s@ ==> (r matches Ok(v) && v@ == b),
        r is Ok <==> decoded(s@) is Some,
        r matches Ok(v) ==> decoded(s@) == Some(v@),
{
    match decode_standard(s.as_str()) {
        Ok(v) => {
            assert(base64_of(v@) == s@);
            Ok(v)
        },
        Err(e) => Err(PayloadError { detail: e.to_string() }),
    }
}

/// The wire form of a stored record.
pub open spec fn encoded_view(m: ModelData) -> RecordView {
    (m.id as int, opt_view(m.name), base64_of(m.model_data@))
}

/// Turns a stored record into its wire form, encoding the payload.
pub fn encode_record(m: &ModelData) -> (r: ModelResponse)
    requires
        m.model_data@.len() <= isize::MAX,
    ensures
        r@ == encoded_view(*m),
{
    ModelResponse { id: m.id, name: copy_name(&m.name), model_data: encode_payload(&m.model_data) }
}

} // verus!
