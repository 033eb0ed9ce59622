//! Base64 text of rendered bytes, for documents embedded in an outcome event.

use vstd::prelude::*;

verus! {

/// The standard-alphabet, padded base64 text of a byte sequence.
pub uninterp spec fn spec_base64_standard(data: Seq<u8>) -> Seq<char>;

/// Largest input whose encoded length is certain to fit in memory.
pub open spec fn encodable_len(len: nat) -> bool {
    len <= usize::MAX / 4
}

/// `base64::Engine::encode` on `general_purpose::STANDARD`. The encoder panics
/// when the encoded length overflows, which the bound on the input rules out.
#[verifier::external_body]
pub(crate) fn base64_standard(data: &Vec<u8>) -> (text: String)
    requires
        encodable_len(data@.len()),
    ensures
        text@ == spec_base64_standard(data@),
{
    base64::Engine::encode(&base64::engine::general_purpose::STANDARD, data.as_slice())
}

/// Encodes `data` when it is short enough to encode, and says so otherwise.
pub fn encode_base64(data: &Vec<u8>) -> (text: Option<String>)
    ensures
        encodable_len(data@.len()) ==> text.is_some() && text.unwrap()@ == spec_base64_standard(
            data@,
        ),
        !encodable_len(data@.len()) ==> text.is_none(),
{
    if data.len() <= usize::MAX / 4 {
        Some(base64_standard(data))
    } else {
        None
    }
}

} // verus!
