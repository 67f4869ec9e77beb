use crate::hex_text::{decode_hex, encode_hex, hex_decoded, hex_lower, is_hex_text, without_hex_prefix};
use vstd::prelude::*;
use vstd::string::StringSliceAdditionalSpecFns;
use vstd::utf8::is_char_boundary;

verus! {

/// The parameters of an Ethereum call.
#[derive(Clone, Debug)]
pub struct EthCallParams {
    pub to: String,
    pub data: String,
}

/// A JSON-RPC request for an Ethereum call.
#[derive(Debug)]
pub struct EthCallJsonRpcRequest {
    pub id: u64,
    pub jsonrpc: String,
    pub method: String,
    pub params: (EthCallParams, String),
}

/// `data` as `0x` followed by two lower-case hex digits for each byte.
pub fn to_hex(data: &[u8]) -> (r: String)
    ensures
        r@ == seq!['0', 'x'] + hex_lower(data@),
{
    let digits = encode_hex(data);
    let mut r = String::from_str("0x");
    r.append(digits.as_str());
    proof {
        reveal_strlit("0x");
    }
    assert(r@ =~= seq!['0', 'x'] + hex_lower(data@));
    r
}

/// The bytes spelled by the hex digits that follow the first two bytes of
/// `data` (a `0x` prefix, which is not checked); a second `0x` or `0X` after
/// it is dropped too.
pub fn from_hex(data: &str) -> (r: Result<Vec<u8>, ethers_core::utils::hex::FromHexError>)
    requires
        data.spec_bytes().len() >= 2,
        is_char_boundary(data.spec_bytes(), 2),
    ensures
        ({
            let digits = data.spec_bytes().subrange(2, data.spec_bytes().len() as int);
            let valid = digits.len() % 2 == 0 && is_hex_text(without_hex_prefix(digits));
            match r {
                Ok(v) => valid && v@ == hex_decoded(without_hex_prefix(digits)),
                Err(_) => !valid,
            }
        }),
{
    let (_, digits) = data.split_at(2);
    decode_hex(digits)
}

} // verus!
