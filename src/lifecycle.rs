use crate::evm_rpc::RpcService;
use crate::guard::ActiveTasks;
use crate::hex_text::{hex_decoded, is_hex_text, without_hex_prefix};
use crate::state::{EcdsaKeyId, EventStore, EvmAddress, InvalidStateError, State};
use vstd::prelude::*;
use vstd::string::StringSliceAdditionalSpecFns;
use vstd::utf8::encode_utf8;

verus! {

/// The configuration that the process starts from.
#[derive(Debug, Clone)]
pub struct InitArg {
    pub rpc_service: RpcService,
    pub chain_id: u64,
    pub filter_addresses: Vec<String>,
    pub coprocessor_evm_address: String,
    pub filter_events: Vec<String>,
    pub ecdsa_key_id: EcdsaKeyId,
}

/// An address as text: an optional `0x` or `0X`, then exactly 40 hex digits
/// of either case.
pub open spec fn is_address_text(s: Seq<char>) -> bool {
    let digits = without_hex_prefix(encode_utf8(s));
    digits.len() == 40 && is_hex_text(digits)
}

/// The address that such a text spells.
pub open spec fn address_of_text(s: Seq<char>) -> Seq<u8> {
    hex_decoded(without_hex_prefix(encode_utf8(s)))
}

/// The text that starts the message of an invalid address error.
pub open spec fn error_prefix() -> Seq<char> {
    seq!['E', 'R', 'R', 'O', 'R', ':', ' ']
}

/// Whether `m` starts with [`error_prefix`].
pub open spec fn is_error_message(m: Seq<char>) -> bool {
    m.len() >= 7 && m.subrange(0, 7) == error_prefix()
}

/// Relies on alloy's `Address::from_str`, which is
/// `const_hex::decode_to_array::<20>`: it strips one leading `0x` or `0X` and
/// takes exactly 40 hex digits of either case, two digits a byte. The error
/// is handed on as its message.
#[verifier::external_body]
fn parse_address(s: &str) -> (r: Result<EvmAddress, String>)
    ensures
        match r {
            Ok(a) => is_address_text(s@) && a@ == address_of_text(s@),
            Err(_) => !is_address_text(s@),
        },
{
    match <alloy::primitives::Address as std::str::FromStr>::from_str(s) {
        Ok(a) => Ok(a.0.0),
        Err(e) => Err(e.to_string()),
    }
}

/// Parses one configured address; a malformed one is an
/// `InvalidEthereumContractAddress` error whose message starts with `ERROR: `.
fn validate_address(s: &String) -> (r: Result<EvmAddress, InvalidStateError>)
    ensures
        match r {
            Ok(a) => is_address_text(s@) && a@ == address_of_text(s@),
            Err(InvalidStateError::InvalidEthereumContractAddress(m)) => !is_address_text(s@)
                && is_error_message(m@),
        },
{
    match parse_address(s.as_str()) {
        Ok(a) => Ok(a),
        Err(e) => {
            let mut msg = String::from_str("ERROR: ");
            msg.append(e.as_str());
            proof {
                reveal_strlit("ERROR: ");
                assert(msg@.subrange(0, 7) =~= error_prefix());
            }
            Err(InvalidStateError::InvalidEthereumContractAddress(msg))
        },
    }
}

impl State {
    /// The initial state for a configuration: every address is validated, the
    /// store and the set of running tasks are empty, and neither the signing
    /// address nor a nonce is known yet. Any malformed address fails the whole
    /// initialisation.
    pub fn try_from(arg: InitArg) -> (r: Result<State, InvalidStateError>)
        ensures
            match r {
                Ok(s) => {
                    &&& forall|i: int|
                        0 <= i < arg.filter_addresses@.len() ==> is_address_text(
                            #[trigger] arg.filter_addresses@[i]@,
                        )
                    &&& is_address_text(arg.coprocessor_evm_address@)
                    &&& s.wf()
                    &&& s.rpc_service == arg.rpc_service
                    &&& s.chain_id == arg.chain_id
                    &&& s.filter_addresses@.len() == arg.filter_addresses@.len()
                    &&& forall|i: int|
                        0 <= i < s.filter_addresses@.len() ==> (#[trigger] s.filter_addresses@[i])@
                            == address_of_text(arg.filter_addresses@[i]@)
                    &&& s.coprocessor_evm_address@ == address_of_text(arg.coprocessor_evm_address@)
                    &&& s.filter_events == arg.filter_events
                    &&& s.ecdsa_key_id == arg.ecdsa_key_id
                    &&& s.pending().is_empty()
                    &&& s.processed().is_empty()
                    &&& s.active_tasks@.is_empty()
                    &&& s.canister_evm_address.is_none()
                    &&& s.nonce.is_none()
                },
                Err(InvalidStateError::InvalidEthereumContractAddress(m)) => is_error_message(m@) && {
                    ||| exists|i: int|
                        0 <= i < arg.filter_addresses@.len() && !is_address_text(
                            #[trigger] arg.filter_addresses@[i]@,
                        )
                    ||| !is_address_text(arg.coprocessor_evm_address@)
                },
            },
    {
        let mut validated_filter_addresses: Vec<EvmAddress> = Vec::new();
        let mut i: usize = 0;
        while i < arg.filter_addresses.len()
            invariant
                0 <= i <= arg.filter_addresses@.len(),
                validated_filter_addresses@.len() == i,
                forall|j: int| 0 <= j < i ==> is_address_text(#[trigger] arg.filter_addresses@[j]@),
                forall|j: int|
                    0 <= j < i ==> (#[trigger] validated_filter_addresses@[j])@ == address_of_text(
                        arg.filter_addresses@[j]@,
                    ),
            decreases arg.filter_addresses@.len() - i,
        {
            match validate_address(&arg.filter_addresses[i]) {
                Ok(a) => validated_filter_addresses.push(a),
                Err(e) => {
                    return Err(e);
                },
            }
            i = i + 1;
        }
        let validated_coprocessor_evm_address = match validate_address(
            &arg.coprocessor_evm_address,
        ) {
            Ok(a) => a,
            Err(e) => {
                return Err(e);
            },
        };
        let store = EventStore::new();
        let state = State {
            rpc_service: arg.rpc_service,
            chain_id: arg.chain_id,
            coprocessor_evm_address: validated_coprocessor_evm_address,
            filter_addresses: validated_filter_addresses,
            filter_events: arg.filter_events,
            store,
            active_tasks: ActiveTasks::new(),
            ecdsa_key_id: arg.ecdsa_key_id,
            canister_evm_address: None,
            nonce: None,
        };
        Ok(state)
    }
}

} // verus!
