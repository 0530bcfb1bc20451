//! Base-chain helpers: the network identifier, the 256-bit allowance model
//! used by the deposit-approval rule, address-text normalization, and the
//! extraction of the token-standard interface description that the contract
//! bindings are loaded from.

use vstd::prelude::*;
use crate::error::ClientError;

verus! {

/// A base-chain network.
#[derive(Clone, Copy, PartialEq, Eq, Structural, Debug)]
pub enum Network {
    Mainnet,
    Ropsten,
    Rinkeby,
    Localhost,
    Unknown,
}

/// The chain id each known network answers with.
pub open spec fn chain_id_spec(network: Network) -> u8 {
    match network {
        Network::Mainnet => 1,
        Network::Ropsten => 3,
        Network::Rinkeby => 4,
        Network::Localhost => 9,
        Network::Unknown => 0,
    }
}

impl Network {
    /// The network's chain id. Connecting to an unknown network is a caller
    /// error and is excluded by contract.
    pub fn chain_id(self) -> (r: u8)
        requires
            !(self is Unknown),
        ensures
            r == chain_id_spec(self),
    {
        match self {
            Network::Mainnet => 1,
            Network::Ropsten => 3,
            Network::Rinkeby => 4,
            Network::Localhost => 9,
            Network::Unknown => unreached(),
        }
    }
}

/// A 256-bit on-chain quantity, split into two 128-bit halves.
#[derive(Clone, Copy, PartialEq, Eq, Structural, Debug)]
pub struct U256Val {
    pub hi: u128,
    pub lo: u128,
}

/// The value a `U256Val` denotes.
pub open spec fn u256_value(v: U256Val) -> nat {
    (v.hi * 0x1_0000_0000_0000_0000_0000_0000_0000_0000 + v.lo) as nat
}

/// The allowance threshold above which a deposit counts as approved:
/// half the 256-bit range.
pub open spec fn erc20_approve_threshold() -> nat {
    (0x8000_0000_0000_0000_0000_0000_0000_0000 * 0x1_0000_0000_0000_0000_0000_0000_0000_0000) as nat
}

/// Whether an already-granted allowance clears the approval threshold.
pub fn deposit_approved(allowance: U256Val) -> (r: bool)
    ensures
        r == (u256_value(allowance) >= erc20_approve_threshold()),
{
    proof {
        if allowance.hi >= 0x8000_0000_0000_0000_0000_0000_0000_0000 {
            assert(u256_value(allowance) >= erc20_approve_threshold()) by (nonlinear_arith)
                requires
                    allowance.hi >= 0x8000_0000_0000_0000_0000_0000_0000_0000,
            ;
        } else {
            assert(u256_value(allowance) < erc20_approve_threshold()) by (nonlinear_arith)
                requires
                    allowance.hi < 0x8000_0000_0000_0000_0000_0000_0000_0000 && allowance.lo
                        < 0x1_0000_0000_0000_0000_0000_0000_0000_0000,
            ;
        }
    }
    allowance.hi >= 0x8000_0000_0000_0000_0000_0000_0000_0000
}

/// Drops a leading `0x` marker from address text, given as bytes.
pub fn strip_hex_prefix(s: &Vec<u8>) -> (r: Vec<u8>)
    ensures
        r@ == if s@.len() >= 2 && s@[0] == 0x30u8 && s@[1] == 0x78u8 {
            s@.skip(2)
        } else {
            s@
        },
{
    let start: usize = if s.len() >= 2 && s[0] == 0x30 && s[1] == 0x78 {
        2
    } else {
        0
    };
    let mut r: Vec<u8> = Vec::new();
    let mut i: usize = start;
    while i < s.len()
        invariant
            start <= i <= s@.len(),
            r@ =~= s@.subrange(start as int, i as int),
        decreases s@.len() - i,
    {
        r.push(s[i]);
        proof {
            assert(r@ =~= s@.subrange(start as int, i + 1));
        }
        i = i + 1;
    }
    proof {
        if start == 2 {
            assert(s@.subrange(2, s@.len() as int) =~= s@.skip(2));
        } else {
            assert(s@.subrange(0, s@.len() as int) =~= s@);
        }
    }
    r
}

/// The text the "abi" member of an interface document renders back to, when
/// the document parses and has one. A pure function of the document text.
pub uninterp spec fn abi_text_of(s: Seq<char>) -> Option<Seq<char>>;

/// Relies on serde_json's `from_str`, `Value::get` and the `Display`
/// rendering of `Value`: parsing a document, selecting its "abi" member and
/// rendering that member back depend on the document text alone.
#[verifier::external_body]
fn abi_member_text(interface_json: &str) -> (r: Option<String>)
    ensures
        (r is Some) == (abi_text_of(interface_json@) is Some),
        r matches Some(t) ==> Option::Some(t@) == abi_text_of(interface_json@),
{
    match serde_json::from_str::<serde_json::Value>(interface_json) {
        Ok(document) => document.get("abi").map(|member| member.to_string()),
        Err(_) => None,
    }
}

/// Extracts the "abi" member of a contract interface document, reporting a
/// malformed document as an error rather than failing.
pub fn load_contract_interface(interface_json: &str) -> (r: Result<String, ClientError>)
    ensures
        (r is Ok) == (abi_text_of(interface_json@) is Some),
        r matches Ok(t) ==> Option::Some(t@) == abi_text_of(interface_json@),
        r matches Err(e) ==> e is MalformedResponse,
{
    match abi_member_text(interface_json) {
        Option::Some(text) => Result::Ok(text),
        Option::None => Result::Err(
            ClientError::MalformedResponse("interface document has no abi member".to_owned()),
        ),
    }
}

} // verus!
