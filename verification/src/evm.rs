//! The EVM query task: reads the token balance of an address with an
//! `eth_call` of the contract's `balanceOf(address)`.
use vstd::prelude::*;
use vstd::string::StringExecFns;

use crate::bouncer::json::JsonValue;
use crate::wasmatic::{hex_lower, to_hex};

verus! {

/// The JSON-RPC endpoint the task asks.
pub const RPC_URL: &'static str = "https://rpc.ankr.com/eth";

/// The token contract whose balances the task reads.
pub const CONTRACT_ADDRESS: &'static str = "0xa0b86991c6218b36c1d19d4a2e9eb0ce3606eb48";

/// The task's input: the address whose balance is read.
#[derive(Clone, Copy, Debug, PartialEq, Eq)]
pub struct TaskRequestData {
    pub address: [u8; 20],
}

/// The task's output: the address and its balance, a 256-bit number as 32
/// big-endian bytes.
#[derive(Clone, Copy, Debug, PartialEq, Eq)]
pub struct TaskResponseData {
    pub address: [u8; 20],
    pub balance: [u8; 32],
}

/// A JSON-RPC request.
#[derive(Debug)]
pub struct JsonRpcRequest {
    pub jsonrpc: String,
    pub method: String,
    pub params: Vec<JsonValue>,
    pub id: u64,
}

/// The name of what `ethabi::short_signature(name, &[ParamType::Address])`
/// returns: the first four bytes of the Keccak-256 hash of the text
/// `name(address)`.
pub uninterp spec fn address_fn_selector(name: Seq<char>) -> Seq<u8>;

/// `ethabi::short_signature` for a function of one address: the four bytes
/// that select the function in a call.
#[verifier::external_body]
fn selector_of_address_fn(name: &str) -> (r: [u8; 4])
    ensures
        r@ == address_fn_selector(name@),
{
    web3::ethabi::short_signature(name, &[web3::ethabi::ParamType::Address])
}

/// `ethabi::encode` of one address token: one 32-byte word, twelve zero
/// bytes followed by the address.
#[verifier::external_body]
fn encode_address_word(address: [u8; 20]) -> (r: Vec<u8>)
    ensures
        r@ == Seq::new(12, |i: int| 0u8) + address@,
{
    web3::ethabi::encode(&[web3::ethabi::Token::Address(web3::types::H160::from(address))])
}

/// The call data of `balanceOf(address)`: the selector, then the address as
/// one word.
pub open spec fn balance_of_data(address: Seq<u8>) -> Seq<u8> {
    address_fn_selector("balanceOf"@) + Seq::new(12, |i: int| 0u8) + address
}

/// Encodes the call of `balanceOf(address)`.
pub fn balance_of_call_data(address: [u8; 20]) -> (r: Vec<u8>)
    ensures
        r@ == balance_of_data(address@),
        r@.len() == 36,
{
    let sel = selector_of_address_fn("balanceOf");
    let word = encode_address_word(address);
    let mut out: Vec<u8> = Vec::new();
    let mut i: usize = 0;
    while i < 4
        invariant
            i <= 4,
            out@ == sel@.take(i as int),
        decreases 4 - i,
    {
        out.push(sel[i]);
        i = i + 1;
        assert(out@ =~= sel@.take(i as int));
    }
    let mut j: usize = 0;
    while j < word.len()
        invariant
            j <= word@.len(),
            out@ == sel@ + word@.take(j as int),
        decreases word@.len() - j,
    {
        out.push(word[j]);
        j = j + 1;
        assert(out@ =~= sel@ + word@.take(j as int));
    }
    assert(word@.take(word@.len() as int) =~= word@);
    assert(out@ =~= balance_of_data(address@));
    out
}

/// `0x` and the call data in lowercase hexadecimal.
pub open spec fn call_data_text(address: Seq<u8>) -> Seq<char> {
    "0x"@ + hex_lower(balance_of_data(address))
}

/// The `data` field of the `eth_call`.
pub fn call_data_hex(address: [u8; 20]) -> (r: String)
    ensures
        r@ == call_data_text(address@),
{
    let data = balance_of_call_data(address);
    let mut r = String::from_str("0x");
    r.append(to_hex(data.as_slice()).as_str());
    r
}

/// The `eth_call` of `balanceOf(address)` on the token contract, at the
/// latest block: params are the call object `{"to": .., "data": ..}` and
/// the block tag `latest`; the id is 1.
pub fn balance_request(request: &TaskRequestData) -> (r: JsonRpcRequest)
    ensures
        r.jsonrpc@ == "2.0"@,
        r.method@ == "eth_call"@,
        r.id == 1,
        r.params@.len() == 2,
        r.params@[0] matches JsonValue::Object(m) && m@.len() == 2
            && m@[0].0@ == "to"@ && (m@[0].1 matches JsonValue::String(t) && t@ == CONTRACT_ADDRESS@)
            && m@[1].0@ == "data"@ && (m@[1].1 matches JsonValue::String(d) && d@ == call_data_text(request.address@)),
        r.params@[1] matches JsonValue::String(b) && b@ == "latest"@,
{
    let mut call: Vec<(String, JsonValue)> = Vec::new();
    call.push((String::from_str("to"), JsonValue::String(String::from_str(CONTRACT_ADDRESS))));
    call.push((String::from_str("data"), JsonValue::String(call_data_hex(request.address))));
    let mut params: Vec<JsonValue> = Vec::new();
    params.push(JsonValue::Object(call));
    params.push(JsonValue::String(String::from_str("latest")));
    JsonRpcRequest {
        jsonrpc: String::from_str("2.0"),
        method: String::from_str("eth_call"),
        params,
        id: 1,
    }
}

/// The message for an input that is not the task's JSON.
pub open spec fn bad_input_prefix() -> Seq<char> {
    "deserializing the task input data failed: "@
}

/// The message for an input the task cannot read, given the parser's text.
pub fn bad_input_message(detail: &str) -> (r: String)
    ensures
        r@ == bad_input_prefix() + detail@,
{
    let mut r = String::from_str("deserializing the task input data failed: ");
    r.append(detail);
    r
}

} // verus!
