//! Requests to Wasmatic operator nodes: deploying, testing and inspecting
//! WASI applications.
use sha2::Digest;
use vstd::prelude::*;
use vstd::string::StringExecFns;

use crate::text::{chars_to_string, slice_range, str_chars};

verus! {

/// What starts an application.
#[derive(Clone, Debug, PartialEq, Eq)]
pub enum Trigger {
    /// A cron schedule.
    Cron { schedule: String },
    /// New tasks in a task queue, polled every `poll_interval`.
    Queue { task_queue_addr: String, hd_index: u32, poll_interval: u32 },
}

/// The code of an application: where to fetch it, or the bytes themselves.
#[derive(Clone, Debug, PartialEq, Eq)]
pub enum WasmFile {
    Url(String),
    Bytes(Vec<u8>),
}

/// One endpoint's answer to the info request.
#[derive(Clone, Debug, PartialEq, Eq)]
pub struct InfoResponse {
    pub endpoint: String,
    pub response: EndpointInfoResponse,
}

/// The operators an endpoint runs.
#[derive(Clone, Debug, PartialEq, Eq)]
pub struct EndpointInfoResponse {
    pub operators: Vec<String>,
}

/// A task queue trigger as an endpoint lists it.
#[derive(Clone, Debug, PartialEq, Eq)]
pub struct Queue {
    pub task_queue_addr: String,
    pub hd_index: u32,
    pub poll_interval: u32,
}

/// One endpoint's answer to a test run.
#[derive(Clone, Debug, PartialEq, Eq)]
pub struct TestResult {
    pub endpoint: String,
    pub response_text: String,
}

/// The body of a deployment request (its permissions stay JSON text).
#[derive(Clone, Debug, PartialEq, Eq)]
pub struct DeployRequest {
    pub name: String,
    pub trigger: Trigger,
    pub permissions_json: String,
    /// The environment variables, as `[name, value]` pairs.
    pub envs: Vec<(String, String)>,
    pub testable: bool,
    /// `sha256:<hex>` of the code.
    pub digest: String,
    /// Where the endpoints fetch the code, when it is not uploaded.
    pub wasm_url: Option<String>,
}

/// The SHA-256 digest of `data`.
pub uninterp spec fn sha256(data: Seq<u8>) -> Seq<u8>;

/// `Sha256::digest` from the `sha2` crate: the 32-byte SHA-256 digest.
#[verifier::external_body]
fn sha256_digest(data: &[u8]) -> (r: Vec<u8>)
    ensures
        r@ == sha256(data@),
        r@.len() == 32,
{
    sha2::Sha256::digest(data).to_vec()
}

/// The lowercase hexadecimal digit of `d` (`d < 16`).
pub open spec fn hex_digit(d: nat) -> char {
    if d < 10 {
        (48 + d) as char
    } else {
        (87 + d) as char
    }
}

/// `data` in lowercase hexadecimal, two digits per byte.
pub open spec fn hex_lower(data: Seq<u8>) -> Seq<char>
    decreases data.len(),
{
    if data.len() == 0 {
        Seq::empty()
    } else {
        hex_lower(data.drop_last()) + seq![
            hex_digit((data.last() / 16) as nat),
            hex_digit((data.last() % 16) as nat),
        ]
    }
}

/// `hex::encode` from the `hex` crate: lowercase hexadecimal, two digits per
/// byte.
#[verifier::external_body]
fn hex_encode(data: &[u8]) -> (r: String)
    ensures
        r@ == hex_lower(data@),
{
    hex::encode(data)
}

/// `data` in lowercase hexadecimal.
pub fn to_hex(data: &[u8]) -> (r: String)
    ensures
        r@ == hex_lower(data@),
{
    hex_encode(data)
}

/// `sha256:<hex of the SHA-256 digest>`
pub open spec fn spec_wasm_digest(data: Seq<u8>) -> Seq<char> {
    "sha256:"@ + hex_lower(sha256(data))
}

/// The digest under which Wasmatic knows the code `data`.
pub fn wasm_digest(data: &[u8]) -> (r: String)
    ensures
        r@ == spec_wasm_digest(data@),
{
    let d = sha256_digest(data);
    let h = hex_encode(&d);
    let mut r = String::from_str("sha256:");
    r.append(h.as_str());
    r
}

/// The first `=` in `s`, if any.
pub open spec fn first_eq(s: Seq<char>, i: int) -> bool {
    0 <= i < s.len() && s[i] == '=' && forall|j: int| 0 <= j < i ==> s[j] != '='
}

/// `p` is `s` split at its first `=`.
pub open spec fn is_env_split(s: Seq<char>, p: (String, String)) -> bool {
    exists|i: int| first_eq(s, i) && p.0@ == s.subrange(0, i) && p.1@ == s.subrange(i + 1, s.len() as int)
}

/// Splits `<name>=<value>` at its first `=`.
pub fn env_pair(s: &str) -> (r: (String, String))
    requires
        s@.contains('='),
    ensures
        is_env_split(s@, r),
{
    let c = str_chars(s);
    let mut i: usize = 0;
    while i < c.len() && c[i] != '='
        invariant
            i <= c@.len(),
            c@ == s@,
            s@.contains('='),
            forall|j: int| 0 <= j < i ==> c@[j] != '=',
        decreases c@.len() - i,
    {
        i = i + 1;
    }
    assert(i < c@.len()) by {
        let k = choose|k: int| 0 <= k < s@.len() && s@[k] == '=';
        if i >= c@.len() {
            assert(c@[k] != '=');
        }
    }
    let name = slice_range(&c, 0, i);
    let value = slice_range(&c, i + 1, c.len());
    let r = (chars_to_string(&name), chars_to_string(&value));
    assert(first_eq(s@, i as int));
    r
}

/// The message when code given by URL comes without its digest.
pub open spec fn missing_digest_message() -> Seq<char> {
    "Error: You need to provide sha256 sum digest if wasm source is an url"@
}

/// The body of a deployment request: each environment pair split at its first
/// `=`; code given by URL needs the caller's digest, while uploaded code gets
/// the digest of its bytes (any digest given is then not used).
pub fn deploy_request(
    name: String,
    digest: Option<String>,
    wasm_file: &WasmFile,
    trigger: Trigger,
    permissions_json: String,
    env_pairs: &Vec<String>,
    testable: bool,
) -> (r: Result<DeployRequest, String>)
    requires
        forall|i: int| 0 <= i < env_pairs@.len() ==> (#[trigger] env_pairs@[i])@.contains('='),
    ensures
        wasm_file is Url && digest is None <==> r is Err,
        r matches Err(m) ==> m@ == missing_digest_message(),
        r matches Ok(req) ==> req.name == name && req.trigger == trigger && req.permissions_json
            == permissions_json && req.testable == testable && req.envs@.len() == env_pairs@.len(),
        r matches Ok(req) ==> forall|i: int|
            0 <= i < env_pairs@.len() ==> is_env_split(env_pairs@[i]@, #[trigger] req.envs@[i]),
        r matches Ok(req) ==> match wasm_file {
            WasmFile::Url(u) => req.wasm_url == Some(*u) && digest == Some(req.digest),
            WasmFile::Bytes(b) => req.wasm_url is None && req.digest@ == spec_wasm_digest(b@),
        },
{
    let mut envs: Vec<(String, String)> = Vec::new();
    let mut i: usize = 0;
    while i < env_pairs.len()
        invariant
            i <= env_pairs@.len(),
            envs@.len() == i,
            forall|j: int| 0 <= j < env_pairs@.len() ==> (#[trigger] env_pairs@[j])@.contains('='),
            forall|j: int| 0 <= j < i ==> is_env_split(env_pairs@[j]@, #[trigger] envs@[j]),
        decreases env_pairs@.len() - i,
    {
        let p = env_pair(env_pairs[i].as_str());
        let ghost pre = envs@;
        envs.push(p);
        assert(forall|j: int| 0 <= j < i ==> envs@[j] == pre[j]);
        i = i + 1;
    }
    let (digest, wasm_url) = match wasm_file {
        WasmFile::Url(url) => match digest {
            None => {
                return Err(
                    String::from_str(
                        "Error: You need to provide sha256 sum digest if wasm source is an url",
                    ),
                );
            },
            Some(d) => (d, Some(url.clone())),
        },
        WasmFile::Bytes(bytes) => (wasm_digest(bytes.as_slice()), None),
    };
    Ok(DeployRequest { name, trigger, permissions_json, envs, testable, digest, wasm_url })
}

} // verus!
