//! Arguments for deploying the AVS contracts: the requestor choice, the
//! operator list and the verifier mode.
use vstd::prelude::*;

use vstd::string::StringExecFns;

use crate::task_queue::{Coin, Requestor};
use crate::text::{
    chars_eq, chars_to_string, decimal, has_prefix, int_error_text, parse_int, parse_u128,
    parse_u32_or_kind, parse_unsigned, push_chars, split, split_chars, starts_with, str_chars,
    trim, trim_chars, u128_decimal, views, str_views, IntErrorKind,
};

verus! {

// ---------------------------------------------------------------------------
// Requestor
// ---------------------------------------------------------------------------

/// Who may create tasks in the task queue that is deployed.
#[derive(Clone, Debug, PartialEq, Eq)]
pub enum DeployContractArgsRequestor {
    /// The account that deploys the contracts.
    Deployer,
    /// A fixed address.
    Fixed(String),
    /// Anyone who pays `amount` of `denom` (the chain's gas denom when `None`).
    Payment { amount: u128, denom: Option<String> },
}

/// The mathematical value of a requestor: its strings as character sequences.
pub ghost enum RequestorView {
    Deployer,
    Fixed(Seq<char>),
    Payment { amount: u128, denom: Option<Seq<char>> },
}

impl View for DeployContractArgsRequestor {
    type V = RequestorView;

    open spec fn view(&self) -> RequestorView {
        match self {
            DeployContractArgsRequestor::Deployer => RequestorView::Deployer,
            DeployContractArgsRequestor::Fixed(s) => RequestorView::Fixed(s@),
            DeployContractArgsRequestor::Payment { amount, denom } => RequestorView::Payment {
                amount: *amount,
                denom: match denom {
                    Some(d) => Some(d@),
                    None => None,
                },
            },
        }
    }
}

/// Why a requestor text was refused.
#[derive(Clone, Copy, Debug, PartialEq, Eq, Structural)]
pub enum RequestorParseError {
    /// The amount of a `payment(..)` is not an unsigned 128-bit number.
    InvalidAmount,
    /// A `payment(..)` holds more than two comma-separated parts.
    InvalidFormat,
    /// The text is none of `deployer`, `payment(..)`, `fixed(..)`.
    UnknownVariant,
}

impl RequestorParseError {
    /// The error's message.
    pub fn message(&self) -> (s: &'static str)
        ensures
            s@ == spec_parse_error_message(*self),
    {
        match self {
            RequestorParseError::InvalidAmount => "invalid amount",
            RequestorParseError::InvalidFormat => "invalid format",
            RequestorParseError::UnknownVariant => "unknown variant",
        }
    }
}

/// The message of each parse error.
pub open spec fn spec_parse_error_message(e: RequestorParseError) -> Seq<char> {
    match e {
        RequestorParseError::InvalidAmount => "invalid amount"@,
        RequestorParseError::InvalidFormat => "invalid format"@,
        RequestorParseError::UnknownVariant => "unknown variant"@,
    }
}

/// `deployer`
pub open spec fn deployer_word() -> Seq<char> {
    seq!['d', 'e', 'p', 'l', 'o', 'y', 'e', 'r']
}

/// `payment(`
pub open spec fn payment_open() -> Seq<char> {
    seq!['p', 'a', 'y', 'm', 'e', 'n', 't', '(']
}

/// `fixed(`
pub open spec fn fixed_open() -> Seq<char> {
    seq!['f', 'i', 'x', 'e', 'd', '(']
}

/// The text ends with a closing parenthesis.
pub open spec fn ends_with_close(s: Seq<char>) -> bool {
    s.len() > 0 && s.last() == ')'
}

/// What a requestor text denotes: after trimming, `deployer`,
/// `payment(<amount>)`, `payment(<amount>, <denom>)` (each part trimmed) or
/// `fixed(<identifier>)` (the identifier trimmed).
pub open spec fn spec_parse_requestor(s: Seq<char>) -> Result<RequestorView, RequestorParseError> {
    let t = trim(s);
    if t == deployer_word() {
        Ok(RequestorView::Deployer)
    } else if has_prefix(t, payment_open()) && ends_with_close(t) {
        let parts = split(t.subrange(8, t.len() - 1), ',');
        if parts.len() == 1 || parts.len() == 2 {
            match parse_unsigned(trim(parts[0]), u128::MAX as nat) {
                Some(a) => Ok(
                    RequestorView::Payment {
                        amount: a as u128,
                        denom: if parts.len() == 2 {
                            Some(trim(parts[1]))
                        } else {
                            None
                        },
                    },
                ),
                None => Err(RequestorParseError::InvalidAmount),
            }
        } else {
            Err(RequestorParseError::InvalidFormat)
        }
    } else if has_prefix(t, fixed_open()) && ends_with_close(t) {
        Ok(RequestorView::Fixed(trim(t.subrange(6, t.len() - 1))))
    } else {
        Err(RequestorParseError::UnknownVariant)
    }
}

/// The text of a requestor: `deployer`, `fixed(<id>)`, `payment(<amount>)` or
/// `payment(<amount>, <denom>)`.
pub open spec fn spec_requestor_text(r: RequestorView) -> Seq<char> {
    match r {
        RequestorView::Deployer => deployer_word(),
        RequestorView::Fixed(id) => fixed_open() + id + seq![')'],
        RequestorView::Payment { amount, denom } => match denom {
            Some(d) => payment_open() + decimal(amount as nat) + seq![',', ' '] + d + seq![')'],
            None => payment_open() + decimal(amount as nat) + seq![')'],
        },
    }
}

impl Default for DeployContractArgsRequestor {
    /// A payment of 5000 in the chain's gas denom.
    fn default() -> (r: Self)
        ensures
            r@ == (RequestorView::Payment { amount: 5000, denom: None }),
    {
        DeployContractArgsRequestor::Payment { amount: 5_000, denom: None }
    }
}

impl DeployContractArgsRequestor {
    /// Reads a requestor from its text form (see [`spec_parse_requestor`]).
    pub fn from_str(s: &str) -> (r: Result<Self, RequestorParseError>)
        ensures
            match r {
                Ok(v) => spec_parse_requestor(s@) == Ok::<RequestorView, RequestorParseError>(
                    v@,
                ),
                Err(e) => spec_parse_requestor(s@) == Err::<RequestorView, RequestorParseError>(
                    e,
                ),
            },
    {
        let all = str_chars(s);
        let t = trim_chars(&all);
        let deployer = ['d', 'e', 'p', 'l', 'o', 'y', 'e', 'r'];
        let payment = ['p', 'a', 'y', 'm', 'e', 'n', 't', '('];
        let fixed = ['f', 'i', 'x', 'e', 'd', '('];
        assert(deployer@ =~= deployer_word());
        assert(payment@ =~= payment_open());
        assert(fixed@ =~= fixed_open());
        let closes = t.len() > 0 && t[t.len() - 1] == ')';
        if chars_eq(&t, &deployer) {
            Ok(DeployContractArgsRequestor::Deployer)
        } else if starts_with(&t, &payment) && closes {
            let inner = crate::text::slice_range(&t, 8, t.len() - 1);
            let parts = split_chars(&inner, ',');
            proof {
                crate::text::lemma_split_nonempty(inner@, ',');
            }
            assert(parts@[0]@ == views(parts@)[0]);
            if parts.len() == 1 || parts.len() == 2 {
                let first = trim_chars(&parts[0]);
                match parse_u128(&first) {
                    Some(amount) => {
                        if parts.len() == 2 {
                            assert(parts@[1]@ == views(parts@)[1]);
                            let second = trim_chars(&parts[1]);
                            let denom = chars_to_string(&second);
                            Ok(DeployContractArgsRequestor::Payment { amount, denom: Some(denom) })
                        } else {
                            Ok(DeployContractArgsRequestor::Payment { amount, denom: None })
                        }
                    },
                    None => Err(RequestorParseError::InvalidAmount),
                }
            } else {
                Err(RequestorParseError::InvalidFormat)
            }
        } else if starts_with(&t, &fixed) && closes {
            let inner = crate::text::slice_range(&t, 6, t.len() - 1);
            let id = trim_chars(&inner);
            Ok(DeployContractArgsRequestor::Fixed(chars_to_string(&id)))
        } else {
            Err(RequestorParseError::UnknownVariant)
        }
    }

    /// The text form of the requestor (see [`spec_requestor_text`]).
    pub fn to_string(&self) -> (s: String)
        ensures
            s@ == spec_requestor_text(self@),
    {
        let mut out = String::new();
        match self {
            DeployContractArgsRequestor::Deployer => {
                let w = ['d', 'e', 'p', 'l', 'o', 'y', 'e', 'r'];
                assert(w@ =~= deployer_word());
                push_chars(&mut out, &w);
            },
            DeployContractArgsRequestor::Fixed(id) => {
                let w = ['f', 'i', 'x', 'e', 'd', '('];
                assert(w@ =~= fixed_open());
                push_chars(&mut out, &w);
                let idc = str_chars(id.as_str());
                push_chars(&mut out, &idc);
                push_chars(&mut out, &[')']);
                assert(out@ =~= spec_requestor_text(self@));
            },
            DeployContractArgsRequestor::Payment { amount, denom } => {
                let w = ['p', 'a', 'y', 'm', 'e', 'n', 't', '('];
                assert(w@ =~= payment_open());
                push_chars(&mut out, &w);
                let digits = u128_decimal(*amount);
                push_chars(&mut out, &digits);
                match denom {
                    Some(d) => {
                        push_chars(&mut out, &[',', ' ']);
                        let dc = str_chars(d.as_str());
                        push_chars(&mut out, &dc);
                    },
                    None => {},
                }
                push_chars(&mut out, &[')']);
                assert(out@ =~= spec_requestor_text(self@));
            },
        }
        out
    }
}

/// A requestor whose text form reads back as itself: the identifier and the
/// denom carry no surrounding whitespace, and the denom holds no comma.
pub open spec fn is_canonical_requestor(r: RequestorView) -> bool {
    match r {
        RequestorView::Deployer => true,
        RequestorView::Fixed(id) => trim(id) == id,
        RequestorView::Payment { amount, denom } => match denom {
            Some(d) => trim(d) == d && !d.contains(','),
            None => true,
        },
    }
}

/// Writing a requestor as text and reading the text back gives the same
/// requestor, whenever its identifier or denom survives the reading unchanged.
pub proof fn lemma_requestor_text_roundtrip(r: RequestorView)
    requires
        is_canonical_requestor(r),
    ensures
        spec_parse_requestor(spec_requestor_text(r)) == Ok::<RequestorView, RequestorParseError>(r),
{
    let t = spec_requestor_text(r);
    match r {
        RequestorView::Deployer => {
            crate::text::lemma_trim_unchanged(t);
        },
        RequestorView::Fixed(id) => {
            assert(t[0] == 'f');
            assert(t.last() == ')');
            crate::text::lemma_trim_unchanged(t);
            assert(t != deployer_word());
            assert(!has_prefix(t, payment_open())) by {
                if t.len() >= 8 {
                    assert(t.subrange(0, 8)[0] == t[0]);
                }
            }
            assert(t.subrange(0, 6) =~= fixed_open());
            assert(t.subrange(6, t.len() - 1) =~= id);
        },
        RequestorView::Payment { amount, denom } => {
            let dec = decimal(amount as nat);
            crate::text::lemma_decimal(amount as nat);
            crate::text::lemma_parse_decimal(amount as nat, u128::MAX as nat);
            crate::text::lemma_trim_unchanged(dec);
            assert(t[0] == 'p');
            assert(t.last() == ')');
            crate::text::lemma_trim_unchanged(t);
            assert(t != deployer_word()) by {
                assert(t[0] != deployer_word()[0]);
            }
            assert(t.subrange(0, 8) =~= payment_open());
            match denom {
                Some(d) => {
                    let rest = seq![' '] + d;
                    assert(t.subrange(8, t.len() - 1) =~= dec + seq![','] + rest);
                    assert(!rest.contains(',')) by {
                        if rest.contains(',') {
                            let i = choose|i: int| 0 <= i < rest.len() && rest[i] == ',';
                            assert(d[i - 1] == ',');
                        }
                    }
                    crate::text::lemma_split_one_sep(dec, rest, ',');
                    crate::text::lemma_trim_skip_ws(' ', d);
                },
                None => {
                    assert(t.subrange(8, t.len() - 1) =~= dec);
                    crate::text::lemma_split_no_sep(dec, ',');
                },
            }
        },
    }
}

/// `payment(<amount>,<denom>)` reads as that amount and exactly that denom,
/// for every denom without a comma and without whitespace at its ends.
pub proof fn lemma_payment_denom_after_comma(amount: u128, d: Seq<char>)
    requires
        !d.contains(','),
        d.len() > 0 ==> !crate::text::is_ws(d[0]) && !crate::text::is_ws(d.last()),
    ensures
        spec_parse_requestor("payment("@ + decimal(amount as nat) + seq![','] + d + seq![')'])
            == Ok::<RequestorView, RequestorParseError>(
            RequestorView::Payment { amount, denom: Some(d) },
        ),
{
    reveal_strlit("payment(");
    let dec = decimal(amount as nat);
    let t = "payment("@ + dec + seq![','] + d + seq![')'];
    crate::text::lemma_decimal(amount as nat);
    crate::text::lemma_parse_decimal(amount as nat, u128::MAX as nat);
    crate::text::lemma_trim_unchanged(dec);
    assert(t[0] == 'p');
    assert(t.last() == ')');
    crate::text::lemma_trim_unchanged(t);
    assert(t != deployer_word()) by {
        assert(t[0] != deployer_word()[0]);
    }
    assert(t.subrange(0, 8) =~= payment_open());
    assert(t.subrange(8, t.len() - 1) =~= dec + seq![','] + d);
    crate::text::lemma_split_one_sep(dec, d, ',');
    if d.len() > 0 {
        crate::text::lemma_trim_unchanged(d);
    } else {
        assert(d =~= Seq::<char>::empty());
        assert(crate::text::trim(d) =~= d);
    }
}

// ---------------------------------------------------------------------------
// Operators, requestor and verifier of a deployment
// ---------------------------------------------------------------------------

#[verifier::external_type_specification]
#[verifier::external_body]
pub struct ExDecimal(cosmwasm_std::Decimal);

/// The code ids of the contracts to instantiate.
#[derive(Clone, Copy, Debug, PartialEq, Eq, Structural)]
pub struct CodeIds {
    pub mock_operators: u64,
    pub task_queue: u64,
    pub verifier_simple: u64,
    pub verifier_oracle: u64,
}

/// Which verifier to deploy, as chosen on the command line.
#[derive(Clone, Copy, Debug, PartialEq, Eq, Structural)]
pub enum DeployContractArgsVerifierMode {
    Simple,
    Oracle,
}

/// The verifier to deploy, with its settings.
#[derive(Clone, Copy, Debug)]
pub enum DeployVerifierMode {
    Simple { required_voting_percentage: u32 },
    Oracle {
        required_voting_percentage: u32,
        threshold_percentage: cosmwasm_std::Decimal,
        allowed_spread: cosmwasm_std::Decimal,
        slashable_spread: cosmwasm_std::Decimal,
    },
}

/// An operator of the mock operators contract and its voting power.
#[derive(Clone, Debug, PartialEq, Eq)]
pub struct InstantiateOperator {
    pub addr: String,
    pub voting_power: u32,
}

/// What the deployment needs to know.
#[derive(Clone, Debug)]
pub struct DeployContractArgs {
    pub code_ids: CodeIds,
    pub operators: Vec<InstantiateOperator>,
    pub requestor: Requestor,
    /// The default task timeout, in seconds.
    pub task_timeout: u64,
    pub owner: Option<String>,
    pub verifier_mode: DeployVerifierMode,
}

/// Why deployment arguments were refused.
#[derive(Clone, Debug, PartialEq, Eq)]
pub enum DeployArgsError {
    /// No operator was given.
    NoOperators,
    /// An operator's address was not accepted; the text says why.
    Address(String),
    /// An operator's voting power is not a `u32`.
    VotingPower(IntErrorKind),
    /// The fixed requestor's address was not accepted; the text says why.
    RequestorAddress(String),
    /// The oracle verifier lacks its threshold percentage.
    MissingThreshold,
    /// The oracle verifier lacks its allowed spread.
    MissingAllowedSpread,
    /// The oracle verifier lacks its slashable spread.
    MissingSlashableSpread,
}

impl DeployArgsError {
    /// The error's message.
    pub fn message(&self) -> (s: String)
        ensures
            s@ == spec_deploy_error_message(*self),
    {
        match self {
            DeployArgsError::NoOperators => String::from_str(
                "At least one operator must be specified",
            ),
            DeployArgsError::Address(m) => String::from_str(m.as_str()),
            DeployArgsError::VotingPower(k) => String::from_str(k.message()),
            DeployArgsError::RequestorAddress(m) => String::from_str(m.as_str()),
            DeployArgsError::MissingThreshold => String::from_str(
                "Threshold percentage is required for oracle verifier",
            ),
            DeployArgsError::MissingAllowedSpread => String::from_str(
                "Allowed spread is required for oracle verifier",
            ),
            DeployArgsError::MissingSlashableSpread => String::from_str(
                "Slashable spread is required for oracle verifier",
            ),
        }
    }
}

/// The message of each deployment error.
pub open spec fn spec_deploy_error_message(e: DeployArgsError) -> Seq<char> {
    match e {
        DeployArgsError::NoOperators => "At least one operator must be specified"@,
        DeployArgsError::Address(m) => m@,
        DeployArgsError::VotingPower(k) => int_error_text(k),
        DeployArgsError::RequestorAddress(m) => m@,
        DeployArgsError::MissingThreshold => "Threshold percentage is required for oracle verifier"@,
        DeployArgsError::MissingAllowedSpread => "Allowed spread is required for oracle verifier"@,
        DeployArgsError::MissingSlashableSpread => "Slashable spread is required for oracle verifier"@,
    }
}

/// An operator as given on the command line: `<name>[:<power>...]`, where the
/// name `wasmatic` stands for every operator that the Wasmatic endpoints run,
/// the i-th of them taking the i-th power.
#[derive(Clone, Debug, PartialEq, Eq)]
pub struct OperatorSpec {
    /// The address, or `wasmatic`.
    pub name: String,
    /// The voting powers that follow the name.
    pub powers: Vec<String>,
}

/// The power text that the `k`-th address of an operator takes: the `k`-th
/// power given, or `1`.
pub open spec fn power_text(powers: Seq<Seq<char>>, k: int) -> Seq<char> {
    if 0 <= k < powers.len() {
        powers[k]
    } else {
        "1"@
    }
}

/// The operators for one operator spec whose addresses are `addrs`, or the
/// first voting power that is refused.
pub open spec fn spec_operator_entries(powers: Seq<Seq<char>>, addrs: Seq<Seq<char>>, n: nat) -> Result<
    Seq<(Seq<char>, u32)>,
    IntErrorKind,
>
    decreases n,
{
    if n == 0 {
        Ok(Seq::empty())
    } else {
        match spec_operator_entries(powers, addrs, (n - 1) as nat) {
            Err(k) => Err(k),
            Ok(prev) => match parse_int(power_text(powers, n - 1), u32::MAX as nat) {
                Err(k) => Err(k),
                Ok(p) => Ok(prev.push((addrs[n - 1], p as u32))),
            },
        }
    }
}

/// The operators for the first `n` specs, given how each spec's addresses
/// were resolved; stops at the first failure.
pub open spec fn spec_collect_operators(
    specs: Seq<OperatorSpec>,
    resolved: Seq<Result<Vec<String>, String>>,
    n: nat,
) -> Result<Seq<(Seq<char>, u32)>, DeployArgsError>
    decreases n,
{
    if n == 0 {
        Ok(Seq::empty())
    } else {
        match spec_collect_operators(specs, resolved, (n - 1) as nat) {
            Err(e) => Err(e),
            Ok(prev) => match resolved[n - 1] {
                Err(m) => Err(DeployArgsError::Address(m)),
                Ok(addrs) => match spec_operator_entries(
                    str_views(specs[n - 1].powers@),
                    str_views(addrs@),
                    addrs@.len(),
                ) {
                    Err(k) => Err(DeployArgsError::VotingPower(k)),
                    Ok(entries) => Ok(prev + entries),
                },
            },
        }
    }
}

/// The address and power of each operator.
pub open spec fn operator_pairs(ops: Seq<InstantiateOperator>) -> Seq<(Seq<char>, u32)> {
    ops.map_values(|o: InstantiateOperator| (o.addr@, o.voting_power))
}

/// A refused voting power stays the result however many more addresses follow.
proof fn lemma_entries_err_stays(powers: Seq<Seq<char>>, addrs: Seq<Seq<char>>, k: nat, m: nat)
    requires
        k <= m,
        spec_operator_entries(powers, addrs, k) is Err,
    ensures
        spec_operator_entries(powers, addrs, m) == spec_operator_entries(powers, addrs, k),
    decreases m - k,
{
    if k < m {
        lemma_entries_err_stays(powers, addrs, k, (m - 1) as nat);
    }
}

/// A refusal stays the result however many more specs follow.
proof fn lemma_collect_err_stays(
    specs: Seq<OperatorSpec>,
    resolved: Seq<Result<Vec<String>, String>>,
    k: nat,
    m: nat,
)
    requires
        k <= m,
        spec_collect_operators(specs, resolved, k) is Err,
    ensures
        spec_collect_operators(specs, resolved, m) == spec_collect_operators(specs, resolved, k),
    decreases m - k,
{
    if k < m {
        lemma_collect_err_stays(specs, resolved, k, (m - 1) as nat);
    }
}

/// The power an address takes when no power is given for it.
proof fn lemma_parse_one()
    ensures
        parse_int("1"@, u32::MAX as nat) == Ok::<nat, IntErrorKind>(1),
{
    reveal_strlit("1");
    let s = "1"@;
    assert(s[0] == '1');
    assert(crate::text::scan_digits(s, u32::MAX as nat, 1, 1) == Ok::<nat, IntErrorKind>(1));
}

/// The `k`-th address of an operator spec takes the `k`-th power given
/// after the spec's name, or power 1 when fewer powers are given; the spec
/// is refused exactly when one of the powers its addresses take is not a
/// `u32`.
pub proof fn lemma_operator_powers(powers: Seq<Seq<char>>, addrs: Seq<Seq<char>>, n: nat)
    requires
        n <= addrs.len(),
    ensures
        spec_operator_entries(powers, addrs, n) is Ok <==> forall|k: int|
            0 <= k < n && k < powers.len() ==> #[trigger] parse_int(powers[k], u32::MAX as nat) is Ok,
        spec_operator_entries(powers, addrs, n) matches Ok(pairs) ==> pairs.len() == n && forall|k: int|
            0 <= k < n ==> #[trigger] pairs[k] == (
                addrs[k],
                (if k < powers.len() {
                    parse_int(powers[k], u32::MAX as nat)->Ok_0
                } else {
                    1
                }) as u32,
            ),
    decreases n,
{
    lemma_parse_one();
    if n > 0 {
        lemma_operator_powers(powers, addrs, (n - 1) as nat);
        let k = n - 1;
        if k < powers.len() {
            assert(power_text(powers, k) == powers[k]);
        } else {
            assert(power_text(powers, k) == "1"@);
        }
        if spec_operator_entries(powers, addrs, (n - 1) as nat) is Ok && parse_int(
            power_text(powers, k),
            u32::MAX as nat,
        ) is Err {
            assert(k < powers.len());
            assert(!(forall|j: int|
                0 <= j < n && j < powers.len() ==> #[trigger] parse_int(powers[j], u32::MAX as nat)
                    is Ok));
        }
        if spec_operator_entries(powers, addrs, (n - 1) as nat) is Err {
            let j = choose|j: int|
                0 <= j < n - 1 && j < powers.len() && !(#[trigger] parse_int(powers[j], u32::MAX as nat)
                    is Ok);
            assert(!(parse_int(powers[j], u32::MAX as nat) is Ok));
        }
    }
}

/// For one operator spec whose addresses the chain or the Wasmatic
/// endpoints give as `addrs`: the `k`-th address takes the `k`-th power
/// given after the name, or power 1 once the powers run out.
pub proof fn lemma_collect_one_spec(spec: OperatorSpec, addrs: Vec<String>)
    ensures
        spec_collect_operators(seq![spec], seq![Ok::<Vec<String>, String>(addrs)], 1) is Ok
            <==> forall|k: int|
            0 <= k < addrs@.len() && k < spec.powers@.len() ==> #[trigger] parse_int(
                spec.powers@[k]@,
                u32::MAX as nat,
            ) is Ok,
        spec_collect_operators(seq![spec], seq![Ok::<Vec<String>, String>(addrs)], 1) matches Ok(
            pairs,
        ) ==> pairs.len() == addrs@.len() && forall|k: int|
            0 <= k < addrs@.len() ==> #[trigger] pairs[k] == (
                addrs@[k]@,
                (if k < spec.powers@.len() {
                    parse_int(spec.powers@[k]@, u32::MAX as nat)->Ok_0
                } else {
                    1
                }) as u32,
            ),
{
    let powers = str_views(spec.powers@);
    let a = str_views(addrs@);
    lemma_operator_powers(powers, a, addrs@.len());
    let r = seq![Ok::<Vec<String>, String>(addrs)];
    assert(r[0] == Ok::<Vec<String>, String>(addrs));
    assert(spec_collect_operators(seq![spec], r, 0) == Ok::<Seq<(Seq<char>, u32)>, DeployArgsError>(Seq::empty()));
    assert forall|k: int| 0 <= k < addrs@.len() && k < spec.powers@.len() implies powers[k]
        == spec.powers@[k]@ by {}
    assert forall|k: int| 0 <= k < addrs@.len() implies a[k] == addrs@[k]@ by {}
    if forall|k: int|
        0 <= k < addrs@.len() && k < spec.powers@.len() ==> #[trigger] parse_int(
            spec.powers@[k]@,
            u32::MAX as nat,
        ) is Ok {
        assert forall|k: int| 0 <= k < addrs@.len() && k < powers.len() implies #[trigger] parse_int(
            powers[k],
            u32::MAX as nat,
        ) is Ok by {
            assert(powers[k] == spec.powers@[k]@);
            assert(parse_int(spec.powers@[k]@, u32::MAX as nat) is Ok);
        }
    }
    if forall|k: int|
        0 <= k < addrs@.len() && k < powers.len() ==> #[trigger] parse_int(powers[k], u32::MAX as nat)
            is Ok {
        assert forall|k: int| 0 <= k < addrs@.len() && k < spec.powers@.len() implies #[trigger] parse_int(
            spec.powers@[k]@,
            u32::MAX as nat,
        ) is Ok by {
            assert(powers[k] == spec.powers@[k]@);
            assert(parse_int(powers[k], u32::MAX as nat) is Ok);
        }
    }
    match spec_operator_entries(powers, a, addrs@.len()) {
        Ok(e) => {
            assert(Seq::<(Seq<char>, u32)>::empty() + e =~= e);
        },
        Err(_) => {},
    }
}

/// Each operator spec adds its addresses after those of the specs before
/// it: the `k`-th address of spec `n` takes the `k`-th power given after its
/// name, or power 1 once the powers run out.
pub proof fn lemma_collect_next_spec(
    specs: Seq<OperatorSpec>,
    resolved: Seq<Result<Vec<String>, String>>,
    n: nat,
)
    requires
        n < specs.len(),
        n < resolved.len(),
    ensures
        spec_collect_operators(specs, resolved, n + 1) matches Ok(pairs) ==> (spec_collect_operators(
            specs,
            resolved,
            n,
        ) matches Ok(prev) && resolved[n as int] matches Ok(addrs) && pairs.len() == prev.len()
            + addrs@.len() && pairs.subrange(0, prev.len() as int) == prev && forall|k: int|
            0 <= k < addrs@.len() ==> #[trigger] pairs[prev.len() + k] == (
                addrs@[k]@,
                (if k < specs[n as int].powers@.len() {
                    parse_int(specs[n as int].powers@[k]@, u32::MAX as nat)->Ok_0
                } else {
                    1
                }) as u32,
            )),
{
    if spec_collect_operators(specs, resolved, n + 1) is Ok {
        let prev = spec_collect_operators(specs, resolved, n)->Ok_0;
        let addrs = resolved[n as int]->Ok_0;
        let powers = str_views(specs[n as int].powers@);
        let a = str_views(addrs@);
        lemma_operator_powers(powers, a, addrs@.len());
        let e = spec_operator_entries(powers, a, addrs@.len())->Ok_0;
        let pairs = prev + e;
        assert(pairs.subrange(0, prev.len() as int) =~= prev);
        assert forall|k: int| 0 <= k < addrs@.len() implies #[trigger] pairs[prev.len() + k] == (
            addrs@[k]@,
            (if k < specs[n as int].powers@.len() {
                parse_int(specs[n as int].powers@[k]@, u32::MAX as nat)->Ok_0
            } else {
                1
            }) as u32,
        ) by {
            assert(pairs[prev.len() + k] == e[k]);
            assert(a[k] == addrs@[k]@);
            if k < specs[n as int].powers@.len() {
                assert(powers[k] == specs[n as int].powers@[k]@);
            }
        }
    }
}

impl OperatorSpec {
    /// Reads `<name>[:<power>...]`.
    pub fn parse(s: &str) -> (r: OperatorSpec)
        ensures
            r.name@ == crate::text::split(s@, ':')[0],
            str_views(r.powers@) == crate::text::split(s@, ':').drop_first(),
    {
        let chars = str_chars(s);
        let parts = split_chars(&chars, ':');
        proof {
            crate::text::lemma_split_nonempty(chars@, ':');
        }
        let name = chars_to_string(&parts[0]);
        assert(parts@[0]@ == views(parts@)[0]);
        let mut powers: Vec<String> = Vec::new();
        let mut i: usize = 1;
        while i < parts.len()
            invariant
                1 <= i <= parts@.len(),
                views(parts@) == crate::text::split(chars@, ':'),
                str_views(powers@) == views(parts@).subrange(1, i as int),
            decreases parts@.len() - i,
        {
            let p = chars_to_string(&parts[i]);
            assert(parts@[i as int]@ == views(parts@)[i as int]);
            let ghost pre = str_views(powers@);
            powers.push(p);
            assert(str_views(powers@) =~= pre.push(parts@[i as int]@));
            i = i + 1;
            assert(str_views(powers@) =~= views(parts@).subrange(1, i as int));
        }
        assert(views(parts@).subrange(1, parts@.len() as int) =~= views(parts@).drop_first());
        OperatorSpec { name, powers }
    }

    /// Whether the spec stands for the operators of the Wasmatic endpoints.
    pub fn is_wasmatic(&self) -> (r: bool)
        ensures
            r == (self.name@ == "wasmatic"@),
    {
        let a = str_chars(self.name.as_str());
        let w = str_chars("wasmatic");
        chars_eq(&a, &w)
    }

    /// The voting power of the `k`-th address of this spec.
    pub fn voting_power(&self, k: usize) -> (r: Result<u32, IntErrorKind>)
        ensures
            match r {
                Ok(p) => parse_int(power_text(str_views(self.powers@), k as int), u32::MAX as nat)
                    == Ok::<nat, IntErrorKind>(p as nat),
                Err(e) => parse_int(power_text(str_views(self.powers@), k as int), u32::MAX as nat)
                    == Err::<nat, IntErrorKind>(e),
            },
    {
        if k < self.powers.len() {
            let t = str_chars(self.powers[k].as_str());
            assert(str_views(self.powers@)[k as int] == self.powers@[k as int]@);
            parse_u32_or_kind(&t)
        } else {
            let t = str_chars("1");
            parse_u32_or_kind(&t)
        }
    }
}

/// The operators of the deployment, in the order given: `resolved[i]` holds
/// the addresses of the `i`-th spec (the chain's form of its address, or the
/// addresses the Wasmatic endpoints report), or why they could not be had.
pub fn collect_operators(
    specs: &Vec<OperatorSpec>,
    resolved: &Vec<Result<Vec<String>, String>>,
) -> (r: Result<Vec<InstantiateOperator>, DeployArgsError>)
    requires
        specs@.len() == resolved@.len(),
    ensures
        match r {
            Ok(ops) => spec_collect_operators(specs@, resolved@, specs@.len()) == Ok::<
                Seq<(Seq<char>, u32)>,
                DeployArgsError,
            >(operator_pairs(ops@)),
            Err(e) => spec_collect_operators(specs@, resolved@, specs@.len()) == Err::<
                Seq<(Seq<char>, u32)>,
                DeployArgsError,
            >(e),
        },
{
    let mut ops: Vec<InstantiateOperator> = Vec::new();
    let mut i: usize = 0;
    assert(operator_pairs(ops@) =~= Seq::<(Seq<char>, u32)>::empty());
    while i < specs.len()
        invariant
            i <= specs@.len() == resolved@.len(),
            spec_collect_operators(specs@, resolved@, i as nat) == Ok::<
                Seq<(Seq<char>, u32)>,
                DeployArgsError,
            >(operator_pairs(ops@)),
        decreases specs@.len() - i,
    {
        match &resolved[i] {
            Err(m) => {
                proof {
                    lemma_collect_err_stays(specs@, resolved@, (i + 1) as nat, specs@.len());
                }
                return Err(DeployArgsError::Address(m.clone()));
            },
            Ok(addrs) => {
                let ghost before = operator_pairs(ops@);
                let mut j: usize = 0;
                assert(operator_pairs(ops@).subrange(
                    before.len() as int,
                    operator_pairs(ops@).len() as int,
                ) =~= Seq::<(Seq<char>, u32)>::empty());
                assert(operator_pairs(ops@).subrange(0, before.len() as int) =~= before);
                while j < addrs.len()
                    invariant
                        j <= addrs@.len(),
                        i < specs@.len() == resolved@.len(),
                        resolved@[i as int] == Ok::<Vec<String>, String>(*addrs),
                        spec_collect_operators(specs@, resolved@, i as nat) == Ok::<
                            Seq<(Seq<char>, u32)>,
                            DeployArgsError,
                        >(before),
                        spec_operator_entries(str_views(specs@[i as int].powers@), str_views(addrs@), j as nat)
                            == Ok::<Seq<(Seq<char>, u32)>, IntErrorKind>(
                            operator_pairs(ops@).subrange(before.len() as int, operator_pairs(ops@).len() as int),
                        ),
                        operator_pairs(ops@).subrange(0, before.len() as int) == before,
                        before.len() <= operator_pairs(ops@).len(),
                    decreases addrs@.len() - j,
                {
                    let ghost pre = operator_pairs(ops@);
                    match specs[i].voting_power(j) {
                        Err(k) => {
                            proof {
                                let pw = str_views(specs@[i as int].powers@);
                                let ad = str_views(addrs@);
                                lemma_entries_err_stays(pw, ad, (j + 1) as nat, addrs@.len());
                                assert(spec_collect_operators(specs@, resolved@, (i + 1) as nat)
                                    == Err::<Seq<(Seq<char>, u32)>, DeployArgsError>(
                                    DeployArgsError::VotingPower(k),
                                ));
                                lemma_collect_err_stays(
                                    specs@,
                                    resolved@,
                                    (i + 1) as nat,
                                    specs@.len(),
                                );
                            }
                            return Err(DeployArgsError::VotingPower(k));
                        },
                        Ok(p) => {
                            let a = String::from_str(addrs[j].as_str());
                            assert(str_views(addrs@)[j as int] == addrs@[j as int]@);
                            ops.push(InstantiateOperator { addr: a, voting_power: p });
                            assert(operator_pairs(ops@) =~= pre.push((addrs@[j as int]@, p)));
                            assert(operator_pairs(ops@).subrange(
                                before.len() as int,
                                operator_pairs(ops@).len() as int,
                            ) =~= pre.subrange(before.len() as int, pre.len() as int).push(
                                (addrs@[j as int]@, p),
                            ));
                            assert(operator_pairs(ops@).subrange(0, before.len() as int)
                                =~= pre.subrange(0, before.len() as int));
                        },
                    }
                    j = j + 1;
                }
                assert(operator_pairs(ops@) =~= before + operator_pairs(ops@).subrange(
                    before.len() as int,
                    operator_pairs(ops@).len() as int,
                ));
            },
        }
        i = i + 1;
    }
    Ok(ops)
}

/// The task queue's requestor for a chosen requestor: the deployer's address,
/// the fixed address as the chain reads it (`fixed_address`, used for a fixed
/// requestor only), or a payment in the given denom or else the gas denom.
pub fn resolve_requestor(
    requestor: &DeployContractArgsRequestor,
    deployer: &str,
    gas_denom: &str,
    fixed_address: &Result<String, String>,
) -> (r: Result<Requestor, DeployArgsError>)
    ensures
        requestor matches DeployContractArgsRequestor::Deployer ==> (r matches Ok(
            Requestor::Fixed(a),
        ) && a@ == deployer@),
        requestor matches DeployContractArgsRequestor::Fixed(_) ==> match fixed_address {
            Ok(a) => r matches Ok(Requestor::Fixed(b)) && b@ == a@,
            Err(m) => r matches Err(DeployArgsError::RequestorAddress(n)) && n@ == m@,
        },
        requestor matches DeployContractArgsRequestor::Payment { amount, denom } ==> (r matches Ok(
            Requestor::OpenPayment(c),
        ) && c.amount == amount && c.denom@ == match denom {
            Some(d) => d@,
            None => gas_denom@,
        }),
{
    match requestor {
        DeployContractArgsRequestor::Deployer => Ok(Requestor::Fixed(String::from_str(deployer))),
        DeployContractArgsRequestor::Fixed(_) => match fixed_address {
            Ok(a) => Ok(Requestor::Fixed(String::from_str(a.as_str()))),
            Err(m) => Err(DeployArgsError::RequestorAddress(String::from_str(m.as_str()))),
        },
        DeployContractArgsRequestor::Payment { amount, denom } => {
            let d = match denom {
                Some(d) => String::from_str(d.as_str()),
                None => String::from_str(gas_denom),
            };
            Ok(Requestor::OpenPayment(Coin { denom: d, amount: *amount }))
        },
    }
}

impl DeployVerifierMode {
    /// The verifier for the chosen mode; the oracle verifier needs all three
    /// of its settings (checked in this order).
    pub fn from_mode(
        mode: DeployContractArgsVerifierMode,
        required_voting_percentage: u32,
        threshold_percentage: Option<cosmwasm_std::Decimal>,
        allowed_spread: Option<cosmwasm_std::Decimal>,
        slashable_spread: Option<cosmwasm_std::Decimal>,
    ) -> (r: Result<DeployVerifierMode, DeployArgsError>)
        ensures
            mode == DeployContractArgsVerifierMode::Simple ==> r == Ok::<
                DeployVerifierMode,
                DeployArgsError,
            >(DeployVerifierMode::Simple { required_voting_percentage }),
            mode == DeployContractArgsVerifierMode::Oracle ==> r == (match (
                threshold_percentage,
                allowed_spread,
                slashable_spread,
            ) {
                (None, _, _) => Err(DeployArgsError::MissingThreshold),
                (Some(_), None, _) => Err(DeployArgsError::MissingAllowedSpread),
                (Some(_), Some(_), None) => Err(DeployArgsError::MissingSlashableSpread),
                (Some(t), Some(a), Some(s)) => Ok(
                    DeployVerifierMode::Oracle {
                        required_voting_percentage,
                        threshold_percentage: t,
                        allowed_spread: a,
                        slashable_spread: s,
                    },
                ),
            }),
    {
        match mode {
            DeployContractArgsVerifierMode::Simple => Ok(
                DeployVerifierMode::Simple { required_voting_percentage },
            ),
            DeployContractArgsVerifierMode::Oracle => {
                let t = match threshold_percentage {
                    Some(t) => t,
                    None => return Err(DeployArgsError::MissingThreshold),
                };
                let a = match allowed_spread {
                    Some(a) => a,
                    None => return Err(DeployArgsError::MissingAllowedSpread),
                };
                let s = match slashable_spread {
                    Some(s) => s,
                    None => return Err(DeployArgsError::MissingSlashableSpread),
                };
                Ok(
                    DeployVerifierMode::Oracle {
                        required_voting_percentage,
                        threshold_percentage: t,
                        allowed_spread: a,
                        slashable_spread: s,
                    },
                )
            },
        }
    }

    /// The code id of the verifier contract to instantiate.
    pub fn code_id(&self, code_ids: &CodeIds) -> (r: u64)
        ensures
            self is Simple ==> r == code_ids.verifier_simple,
            self is Oracle ==> r == code_ids.verifier_oracle,
    {
        match self {
            DeployVerifierMode::Simple { .. } => code_ids.verifier_simple,
            DeployVerifierMode::Oracle { .. } => code_ids.verifier_oracle,
        }
    }

    /// The label of the verifier contract to instantiate.
    pub fn label(&self) -> (r: &'static str)
        ensures
            self is Simple ==> r@ == "Verifier Simple"@,
            self is Oracle ==> r@ == "Oracle Price Verifier"@,
    {
        match self {
            DeployVerifierMode::Simple { .. } => "Verifier Simple",
            DeployVerifierMode::Oracle { .. } => "Oracle Price Verifier",
        }
    }
}

/// The requestor can be resolved: a fixed requestor needs its address
/// accepted by the chain.
pub open spec fn requestor_resolves(
    requestor: DeployContractArgsRequestor,
    fixed_address: Result<String, String>,
) -> bool {
    requestor is Fixed ==> fixed_address is Ok
}

/// The verifier's settings are complete: the oracle verifier needs all
/// three of its own.
pub open spec fn verifier_settings_given(
    mode: DeployContractArgsVerifierMode,
    threshold_percentage: Option<cosmwasm_std::Decimal>,
    allowed_spread: Option<cosmwasm_std::Decimal>,
    slashable_spread: Option<cosmwasm_std::Decimal>,
) -> bool {
    mode == DeployContractArgsVerifierMode::Oracle ==> (threshold_percentage is Some
        && allowed_spread is Some && slashable_spread is Some)
}

/// The first missing setting of the oracle verifier.
pub open spec fn missing_verifier_setting(
    threshold_percentage: Option<cosmwasm_std::Decimal>,
    allowed_spread: Option<cosmwasm_std::Decimal>,
) -> DeployArgsError {
    if threshold_percentage is None {
        DeployArgsError::MissingThreshold
    } else if allowed_spread is None {
        DeployArgsError::MissingAllowedSpread
    } else {
        DeployArgsError::MissingSlashableSpread
    }
}

impl DeployContractArgs {
    /// Checks and assembles the deployment arguments. `operators` are the
    /// operator specs as given; `resolved[i]` the addresses of the `i`-th
    /// (see [`collect_operators`]); `fixed_address` the chain's form of a
    /// fixed requestor's identifier. Refusals come in this order: no
    /// operator, the first operator that fails, the requestor, the verifier.
    pub fn parse(
        code_ids: CodeIds,
        owner: Option<String>,
        task_timeout: u64,
        required_voting_percentage: u32,
        threshold_percentage: Option<cosmwasm_std::Decimal>,
        allowed_spread: Option<cosmwasm_std::Decimal>,
        slashable_spread: Option<cosmwasm_std::Decimal>,
        operators: &Vec<OperatorSpec>,
        resolved: &Vec<Result<Vec<String>, String>>,
        requestor: &DeployContractArgsRequestor,
        deployer: &str,
        gas_denom: &str,
        fixed_address: &Result<String, String>,
        mode: DeployContractArgsVerifierMode,
    ) -> (r: Result<DeployContractArgs, DeployArgsError>)
        requires
            operators@.len() == resolved@.len(),
        ensures
            operators@.len() == 0 ==> r == Err::<DeployContractArgs, DeployArgsError>(
                DeployArgsError::NoOperators,
            ),
            operators@.len() > 0 && spec_collect_operators(operators@, resolved@, operators@.len())
                is Err ==> r == Err::<DeployContractArgs, DeployArgsError>(
                spec_collect_operators(operators@, resolved@, operators@.len())->Err_0,
            ),
            r matches Ok(args) ==> operators@.len() > 0 && spec_collect_operators(
                operators@,
                resolved@,
                operators@.len(),
            ) == Ok::<Seq<(Seq<char>, u32)>, DeployArgsError>(operator_pairs(args.operators@))
                && args.code_ids == code_ids && args.owner == owner && args.task_timeout
                == task_timeout,
            r is Ok <==> operators@.len() > 0 && spec_collect_operators(
                operators@,
                resolved@,
                operators@.len(),
            ) is Ok && requestor_resolves(*requestor, *fixed_address) && verifier_settings_given(
                mode,
                threshold_percentage,
                allowed_spread,
                slashable_spread,
            ),
            operators@.len() > 0 && spec_collect_operators(operators@, resolved@, operators@.len())
                is Ok && !requestor_resolves(*requestor, *fixed_address) ==> (r matches Err(
                DeployArgsError::RequestorAddress(n),
            ) && fixed_address matches Err(m) && n@ == m@),
            operators@.len() > 0 && spec_collect_operators(operators@, resolved@, operators@.len())
                is Ok && requestor_resolves(*requestor, *fixed_address) && !verifier_settings_given(
                mode,
                threshold_percentage,
                allowed_spread,
                slashable_spread,
            ) ==> r == Err::<DeployContractArgs, DeployArgsError>(
                missing_verifier_setting(threshold_percentage, allowed_spread),
            ),
            r matches Ok(args) ==> match requestor {
                DeployContractArgsRequestor::Deployer => args.requestor matches Requestor::Fixed(a)
                    && a@ == deployer@,
                DeployContractArgsRequestor::Fixed(_) => args.requestor matches Requestor::Fixed(a)
                    && fixed_address matches Ok(f) && a@ == f@,
                DeployContractArgsRequestor::Payment { amount, denom } => args.requestor matches Requestor::OpenPayment(c)
                    && c.amount == amount && c.denom@ == match denom {
                    Some(d) => d@,
                    None => gas_denom@,
                },
            },
            r matches Ok(args) ==> match mode {
                DeployContractArgsVerifierMode::Simple => args.verifier_mode matches DeployVerifierMode::Simple {
                    required_voting_percentage: p,
                } && p == required_voting_percentage,
                DeployContractArgsVerifierMode::Oracle => args.verifier_mode matches DeployVerifierMode::Oracle {
                    required_voting_percentage: p,
                    threshold_percentage: t,
                    allowed_spread: a,
                    slashable_spread: sp,
                } && p == required_voting_percentage && threshold_percentage == Some(t)
                    && allowed_spread == Some(a) && slashable_spread == Some(sp),
            },
    {
        if operators.len() == 0 {
            return Err(DeployArgsError::NoOperators);
        }
        let ops = collect_operators(operators, resolved)?;
        let req = resolve_requestor(requestor, deployer, gas_denom, fixed_address)?;
        let verifier_mode = DeployVerifierMode::from_mode(
            mode,
            required_voting_percentage,
            threshold_percentage,
            allowed_spread,
            slashable_spread,
        )?;
        Ok(
            DeployContractArgs {
                code_ids,
                operators: ops,
                requestor: req,
                task_timeout,
                owner,
                verifier_mode,
            },
        )
    }
}

} // verus!
