use avs_toolkit::deploy::{
    collect_operators, resolve_requestor, CodeIds, DeployArgsError, DeployContractArgs,
    DeployContractArgsRequestor, DeployContractArgsVerifierMode, DeployVerifierMode,
    OperatorSpec, RequestorParseError,
};
use avs_toolkit::task_queue::Requestor;
use avs_toolkit::text::IntErrorKind;

fn code_ids() -> CodeIds {
    CodeIds { mock_operators: 1, task_queue: 2, verifier_simple: 3, verifier_oracle: 4 }
}

#[test]
fn requestor_text_round_trips() {
    let values = vec![
        DeployContractArgsRequestor::Deployer,
        DeployContractArgsRequestor::Fixed("layer1abc".to_string()),
        DeployContractArgsRequestor::Payment { amount: 0, denom: None },
        DeployContractArgsRequestor::Payment { amount: u128::MAX, denom: Some("uslay".to_string()) },
    ];
    for v in values {
        let text = v.to_string();
        assert_eq!(DeployContractArgsRequestor::from_str(&text).unwrap(), v);
    }
}

#[test]
fn requestor_default_is_a_payment_in_the_gas_denom() {
    assert_eq!(
        DeployContractArgsRequestor::default(),
        DeployContractArgsRequestor::Payment { amount: 5_000, denom: None }
    );
}

#[test]
fn requestor_errors_say_why() {
    assert_eq!(
        DeployContractArgsRequestor::from_str("payment(1, a, b)"),
        Err(RequestorParseError::InvalidFormat)
    );
    assert_eq!(
        DeployContractArgsRequestor::from_str("payment(-1)"),
        Err(RequestorParseError::InvalidAmount)
    );
    assert_eq!(
        DeployContractArgsRequestor::from_str("payment(340282366920938463463374607431768211456)"),
        Err(RequestorParseError::InvalidAmount)
    );
    assert_eq!(
        DeployContractArgsRequestor::from_str("Deployer"),
        Err(RequestorParseError::UnknownVariant)
    );
    assert_eq!(RequestorParseError::InvalidAmount.message(), "invalid amount");
    assert_eq!(RequestorParseError::InvalidFormat.message(), "invalid format");
    assert_eq!(RequestorParseError::UnknownVariant.message(), "unknown variant");
}

#[test]
fn requestor_parse_keeps_largest_amount_and_empty_fixed() {
    assert_eq!(
        DeployContractArgsRequestor::from_str("payment(340282366920938463463374607431768211455)").unwrap(),
        DeployContractArgsRequestor::Payment { amount: u128::MAX, denom: None }
    );
    assert_eq!(
        DeployContractArgsRequestor::from_str("fixed()").unwrap(),
        DeployContractArgsRequestor::Fixed(String::new())
    );
}

#[test]
fn operator_spec_splits_name_and_powers() {
    let spec = OperatorSpec::parse("wasmatic:10:20");
    assert_eq!(spec.name, "wasmatic");
    assert_eq!(spec.powers, vec!["10".to_string(), "20".to_string()]);
    assert!(spec.is_wasmatic());
    assert_eq!(spec.voting_power(0), Ok(10));
    assert_eq!(spec.voting_power(1), Ok(20));
    assert_eq!(spec.voting_power(2), Ok(1));
    let other = OperatorSpec::parse("layer1xyz");
    assert!(!other.is_wasmatic());
    assert!(other.powers.is_empty());
    assert_eq!(other.voting_power(0), Ok(1));
}

#[test]
fn voting_power_errors_follow_integer_parsing() {
    assert_eq!(OperatorSpec::parse("a:").voting_power(0), Err(IntErrorKind::Empty));
    assert_eq!(OperatorSpec::parse("a:x1").voting_power(0), Err(IntErrorKind::InvalidDigit));
    assert_eq!(OperatorSpec::parse("a:4294967296").voting_power(0), Err(IntErrorKind::PosOverflow));
    assert_eq!(OperatorSpec::parse("a:4294967295").voting_power(0), Ok(u32::MAX));
    assert_eq!(IntErrorKind::Empty.message(), "cannot parse integer from empty string");
    assert_eq!(IntErrorKind::InvalidDigit.message(), "invalid digit found in string");
    assert_eq!(IntErrorKind::PosOverflow.message(), "number too large to fit in target type");
}

#[test]
fn operators_are_collected_in_order() {
    let specs = vec![OperatorSpec::parse("wasmatic:5:7"), OperatorSpec::parse("addr3:9")];
    let resolved = vec![
        Ok(vec!["addr1".to_string(), "addr2".to_string()]),
        Ok(vec!["addr3".to_string()]),
    ];
    let ops = collect_operators(&specs, &resolved).unwrap();
    let pairs: Vec<(String, u32)> = ops.iter().map(|o| (o.addr.clone(), o.voting_power)).collect();
    assert_eq!(
        pairs,
        vec![("addr1".to_string(), 5), ("addr2".to_string(), 7), ("addr3".to_string(), 9)]
    );
}

#[test]
fn first_failing_operator_is_reported() {
    let specs = vec![OperatorSpec::parse("a:x"), OperatorSpec::parse("b")];
    let resolved = vec![Ok(vec!["a".to_string()]), Err("bad address".to_string())];
    assert_eq!(
        collect_operators(&specs, &resolved).unwrap_err(),
        DeployArgsError::VotingPower(IntErrorKind::InvalidDigit)
    );
    let specs = vec![OperatorSpec::parse("b"), OperatorSpec::parse("a:x")];
    let resolved = vec![Err("bad address".to_string()), Ok(vec!["a".to_string()])];
    let e = collect_operators(&specs, &resolved).unwrap_err();
    assert_eq!(e, DeployArgsError::Address("bad address".to_string()));
    assert_eq!(e.message(), "bad address");
}

#[test]
fn requestor_is_resolved() {
    let r = resolve_requestor(&DeployContractArgsRequestor::Deployer, "me", "uslay", &Ok(String::new()));
    assert_eq!(r.unwrap(), Requestor::Fixed("me".to_string()));
    let r = resolve_requestor(
        &DeployContractArgsRequestor::Payment { amount: 5, denom: None },
        "me",
        "uslay",
        &Ok(String::new()),
    );
    match r.unwrap() {
        Requestor::OpenPayment(c) => {
            assert_eq!(c.amount, 5);
            assert_eq!(c.denom, "uslay");
        }
        other => panic!("unexpected {:?}", other),
    }
    let r = resolve_requestor(
        &DeployContractArgsRequestor::Fixed("x".to_string()),
        "me",
        "uslay",
        &Err("not bech32".to_string()),
    );
    assert_eq!(r.unwrap_err(), DeployArgsError::RequestorAddress("not bech32".to_string()));
}

#[test]
fn oracle_verifier_needs_its_settings() {
    let d = cosmwasm_std::Decimal::percent(5);
    let r = DeployVerifierMode::from_mode(DeployContractArgsVerifierMode::Oracle, 70, None, Some(d), Some(d));
    assert_eq!(r.unwrap_err(), DeployArgsError::MissingThreshold);
    let r = DeployVerifierMode::from_mode(DeployContractArgsVerifierMode::Oracle, 70, Some(d), None, None);
    assert_eq!(r.unwrap_err(), DeployArgsError::MissingAllowedSpread);
    let r = DeployVerifierMode::from_mode(DeployContractArgsVerifierMode::Oracle, 70, Some(d), Some(d), None);
    assert_eq!(r.unwrap_err(), DeployArgsError::MissingSlashableSpread);
    let r = DeployVerifierMode::from_mode(DeployContractArgsVerifierMode::Oracle, 70, Some(d), Some(d), Some(d)).unwrap();
    assert_eq!(r.code_id(&code_ids()), 4);
    assert_eq!(r.label(), "Oracle Price Verifier");
    let s = DeployVerifierMode::from_mode(DeployContractArgsVerifierMode::Simple, 70, None, None, None).unwrap();
    assert_eq!(s.code_id(&code_ids()), 3);
    assert_eq!(s.label(), "Verifier Simple");
    assert_eq!(
        DeployArgsError::MissingThreshold.message(),
        "Threshold percentage is required for oracle verifier"
    );
}

#[test]
fn deploy_arguments_are_checked_in_order() {
    let none: Vec<OperatorSpec> = Vec::new();
    let r = DeployContractArgs::parse(
        code_ids(), None, 300, 70, None, None, None, &none, &Vec::new(),
        &DeployContractArgsRequestor::Deployer, "me", "uslay", &Ok(String::new()),
        DeployContractArgsVerifierMode::Simple,
    );
    assert_eq!(r.unwrap_err(), DeployArgsError::NoOperators);
    assert_eq!(DeployArgsError::NoOperators.message(), "At least one operator must be specified");

    let specs = vec![OperatorSpec::parse("op1:3")];
    let resolved = vec![Ok(vec!["op1".to_string()])];
    let r = DeployContractArgs::parse(
        code_ids(), Some("owner".to_string()), 300, 70, None, None, None, &specs, &resolved,
        &DeployContractArgsRequestor::Deployer, "me", "uslay", &Ok(String::new()),
        DeployContractArgsVerifierMode::Oracle,
    );
    assert_eq!(r.unwrap_err(), DeployArgsError::MissingThreshold);

    let args = DeployContractArgs::parse(
        code_ids(), Some("owner".to_string()), 300, 70, None, None, None, &specs, &resolved,
        &DeployContractArgsRequestor::Deployer, "me", "uslay", &Ok(String::new()),
        DeployContractArgsVerifierMode::Simple,
    )
    .unwrap();
    assert_eq!(args.task_timeout, 300);
    assert_eq!(args.owner, Some("owner".to_string()));
    assert_eq!(args.operators.len(), 1);
    assert_eq!(args.operators[0].voting_power, 3);
    assert_eq!(args.requestor, Requestor::Fixed("me".to_string()));
}
