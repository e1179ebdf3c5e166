use avs_toolkit::deploy::DeployContractArgsRequestor;

#[test]
fn test_parse_deployer() {
    let input = "deployer";
    let result = DeployContractArgsRequestor::from_str(input).unwrap();
    assert_eq!(result, DeployContractArgsRequestor::Deployer);
}

#[test]
fn test_parse_payment_amount_only() {
    let input = "payment(200)";
    let result = DeployContractArgsRequestor::from_str(input).unwrap();
    assert_eq!(
        result,
        DeployContractArgsRequestor::Payment {
            amount: 200,
            denom: None,
        }
    );
}

#[test]
fn test_parse_payment_amount_and_denom() {
    let input = "payment(300, USD)";
    let result = DeployContractArgsRequestor::from_str(input).unwrap();
    assert_eq!(
        result,
        DeployContractArgsRequestor::Payment {
            amount: 300,
            denom: Some("USD".to_string()),
        }
    );
}

#[test]
fn test_parse_payment_with_whitespace() {
    let input = " payment( 400 ,  EUR ) ";
    let result = DeployContractArgsRequestor::from_str(input).unwrap();
    assert_eq!(
        result,
        DeployContractArgsRequestor::Payment {
            amount: 400,
            denom: Some("EUR".to_string()),
        }
    );
}

#[test]
fn test_parse_fixed() {
    let input = "fixed(my_identifier)";
    let result = DeployContractArgsRequestor::from_str(input).unwrap();
    assert_eq!(
        result,
        DeployContractArgsRequestor::Fixed("my_identifier".to_string())
    );
}

#[test]
fn test_parse_fixed_with_whitespace() {
    let input = " fixed( my_identifier ) ";
    let result = DeployContractArgsRequestor::from_str(input).unwrap();
    assert_eq!(
        result,
        DeployContractArgsRequestor::Fixed("my_identifier".to_string())
    );
}

#[test]
fn test_parse_invalid_variant() {
    let input = "unknown(123)";
    let result = DeployContractArgsRequestor::from_str(input);
    assert!(result.is_err());
}

#[test]
fn test_parse_invalid_amount() {
    let input = "payment(not_a_number)";
    let result = DeployContractArgsRequestor::from_str(input);
    assert!(result.is_err());
}

#[test]
fn test_parse_invalid_format_extra_fields() {
    let input = "payment(100, USD, extra)";
    let result = DeployContractArgsRequestor::from_str(input);
    assert!(result.is_err());
}

#[test]
fn test_parse_invalid_format_no_parentheses() {
    let input = "payment100, USD";
    let result = DeployContractArgsRequestor::from_str(input);
    assert!(result.is_err());
}

#[test]
fn test_display_payment_without_denom() {
    let requestor = DeployContractArgsRequestor::Payment {
        amount: 100,
        denom: None,
    };
    assert_eq!(requestor.to_string(), "payment(100)");
}

#[test]
fn test_display_payment_with_denom() {
    let requestor = DeployContractArgsRequestor::Payment {
        amount: 200,
        denom: Some("EUR".to_string()),
    };
    assert_eq!(requestor.to_string(), "payment(200, EUR)");
}

#[test]
fn test_display_fixed() {
    let requestor = DeployContractArgsRequestor::Fixed("identifier".to_string());
    assert_eq!(requestor.to_string(), "fixed(identifier)");
}

#[test]
fn test_display_deployer() {
    let requestor = DeployContractArgsRequestor::Deployer;
    assert_eq!(requestor.to_string(), "deployer");
}
