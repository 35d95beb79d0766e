use zap_clock::error::{DescriptorFault, ErrorKind, FetchStage, PayError};

#[test]
fn every_error_has_its_kind() {
    assert_eq!(PayError::Format.kind(), ErrorKind::Format);
    assert_eq!(
        PayError::MalformedDescriptor(DescriptorFault::Unparseable).kind(),
        ErrorKind::Format
    );
    assert_eq!(
        PayError::MalformedDescriptor(DescriptorFault::MissingRelay).kind(),
        ErrorKind::Format
    );
    assert_eq!(PayError::Network(FetchStage::ServiceInfo).kind(), ErrorKind::Network);
    assert_eq!(PayError::Network(FetchStage::Invoice).kind(), ErrorKind::Network);
    assert_eq!(PayError::Decode(FetchStage::ServiceInfo).kind(), ErrorKind::Decode);
    assert_eq!(PayError::Decode(FetchStage::Invoice).kind(), ErrorKind::Decode);
    assert_eq!(
        PayError::AmountOutOfRange { min_sats: 1, max_sats: 100 }.kind(),
        ErrorKind::AmountOutOfRange
    );
    assert_eq!(PayError::Timeout { secs: 60 }.kind(), ErrorKind::Timeout);
    assert_eq!(PayError::Remote { detail: String::from("no") }.kind(), ErrorKind::Remote);
}

#[test]
fn messages_of_the_fixed_errors() {
    assert_eq!(PayError::Format.message(), "Invalid Lightning address format");
    assert_eq!(
        PayError::MalformedDescriptor(DescriptorFault::Unparseable).message(),
        "Failed to parse NWC connection string"
    );
    assert_eq!(
        PayError::MalformedDescriptor(DescriptorFault::MissingRelay).message(),
        "Relay URL not set"
    );
    assert_eq!(
        PayError::MalformedDescriptor(DescriptorFault::MissingIdentity).message(),
        "Wallet public key not set"
    );
    assert_eq!(
        PayError::MalformedDescriptor(DescriptorFault::MissingSecret).message(),
        "Client secret not set"
    );
    assert_eq!(
        PayError::Network(FetchStage::ServiceInfo).message(),
        "Request to LNURL-pay endpoint failed"
    );
    assert_eq!(PayError::Network(FetchStage::Invoice).message(), "Invoice request failed");
    assert_eq!(
        PayError::Decode(FetchStage::ServiceInfo).message(),
        "Failed to parse LNURL-pay response"
    );
    assert_eq!(
        PayError::Decode(FetchStage::Invoice).message(),
        "Failed to parse Invoice response"
    );
}

#[test]
fn messages_that_hold_numbers() {
    assert_eq!(
        PayError::AmountOutOfRange { min_sats: 1, max_sats: 100 }.message(),
        "Amount out of range (1-100 sats)"
    );
    assert_eq!(
        PayError::AmountOutOfRange { min_sats: 0, max_sats: 18446744073709551 }.message(),
        "Amount out of range (0-18446744073709551 sats)"
    );
    assert_eq!(PayError::Timeout { secs: 30 }.message(), "NWC request timed out (30 seconds)");
    assert_eq!(PayError::Timeout { secs: 60 }.message(), "NWC request timed out (60 seconds)");
}

#[test]
fn a_refusal_is_told_in_the_wallet_s_words() {
    let error = PayError::Remote { detail: String::from("Insufficient balance [InsufficientBalance]") };
    assert_eq!(error.message(), "Insufficient balance [InsufficientBalance]");
}

#[test]
fn a_cloned_error_is_the_same_error() {
    let errors = [
        PayError::Format,
        PayError::MalformedDescriptor(DescriptorFault::MissingSecret),
        PayError::Network(FetchStage::Invoice),
        PayError::Decode(FetchStage::ServiceInfo),
        PayError::AmountOutOfRange { min_sats: 3, max_sats: 4 },
        PayError::Timeout { secs: 30 },
        PayError::Remote { detail: String::from("refused") },
    ];
    for error in errors.iter() {
        assert_eq!(error.clone(), *error);
    }
}
