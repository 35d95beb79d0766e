use zap_clock::error::{DescriptorFault, PayError};
use zap_clock::wallet::{
    AwaitingBalance, AwaitingPayment, NwcClient, WalletConnectionDescriptor, WalletReply,
    BALANCE_DEADLINE_SECS, PAYMENT_DEADLINE_SECS,
};

fn identity() -> String {
    "02".repeat(32)
}

fn secret() -> String {
    "01".repeat(32)
}

fn connection_string() -> String {
    format!(
        "nostr+walletconnect://{}?relay=wss%3A%2F%2Frelay.example.com&secret={}",
        identity(),
        secret()
    )
}

fn descriptor(relay: &str, identity: &str, secret: &str) -> WalletConnectionDescriptor {
    WalletConnectionDescriptor {
        relay_endpoint: String::from(relay),
        wallet_identity: String::from(identity),
        client_secret: String::from(secret),
    }
}

fn client() -> NwcClient {
    NwcClient { descriptor: descriptor("wss://relay.example.com", &identity(), &secret()) }
}

fn malformed(fault: DescriptorFault) -> PayError {
    PayError::MalformedDescriptor(fault)
}

#[test]
fn a_connection_string_is_taken_apart() {
    let client = match NwcClient::new(&connection_string()) {
        Ok(client) => client,
        Err(error) => panic!("refused: {:?}", error),
    };
    assert_eq!(client.descriptor.relay_endpoint, "wss://relay.example.com");
    assert_eq!(client.descriptor.wallet_identity, identity());
    assert_eq!(client.descriptor.client_secret, secret());
    assert!(client == self::client());
}

#[test]
fn a_connection_string_may_name_more_than_it_needs() {
    let text = format!("{}&lud16=nostr%40nostr.com", connection_string());
    let client = NwcClient::new(&text).ok().unwrap();
    assert_eq!(client.descriptor.relay_endpoint, "wss://relay.example.com");
    assert_eq!(client.descriptor.client_secret, secret());
}

#[test]
fn a_text_that_is_no_connection_string_is_refused() {
    let refused = [
        String::new(),
        String::from("not a descriptor"),
        String::from("alice@example.com"),
        format!("https://{}?relay=wss%3A%2F%2Frelay.example.com&secret={}", identity(), secret()),
        format!("nostr+walletconnect://{}?secret={}", identity(), secret()),
        format!("nostr+walletconnect://{}?relay=wss%3A%2F%2Frelay.example.com", identity()),
        format!("nostr+walletconnect://?relay=wss%3A%2F%2Frelay.example.com&secret={}", secret()),
        format!("nostr+walletconnect://{}?relay=&secret={}", identity(), secret()),
        format!("nostr+walletconnect://{}?relay=wss%3A%2F%2Frelay.example.com&secret=", identity()),
        format!("nostr+walletconnect://abc?relay=wss%3A%2F%2Frelay.example.com&secret={}", secret()),
    ];
    for text in refused.iter() {
        assert!(
            NwcClient::new(text).err() == Some(malformed(DescriptorFault::Unparseable)),
            "accepted: {}",
            text
        );
    }
}

#[test]
fn a_descriptor_with_an_empty_part_is_refused() {
    assert!(
        NwcClient::from_descriptor(descriptor("", "02", "01")).err()
            == Some(malformed(DescriptorFault::MissingRelay))
    );
    assert!(
        NwcClient::from_descriptor(descriptor("wss://r", "", "01")).err()
            == Some(malformed(DescriptorFault::MissingIdentity))
    );
    assert!(
        NwcClient::from_descriptor(descriptor("wss://r", "02", "")).err()
            == Some(malformed(DescriptorFault::MissingSecret))
    );
    assert!(
        NwcClient::from_descriptor(descriptor("", "", "")).err()
            == Some(malformed(DescriptorFault::MissingRelay))
    );
    assert!(
        NwcClient::from_descriptor(descriptor("wss://r", "", "")).err()
            == Some(malformed(DescriptorFault::MissingIdentity))
    );
}

#[test]
fn a_descriptor_that_lacks_nothing_is_kept_as_it_is() {
    let client = NwcClient::from_descriptor(descriptor("wss://r", "02", "01")).ok().unwrap();
    assert!(client.descriptor == descriptor("wss://r", "02", "01"));
    assert!(client.descriptor.clone() == client.descriptor);
}

#[test]
fn a_connection_test_asks_for_the_balance_within_thirty_seconds() {
    let pending = client().test_connection().ok().unwrap();
    assert_eq!(pending.deadline_secs, 30);
    assert_eq!(BALANCE_DEADLINE_SECS, 30);
    assert!(pending.wallet == client().descriptor);
}

#[test]
fn a_connection_test_needs_a_relay() {
    let client = NwcClient { descriptor: descriptor("", &identity(), &secret()) };
    assert!(client.test_connection().err() == Some(malformed(DescriptorFault::MissingRelay)));
}

fn awaiting_balance() -> AwaitingBalance {
    client().test_connection().ok().unwrap()
}

#[test]
fn a_balance_is_given_in_whole_satoshi() {
    assert_eq!(awaiting_balance().reply_received(WalletReply::Answered(123456)), Ok(123));
    assert_eq!(awaiting_balance().reply_received(WalletReply::Answered(1000)), Ok(1));
    assert_eq!(awaiting_balance().reply_received(WalletReply::Answered(999)), Ok(0));
    assert_eq!(awaiting_balance().reply_received(WalletReply::Answered(0)), Ok(0));
    assert_eq!(
        awaiting_balance().reply_received(WalletReply::Answered(u64::MAX)),
        Ok(18446744073709551)
    );
}

#[test]
fn a_balance_query_without_reply_times_out() {
    assert_eq!(
        awaiting_balance().reply_received(WalletReply::DeadlineExceeded),
        Err(PayError::Timeout { secs: 30 })
    );
}

#[test]
fn a_refused_balance_query_is_a_remote_error() {
    assert_eq!(
        awaiting_balance().reply_received(WalletReply::Rejected(String::from("unauthorized"))),
        Err(PayError::Remote { detail: String::from("unauthorized") })
    );
}

#[test]
fn a_payment_command_carries_invoice_and_identifier() {
    let pending = client().pay_invoice_with_nonce("lnbc1examplefixedstring", 42);
    assert_eq!(pending.invoice, "lnbc1examplefixedstring");
    assert_eq!(pending.request_id, "pay_42");
    assert_eq!(pending.deadline_secs, 60);
    assert_eq!(PAYMENT_DEADLINE_SECS, 60);
    assert!(pending.wallet == client().descriptor);
    assert_eq!(client().pay_invoice_with_nonce("x", 0).request_id, "pay_0");
    assert_eq!(
        client().pay_invoice_with_nonce("x", u64::MAX).request_id,
        "pay_18446744073709551615"
    );
}

#[test]
fn a_payment_command_draws_its_identifier() {
    let pending = client().pay_invoice("lnbc1examplefixedstring");
    assert_eq!(pending.invoice, "lnbc1examplefixedstring");
    assert_eq!(pending.deadline_secs, 60);
    let number = pending.request_id.strip_prefix("pay_").unwrap();
    let nonce: u64 = number.parse().unwrap();
    assert!(pending == client().pay_invoice_with_nonce("lnbc1examplefixedstring", nonce));
}

#[test]
fn payment_commands_differ_in_their_identifiers() {
    let mut seen = std::collections::HashSet::new();
    for _ in 0..16 {
        seen.insert(client().pay_invoice("lnbc1").request_id);
    }
    assert!(seen.len() > 1);
}

fn awaiting_payment() -> AwaitingPayment {
    client().pay_invoice_with_nonce("lnbc1examplefixedstring", 7)
}

#[test]
fn a_paid_invoice_yields_the_preimage() {
    assert_eq!(
        awaiting_payment().reply_received(WalletReply::Answered(String::from("deadbeef"))),
        Ok(String::from("deadbeef"))
    );
}

#[test]
fn a_payment_without_reply_times_out_and_yields_no_preimage() {
    let outcome = awaiting_payment().reply_received(WalletReply::DeadlineExceeded);
    assert_eq!(outcome, Err(PayError::Timeout { secs: 60 }));
    assert!(outcome.ok().is_none());
}

#[test]
fn a_refused_payment_is_a_remote_error() {
    assert_eq!(
        awaiting_payment().reply_received(WalletReply::Rejected(String::from("PAYMENT_FAILED"))),
        Err(PayError::Remote { detail: String::from("PAYMENT_FAILED") })
    );
}
