use zap_clock::error::{DescriptorFault, FetchStage, PayError};
use zap_clock::lightning::{FetchReply, InvoiceResponse, PayServiceInfo};
use zap_clock::payment::{Action, Event, PaymentAttempt, Phase};
use zap_clock::wallet::{NwcClient, WalletConnectionDescriptor, WalletReply};

fn identity() -> String {
    "02".repeat(32)
}

fn secret() -> String {
    "01".repeat(32)
}

fn connection_string() -> String {
    format!(
        "nostr+walletconnect://{}?relay=wss%3A%2F%2Frelay.example.com&secret={}",
        identity(),
        secret()
    )
}

fn wallet() -> WalletConnectionDescriptor {
    WalletConnectionDescriptor {
        relay_endpoint: String::from("wss://relay.example.com"),
        wallet_identity: identity(),
        client_secret: secret(),
    }
}

fn service(min_msat: u64, max_msat: u64, max_comment_len: Option<u64>) -> PayServiceInfo {
    PayServiceInfo {
        callback_url: String::from("https://pay.example/lnurlp/bob/callback"),
        min_sendable_msat: min_msat,
        max_sendable_msat: max_msat,
        metadata: String::from("[[\"text/plain\",\"Pay to bob\"]]"),
        tag: String::from("payRequest"),
        max_comment_len,
    }
}

fn service_info(min_msat: u64, max_msat: u64) -> Event {
    Event::ServiceInfo(FetchReply::Decoded(service(min_msat, max_msat, None)))
}

fn invoice(pr: &str) -> Event {
    Event::Invoice(FetchReply::Decoded(InvoiceResponse { pr: String::from(pr), routes: None }))
}

fn paid(preimage: &str) -> Event {
    Event::Wallet(WalletReply::Answered(String::from(preimage)))
}

fn failed(error: PayError) -> PaymentAttempt {
    PaymentAttempt::Failed { error }
}

fn begin() -> (PaymentAttempt, Action) {
    PaymentAttempt::start("bob@pay.example", 25, None, connection_string())
}

fn requested() -> PaymentAttempt {
    begin().0.advance(service_info(1000, 500000)).0
}

fn paying() -> PaymentAttempt {
    requested().advance_with_nonce(invoice("lnbc250n1example"), 7).0
}

#[test]
fn a_payment_runs_from_address_to_preimage() {
    let (attempt, action) = begin();
    assert!(attempt.phase() == Phase::Resolving);
    assert!(
        action
            == Action::FetchServiceInfo {
                url: String::from("https://pay.example/.well-known/lnurlp/bob")
            }
    );

    let (attempt, action) = attempt.advance(service_info(1000, 500000));
    assert!(attempt.phase() == Phase::InvoiceRequested);
    assert!(
        action
            == Action::FetchInvoice {
                callback_url: String::from("https://pay.example/lnurlp/bob/callback"),
                query: vec![(String::from("amount"), String::from("25000"))],
            }
    );

    let (attempt, action) = attempt.advance(invoice("lnbc250n1example"));
    assert!(attempt.phase() == Phase::Paying);
    match action {
        Action::PayInvoice { wallet, invoice, request_id, deadline_secs } => {
            assert!(wallet == self::wallet());
            assert_eq!(invoice, "lnbc250n1example");
            assert!(request_id.starts_with("pay_"));
            assert_eq!(deadline_secs, 60);
        }
        _ => panic!("no payment command"),
    }

    let (attempt, action) = attempt.advance(paid("deadbeef"));
    assert!(action == Action::Done);
    assert!(attempt.phase() == Phase::Settled);
    assert_eq!(attempt.into_outcome(), Some(Ok(String::from("deadbeef"))));
}

#[test]
fn a_payment_sends_the_comment_that_the_service_takes() {
    let (attempt, _) = PaymentAttempt::start(
        "bob@pay.example",
        50,
        Some(String::from("short")),
        connection_string(),
    );
    let reply = Event::ServiceInfo(FetchReply::Decoded(service(1000, 100000, Some(10))));
    let (_, action) = attempt.advance(reply);
    assert!(
        action
            == Action::FetchInvoice {
                callback_url: String::from("https://pay.example/lnurlp/bob/callback"),
                query: vec![
                    (String::from("amount"), String::from("50000")),
                    (String::from("comment"), String::from("short")),
                ],
            }
    );
}

#[test]
fn a_malformed_address_fails_the_payment_at_once() {
    let (attempt, action) = PaymentAttempt::start("a@b@c", 25, None, connection_string());
    assert!(action == Action::Done);
    assert!(attempt.phase() == Phase::Failed);
    assert_eq!(attempt.into_outcome(), Some(Err(PayError::Format)));
}

#[test]
fn a_failed_service_info_request_fails_the_payment() {
    let (attempt, action) = begin().0.advance(Event::ServiceInfo(FetchReply::TransportFailed));
    assert!(action == Action::Done);
    assert!(attempt == failed(PayError::Network(FetchStage::ServiceInfo)));
    let (attempt, action) = begin().0.advance(Event::ServiceInfo(FetchReply::Malformed));
    assert!(action == Action::Done);
    assert!(attempt == failed(PayError::Decode(FetchStage::ServiceInfo)));
}

#[test]
fn an_amount_out_of_range_fails_the_payment() {
    let (attempt, action) = begin().0.advance(service_info(100000, 500000));
    assert!(action == Action::Done);
    assert!(attempt == failed(PayError::AmountOutOfRange { min_sats: 100, max_sats: 500 }));
}

#[test]
fn a_failed_invoice_request_fails_the_payment() {
    let (attempt, action) = requested().advance(Event::Invoice(FetchReply::TransportFailed));
    assert!(action == Action::Done);
    assert!(attempt == failed(PayError::Network(FetchStage::Invoice)));
    let (attempt, action) = requested().advance(Event::Invoice(FetchReply::Malformed));
    assert!(action == Action::Done);
    assert!(attempt == failed(PayError::Decode(FetchStage::Invoice)));
}

#[test]
fn a_malformed_descriptor_fails_the_payment_once_the_invoice_is_there() {
    let (attempt, action) =
        PaymentAttempt::start("bob@pay.example", 25, None, String::from("not a descriptor"));
    assert!(attempt.phase() == Phase::Resolving);
    assert!(matches!(action, Action::FetchServiceInfo { .. }));
    let (attempt, action) = attempt.advance(service_info(1000, 500000));
    assert!(attempt.phase() == Phase::InvoiceRequested);
    assert!(matches!(action, Action::FetchInvoice { .. }));
    let (attempt, action) = attempt.advance(invoice("lnbc250n1example"));
    assert!(action == Action::Done);
    assert!(attempt == failed(PayError::MalformedDescriptor(DescriptorFault::Unparseable)));
}

#[test]
fn a_wallet_that_does_not_reply_fails_the_payment_with_a_timeout() {
    let (attempt, action) = paying().advance(Event::Wallet(WalletReply::DeadlineExceeded));
    assert!(action == Action::Done);
    assert!(attempt.phase() == Phase::Failed);
    assert_eq!(attempt.into_outcome(), Some(Err(PayError::Timeout { secs: 60 })));
}

#[test]
fn a_late_preimage_does_not_settle_a_payment_that_timed_out() {
    let (attempt, _) = paying().advance(Event::Wallet(WalletReply::DeadlineExceeded));
    let (attempt, action) = attempt.advance(paid("deadbeef"));
    assert!(action == Action::Done);
    assert_eq!(attempt.into_outcome(), Some(Err(PayError::Timeout { secs: 60 })));
}

#[test]
fn a_wallet_that_refuses_fails_the_payment() {
    let reply = Event::Wallet(WalletReply::Rejected(String::from("INSUFFICIENT_BALANCE")));
    let (attempt, action) = paying().advance(reply);
    assert!(action == Action::Done);
    assert_eq!(
        attempt.into_outcome(),
        Some(Err(PayError::Remote { detail: String::from("INSUFFICIENT_BALANCE") }))
    );
}

#[test]
fn the_payment_command_is_identified_by_the_nonce() {
    let (attempt, action) = requested().advance_with_nonce(invoice("lnbc250n1example"), 7);
    assert!(attempt.phase() == Phase::Paying);
    assert!(
        action
            == Action::PayInvoice {
                wallet: wallet(),
                invoice: String::from("lnbc250n1example"),
                request_id: String::from("pay_7"),
                deadline_secs: 60,
            }
    );
}

#[test]
fn a_payment_that_is_over_stays_as_it_is() {
    let events = || {
        vec![
            service_info(1000, 500000),
            invoice("lnbc250n1example"),
            paid("cafe"),
            Event::Wallet(WalletReply::DeadlineExceeded),
            Event::ServiceInfo(FetchReply::TransportFailed),
        ]
    };
    for event in events() {
        let (attempt, action) =
            PaymentAttempt::Settled { preimage: String::from("deadbeef") }.advance(event);
        assert!(action == Action::Done);
        assert!(attempt == PaymentAttempt::Settled { preimage: String::from("deadbeef") });
    }
    for event in events() {
        let (attempt, action) = failed(PayError::Format).advance(event);
        assert!(action == Action::Done);
        assert!(attempt == failed(PayError::Format));
    }
}

#[test]
fn an_event_that_is_not_awaited_changes_nothing() {
    let (attempt, action) = begin().0.advance(invoice("lnbc250n1example"));
    assert!(action == Action::Wait);
    assert!(attempt == begin().0);
    let (attempt, action) = begin().0.advance(paid("deadbeef"));
    assert!(action == Action::Wait);
    assert!(attempt == begin().0);
    let (attempt, action) = requested().advance(service_info(1000, 500000));
    assert!(action == Action::Wait);
    assert!(attempt == requested());
    let (attempt, action) = requested().advance(paid("deadbeef"));
    assert!(action == Action::Wait);
    assert!(attempt == requested());
    let (attempt, action) = paying().advance(invoice("lnbc250n1example"));
    assert!(action == Action::Wait);
    assert!(attempt == paying());
    let (attempt, action) = paying().advance(service_info(1000, 500000));
    assert!(action == Action::Wait);
    assert!(attempt == paying());
}

#[test]
fn an_attempt_in_progress_has_no_outcome() {
    assert_eq!(begin().0.into_outcome(), None);
    assert_eq!(requested().into_outcome(), None);
    assert_eq!(paying().into_outcome(), None);
}

#[test]
fn an_attempt_issues_one_payment_command_at_most() {
    let events = vec![
        invoice("early"),
        service_info(1000, 500000),
        service_info(1000, 500000),
        invoice("lnbc250n1example"),
        invoice("lnbc250n1example"),
        service_info(1000, 500000),
        paid("deadbeef"),
        invoice("late"),
        paid("again"),
    ];
    let (mut attempt, mut action) = begin();
    let mut commands = 0;
    for event in events {
        if matches!(action, Action::PayInvoice { .. }) {
            commands += 1;
        }
        (attempt, action) = attempt.advance(event);
    }
    assert_eq!(commands, 1);
    assert_eq!(attempt.into_outcome(), Some(Ok(String::from("deadbeef"))));
}

#[test]
fn the_phases_come_in_order() {
    let (attempt, _) = begin();
    let mut phases = vec![attempt.phase()];
    let mut attempt = attempt;
    for event in [service_info(1000, 500000), invoice("lnbc250n1example"), paid("deadbeef")] {
        attempt = attempt.advance(event).0;
        phases.push(attempt.phase());
    }
    assert_eq!(
        phases,
        vec![Phase::Resolving, Phase::InvoiceRequested, Phase::Paying, Phase::Settled]
    );
}

#[test]
fn the_invoice_goes_to_the_client_s_wallet() {
    let client = NwcClient { descriptor: wallet() };
    let (attempt, action) = PaymentAttempt::pay(String::from("lnbc250n1example"), Ok(client), 11);
    assert!(attempt.phase() == Phase::Paying);
    assert!(
        action
            == Action::PayInvoice {
                wallet: wallet(),
                invoice: String::from("lnbc250n1example"),
                request_id: String::from("pay_11"),
                deadline_secs: 60,
            }
    );
}

#[test]
fn without_a_client_the_invoice_is_not_paid() {
    let refused = Err(PayError::MalformedDescriptor(DescriptorFault::MissingSecret));
    let (attempt, action) = PaymentAttempt::pay(String::from("lnbc250n1example"), refused, 11);
    assert!(action == Action::Done);
    assert!(attempt == failed(PayError::MalformedDescriptor(DescriptorFault::MissingSecret)));
}
