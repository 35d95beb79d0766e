//! The connection to a remote wallet: its descriptor, the two commands that go
//! to the wallet, and how the wallet's replies are read.

use vstd::prelude::*;
use crate::decimal::{append_decimal, decimal, lemma_decimal_injective};
use crate::error::{DescriptorFault, PayError, PayErrorView, result_view};
use crate::lightning::MSAT_PER_SAT;

verus! {

/// Seconds that a balance query may take.
pub const BALANCE_DEADLINE_SECS: u64 = 30;

/// Seconds that a payment may take.
pub const PAYMENT_DEADLINE_SECS: u64 = 60;

/// What a connection descriptor holds. No `Debug`: the secret is not for logs.
#[derive(PartialEq, Eq)]
pub struct WalletConnectionDescriptor {
    /// The relay through which the wallet is reached.
    pub relay_endpoint: String,
    /// The wallet's public key, in hexadecimal.
    pub wallet_identity: String,
    /// The client's secret, in hexadecimal.
    pub client_secret: String,
}

/// A `WalletConnectionDescriptor` with its texts as sequences of characters.
pub struct DescriptorView {
    pub relay_endpoint: Seq<char>,
    pub wallet_identity: Seq<char>,
    pub client_secret: Seq<char>,
}

impl View for WalletConnectionDescriptor {
    type V = DescriptorView;

    open spec fn view(&self) -> DescriptorView {
        DescriptorView {
            relay_endpoint: self.relay_endpoint@,
            wallet_identity: self.wallet_identity@,
            client_secret: self.client_secret@,
        }
    }
}

impl Clone for WalletConnectionDescriptor {
    fn clone(&self) -> (copy: Self)
        ensures
            copy == *self,
    {
        WalletConnectionDescriptor {
            relay_endpoint: self.relay_endpoint.clone(),
            wallet_identity: self.wallet_identity.clone(),
            client_secret: self.client_secret.clone(),
        }
    }
}

/// `nostr::nips::nip47::Error`, the error of `nostr`'s parser. It is declared
/// so that the parser's result can be named; nothing is known of its values.
#[verifier::external_type_specification]
#[verifier::external_body]
pub struct ExWalletUriError(nostr::nips::nip47::Error);

/// What `nostr`'s parser makes of a connection descriptor: its relay, public
/// key and secret, or nothing where it refuses the text.
pub uninterp spec fn parsed_descriptor(text: Seq<char>) -> Option<DescriptorView>;

/// Calls `nostr::nips::nip47::NostrWalletConnectURI::parse`.
///
/// Trusted: the parser's answer is a function of the text, named
/// `parsed_descriptor`. On success the three parts are the parsed relay URL as
/// it prints, the public key in hexadecimal and the secret in hexadecimal.
/// Nothing else is claimed of them.
#[verifier::external_body]
fn parse_wallet_uri(text: &str) -> (r: Result<
    WalletConnectionDescriptor,
    nostr::nips::nip47::Error,
>)
    ensures
        match r {
            Ok(descriptor) => parsed_descriptor(text@) == Some(descriptor@),
            Err(_) => parsed_descriptor(text@) is None,
        },
{
    let uri = nostr::nips::nip47::NostrWalletConnectURI::parse(text)?;
    Ok(
        WalletConnectionDescriptor {
            relay_endpoint: uri.relay_url.to_string(),
            wallet_identity: uri.public_key.to_hex(),
            client_secret: uri.secret.to_secret_hex(),
        },
    )
}

/// Calls `rand::random::<u64>`.
///
/// Trusted, and nothing is claimed: any number may come back.
#[verifier::external_body]
pub(crate) fn random_nonce() -> (nonce: u64) {
    rand::random::<u64>()
}

impl DescriptorView {
    /// What the descriptor lacks, if anything: the first empty part among
    /// relay, identity and secret.
    pub open spec fn fault(self) -> Option<DescriptorFault> {
        if self.relay_endpoint.len() == 0 {
            Some(DescriptorFault::MissingRelay)
        } else if self.wallet_identity.len() == 0 {
            Some(DescriptorFault::MissingIdentity)
        } else if self.client_secret.len() == 0 {
            Some(DescriptorFault::MissingSecret)
        } else {
            None
        }
    }

    /// The descriptor itself where it lacks nothing, else the error that names
    /// what it lacks.
    pub open spec fn checked(self) -> Result<DescriptorView, PayErrorView> {
        match self.fault() {
            Some(fault) => Err(PayErrorView::MalformedDescriptor(fault)),
            None => Ok(self),
        }
    }
}

/// The client for a connection string, given what the parser makes of it.
pub open spec fn client_for(parsed: Option<DescriptorView>) -> Result<
    DescriptorView,
    PayErrorView,
> {
    match parsed {
        Some(descriptor) => descriptor.checked(),
        None => Err(PayErrorView::MalformedDescriptor(DescriptorFault::Unparseable)),
    }
}

/// The identifier of a payment command made with the number `nonce`.
pub open spec fn request_id(nonce: u64) -> Seq<char> {
    "pay_"@ + decimal(nonce as nat)
}

/// Payment commands made with different numbers have different identifiers.
pub proof fn lemma_request_ids_differ(first: u64, second: u64)
    requires
        first != second,
    ensures
        request_id(first) != request_id(second),
{
    if request_id(first) == request_id(second) {
        let prefix = "pay_"@;
        assert(request_id(first).subrange(prefix.len() as int, request_id(first).len() as int)
            =~= decimal(first as nat));
        assert(request_id(second).subrange(prefix.len() as int, request_id(second).len() as int)
            =~= decimal(second as nat));
        lemma_decimal_injective(first as nat, second as nat);
    }
}

/// How a command to the wallet ended.
#[derive(Debug, PartialEq, Eq)]
pub enum WalletReply<T> {
    /// The wallet answered.
    Answered(T),
    /// The wallet, or the way to it, refused the command.
    Rejected(String),
    /// No reply came within the deadline. The wallet may have acted all the
    /// same.
    DeadlineExceeded,
}

/// A `WalletReply` with its texts as sequences of characters.
pub enum WalletReplyView<V> {
    Answered(V),
    Rejected(Seq<char>),
    DeadlineExceeded,
}

impl<T: View> View for WalletReply<T> {
    type V = WalletReplyView<T::V>;

    open spec fn view(&self) -> WalletReplyView<T::V> {
        match *self {
            WalletReply::Answered(answer) => WalletReplyView::Answered(answer@),
            WalletReply::Rejected(detail) => WalletReplyView::Rejected(detail@),
            WalletReply::DeadlineExceeded => WalletReplyView::DeadlineExceeded,
        }
    }
}

/// A client of one remote wallet.
#[derive(PartialEq, Eq)]
pub struct NwcClient {
    /// The connection that the client was made for.
    pub descriptor: WalletConnectionDescriptor,
}

impl View for NwcClient {
    type V = DescriptorView;

    open spec fn view(&self) -> DescriptorView {
        self.descriptor@
    }
}

/// A balance query that waits for the wallet's reply.
#[derive(PartialEq, Eq)]
pub struct AwaitingBalance {
    /// The wallet that is asked.
    pub wallet: WalletConnectionDescriptor,
    /// Seconds after which the query is given up.
    pub deadline_secs: u64,
}

/// An `AwaitingBalance` with its texts as sequences of characters.
pub struct AwaitingBalanceView {
    pub wallet: DescriptorView,
    pub deadline_secs: u64,
}

impl View for AwaitingBalance {
    type V = AwaitingBalanceView;

    open spec fn view(&self) -> AwaitingBalanceView {
        AwaitingBalanceView { wallet: self.wallet@, deadline_secs: self.deadline_secs }
    }
}

/// A payment command that waits for the wallet's reply.
#[derive(PartialEq, Eq)]
pub struct AwaitingPayment {
    /// The wallet that is to pay.
    pub wallet: WalletConnectionDescriptor,
    /// The invoice to pay.
    pub invoice: String,
    /// The identifier of this command.
    pub request_id: String,
    /// Seconds after which the command is given up.
    pub deadline_secs: u64,
}

/// An `AwaitingPayment` with its texts as sequences of characters.
pub struct AwaitingPaymentView {
    pub wallet: DescriptorView,
    pub invoice: Seq<char>,
    pub request_id: Seq<char>,
    pub deadline_secs: u64,
}

impl View for AwaitingPayment {
    type V = AwaitingPaymentView;

    open spec fn view(&self) -> AwaitingPaymentView {
        AwaitingPaymentView {
            wallet: self.wallet@,
            invoice: self.invoice@,
            request_id: self.request_id@,
            deadline_secs: self.deadline_secs,
        }
    }
}

impl DescriptorView {
    /// The balance query to this wallet, or the error for a descriptor
    /// without a relay.
    pub open spec fn balance_query(self) -> Result<AwaitingBalanceView, PayErrorView> {
        if self.relay_endpoint.len() == 0 {
            Err(PayErrorView::MalformedDescriptor(DescriptorFault::MissingRelay))
        } else {
            Ok(AwaitingBalanceView { wallet: self, deadline_secs: BALANCE_DEADLINE_SECS })
        }
    }

    /// The command that has this wallet pay `invoice`, identified by `nonce`.
    pub open spec fn payment_command(self, invoice: Seq<char>, nonce: u64) -> AwaitingPaymentView {
        AwaitingPaymentView {
            wallet: self,
            invoice,
            request_id: request_id(nonce),
            deadline_secs: PAYMENT_DEADLINE_SECS,
        }
    }
}

impl AwaitingBalanceView {
    /// The balance in whole satoshi, or the error that the reply stands for.
    pub open spec fn on_reply(self, reply: WalletReplyView<u64>) -> Result<u64, PayErrorView> {
        match reply {
            WalletReplyView::Answered(balance_msat) => Ok(balance_msat / MSAT_PER_SAT),
            WalletReplyView::Rejected(detail) => Err(PayErrorView::Remote { detail }),
            WalletReplyView::DeadlineExceeded => Err(
                PayErrorView::Timeout { secs: self.deadline_secs },
            ),
        }
    }
}

impl AwaitingPaymentView {
    /// The preimage, or the error that the reply stands for.
    pub open spec fn on_reply(self, reply: WalletReplyView<Seq<char>>) -> Result<
        Seq<char>,
        PayErrorView,
    > {
        match reply {
            WalletReplyView::Answered(preimage) => Ok(preimage),
            WalletReplyView::Rejected(detail) => Err(PayErrorView::Remote { detail }),
            WalletReplyView::DeadlineExceeded => Err(
                PayErrorView::Timeout { secs: self.deadline_secs },
            ),
        }
    }
}

impl NwcClient {
    /// The client for a descriptor that was taken apart already.
    ///
    /// Fails with `PayError::MalformedDescriptor` exactly where the relay, the
    /// identity or the secret is empty, and names the first that is.
    pub fn from_descriptor(descriptor: WalletConnectionDescriptor) -> (r: Result<
        NwcClient,
        PayError,
    >)
        ensures
            result_view(r) == descriptor@.checked(),
    {
        if descriptor.relay_endpoint.as_str().is_empty() {
            Err(PayError::MalformedDescriptor(DescriptorFault::MissingRelay))
        } else if descriptor.wallet_identity.as_str().is_empty() {
            Err(PayError::MalformedDescriptor(DescriptorFault::MissingIdentity))
        } else if descriptor.client_secret.as_str().is_empty() {
            Err(PayError::MalformedDescriptor(DescriptorFault::MissingSecret))
        } else {
            Ok(NwcClient { descriptor })
        }
    }

    /// The client for a connection string.
    ///
    /// Fails with `PayError::MalformedDescriptor` where the parser refuses the
    /// text, and where it yields an empty relay, identity or secret.
    pub fn new(connection_string: &str) -> (r: Result<NwcClient, PayError>)
        ensures
            result_view(r) == client_for(parsed_descriptor(connection_string@)),
    {
        match parse_wallet_uri(connection_string) {
            Ok(descriptor) => NwcClient::from_descriptor(descriptor),
            Err(_) => Err(PayError::MalformedDescriptor(DescriptorFault::Unparseable)),
        }
    }

    /// Starts a connection test: a balance query with a deadline of 30
    /// seconds.
    ///
    /// Fails with `PayError::MalformedDescriptor` exactly where the relay
    /// endpoint is empty.
    pub fn test_connection(&self) -> (r: Result<AwaitingBalance, PayError>)
        ensures
            result_view(r) == self@.balance_query(),
    {
        if self.descriptor.relay_endpoint.as_str().is_empty() {
            Err(PayError::MalformedDescriptor(DescriptorFault::MissingRelay))
        } else {
            Ok(
                AwaitingBalance {
                    wallet: self.descriptor.clone(),
                    deadline_secs: BALANCE_DEADLINE_SECS,
                },
            )
        }
    }

    /// Starts a payment with a given number for its identifier: one command,
    /// with a deadline of 60 seconds.
    pub fn pay_invoice_with_nonce(&self, invoice: &str, nonce: u64) -> (pending: AwaitingPayment)
        ensures
            pending@ == self@.payment_command(invoice@, nonce),
    {
        let mut request_id = "pay_".to_owned();
        append_decimal(&mut request_id, nonce);
        AwaitingPayment {
            wallet: self.descriptor.clone(),
            invoice: invoice.to_owned(),
            request_id,
            deadline_secs: PAYMENT_DEADLINE_SECS,
        }
    }

    /// Starts a payment: one command, identified by a number drawn at random,
    /// with a deadline of 60 seconds.
    pub fn pay_invoice(&self, invoice: &str) -> (pending: AwaitingPayment)
        ensures
            exists|nonce: u64| pending@ == self@.payment_command(invoice@, nonce),
    {
        let nonce: u64 = random_nonce();
        self.pay_invoice_with_nonce(invoice, nonce)
    }
}

impl AwaitingBalance {
    /// Takes the wallet's reply to the balance query.
    ///
    /// A balance comes back in whole satoshi, rounded down. A refusal gives
    /// `PayError::Remote`, a missed deadline `PayError::Timeout`.
    pub fn reply_received(self, reply: WalletReply<u64>) -> (r: Result<u64, PayError>)
        ensures
            result_view(r) == self@.on_reply(reply@),
    {
        match reply {
            WalletReply::Answered(balance_msat) => Ok(balance_msat / MSAT_PER_SAT),
            WalletReply::Rejected(detail) => Err(PayError::Remote { detail }),
            WalletReply::DeadlineExceeded => Err(PayError::Timeout { secs: self.deadline_secs }),
        }
    }
}

impl AwaitingPayment {
    /// Takes the wallet's reply to the payment command.
    ///
    /// The preimage comes back as the wallet gave it. A refusal gives
    /// `PayError::Remote`, a missed deadline `PayError::Timeout`; the command
    /// is not sent again.
    pub fn reply_received(self, reply: WalletReply<String>) -> (r: Result<String, PayError>)
        ensures
            result_view(r) == self@.on_reply(reply@),
    {
        match reply {
            WalletReply::Answered(preimage) => Ok(preimage),
            WalletReply::Rejected(detail) => Err(PayError::Remote { detail }),
            WalletReply::DeadlineExceeded => Err(PayError::Timeout { secs: self.deadline_secs }),
        }
    }
}

} // verus!
