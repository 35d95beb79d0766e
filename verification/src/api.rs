//! The two operations as a host application sees them: a value, or one
//! message that names the part that failed and says why.

use vstd::prelude::*;
use crate::error::{PayError, PayErrorView, result_view};
use crate::lightning::{InvoiceRequestView, on_invoice};
use crate::payment::{Action, AttemptView, EventView, PaymentAttempt, start};
use crate::wallet::{
    AwaitingBalance,
    AwaitingBalanceView,
    DescriptorView,
    NwcClient,
    WalletReply,
    WalletReplyView,
    client_for,
    parsed_descriptor,
};

verus! {

/// The message for an error in one part of an operation.
pub open spec fn failure_message(part: Seq<char>, error: PayErrorView) -> Seq<char> {
    part + ": "@ + error.message()
}

impl PayErrorView {
    /// The part of a payment that an error belongs to: the wallet connection
    /// for a malformed descriptor, the payment itself for a timeout or a
    /// refusal, the retrieval of the invoice for all others.
    pub open spec fn payment_part(self) -> Seq<char> {
        match self {
            PayErrorView::MalformedDescriptor(_) => "NWC connection initialization failed"@,
            PayErrorView::Timeout { .. } => "Payment failed"@,
            PayErrorView::Remote { .. } => "Payment failed"@,
            _ => "Invoice retrieval failed"@,
        }
    }
}

/// The start of a connection test, given the client that the connection
/// string stands for.
pub open spec fn connection_test_start(client: Result<DescriptorView, PayErrorView>) -> Result<
    AwaitingBalanceView,
    Seq<char>,
> {
    match client {
        Ok(client) => match client.balance_query() {
            Ok(pending) => Ok(pending),
            Err(error) => Err(failure_message("Connection test failed"@, error)),
        },
        Err(error) => Err(failure_message("NWC connection initialization failed"@, error)),
    }
}

/// The end of a connection test: the balance in satoshi, or the message.
pub open spec fn connection_test_end(
    pending: AwaitingBalanceView,
    reply: WalletReplyView<u64>,
) -> Result<u64, Seq<char>> {
    match pending.on_reply(reply) {
        Ok(balance_sats) => Ok(balance_sats),
        Err(error) => Err(failure_message("Connection test failed"@, error)),
    }
}

/// The end of a payment: the preimage, or the message; nothing while the
/// attempt is under way.
pub open spec fn payment_end(attempt: AttemptView) -> Option<Result<Seq<char>, Seq<char>>> {
    match attempt {
        AttemptView::Settled { preimage } => Some(Ok(preimage)),
        AttemptView::Failed { error } => Some(
            Err(failure_message(error.payment_part(), error)),
        ),
        _ => None,
    }
}

/// A payment that fails is told under the part that failed: the
/// retrieval of the invoice while the service is asked, the wallet connection
/// where the descriptor is refused, the payment once the wallet has the
/// command.
pub proof fn lemma_failure_names_its_part(state: AttemptView, event: EventView, nonce: u64)
    requires
        state.step(event, nonce).0 is Failed,
    ensures
        ({
            let part = state.step(event, nonce).0->error.payment_part();
            &&& state is Resolving ==> part == "Invoice retrieval failed"@
            &&& state is InvoiceRequested ==> part == if event matches EventView::Invoice(reply)
                && on_invoice(reply) is Ok {
                "NWC connection initialization failed"@
            } else {
                "Invoice retrieval failed"@
            }
            &&& state is Paying ==> part == "Payment failed"@
        }),
{
}

fn message_for(part: &str, error: &PayError) -> (text: String)
    ensures
        text@ == failure_message(part@, error@),
{
    let mut text = part.to_owned();
    text.append(": ");
    text.append(error.message().as_str());
    text
}

fn payment_part(error: &PayError) -> (part: &'static str)
    ensures
        part@ == error@.payment_part(),
{
    match error {
        PayError::MalformedDescriptor(_) => "NWC connection initialization failed",
        PayError::Timeout { .. } => "Payment failed",
        PayError::Remote { .. } => "Payment failed",
        _ => "Invoice retrieval failed",
    }
}

/// Starts a connection test with the client that a connection string stands
/// for.
///
/// Where there is no client, the message begins with "NWC connection
/// initialization failed"; where the client has no relay, with "Connection
/// test failed". Otherwise the result is the balance query to make.
pub fn connection_test(client: Result<NwcClient, PayError>) -> (r: Result<AwaitingBalance, String>)
    ensures
        result_view(r) == connection_test_start(result_view(client)),
{
    match client {
        Ok(client) => match client.test_connection() {
            Ok(pending) => Ok(pending),
            Err(error) => Err(message_for("Connection test failed", &error)),
        },
        Err(error) => Err(message_for("NWC connection initialization failed", &error)),
    }
}

/// Starts a test of the wallet connection that `connection_string` describes.
pub fn test_nwc_connection(connection_string: String) -> (r: Result<AwaitingBalance, String>)
    ensures
        result_view(r) == connection_test_start(
            client_for(parsed_descriptor(connection_string@)),
        ),
{
    connection_test(NwcClient::new(connection_string.as_str()))
}

/// Ends a connection test with the wallet's reply: the balance in satoshi, or
/// a message that begins with "Connection test failed".
pub fn connection_tested(pending: AwaitingBalance, reply: WalletReply<u64>) -> (r: Result<
    u64,
    String,
>)
    ensures
        result_view(r) == connection_test_end(pending@, reply@),
{
    match pending.reply_received(reply) {
        Ok(balance_sats) => Ok(balance_sats),
        Err(error) => Err(message_for("Connection test failed", &error)),
    }
}

/// Starts a payment of `amount_sats` satoshi to a Lightning address through
/// the wallet that `connection_string` describes.
pub fn pay_lightning_invoice(
    connection_string: String,
    lightning_address: String,
    amount_sats: u64,
    comment: Option<String>,
) -> (r: (PaymentAttempt, Action))
    ensures
        (r.0@, r.1@) == start(
            lightning_address@,
            InvoiceRequestView { amount_sats, comment: comment.deep_view() },
            connection_string@,
        ),
{
    PaymentAttempt::start(lightning_address.as_str(), amount_sats, comment, connection_string)
}

/// Ends a payment: the preimage where the attempt is settled, the message
/// where it failed, nothing where it is still under way.
pub fn payment_result(attempt: PaymentAttempt) -> (r: Option<Result<String, String>>)
    ensures
        match r {
            Some(outcome) => payment_end(attempt@) == Some(result_view(outcome)),
            None => payment_end(attempt@) is None,
        },
{
    match attempt.into_outcome() {
        Some(Ok(preimage)) => Some(Ok(preimage)),
        Some(Err(error)) => Some(Err(message_for(payment_part(&error), &error))),
        None => None,
    }
}

} // verus!
