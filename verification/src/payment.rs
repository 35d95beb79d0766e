//! One payment to a Lightning address, step by step.
//!
//! An attempt resolves the address, requests the invoice and has the wallet
//! pay it. It does none of this itself: each step names the request to make,
//! and the next step takes what came back. The first failure ends the attempt.

use vstd::prelude::*;
use crate::address::AddressView;
use crate::error::{PayError, PayErrorView, result_view};
use crate::lightning::{
    AwaitingInvoice,
    AwaitingInvoiceView,
    AwaitingServiceInfo,
    AwaitingServiceInfoView,
    FetchReply,
    InvoiceRequestView,
    InvoiceResponse,
    InvoiceResponseView,
    LightningPayment,
    MSAT_PER_SAT,
    PayServiceInfo,
    ServiceInfoView,
    on_invoice,
    resolve,
    service_info_url,
};
use crate::wallet::{
    AwaitingPayment,
    AwaitingPaymentView,
    DescriptorView,
    NwcClient,
    PAYMENT_DEADLINE_SECS,
    WalletConnectionDescriptor,
    WalletReply,
    WalletReplyView,
    client_for,
    parsed_descriptor,
    random_nonce,
    request_id,
};

pub mod laws;

verus! {

/// Where an attempt stands.
#[derive(Clone, Copy, Debug, PartialEq, Eq, Structural)]
pub enum Phase {
    /// The service's metadata is being fetched.
    Resolving,
    /// The invoice is being fetched.
    InvoiceRequested,
    /// The wallet has the payment command.
    Paying,
    /// The wallet paid.
    Settled,
    /// The attempt failed.
    Failed,
}

/// One payment attempt. No `Debug`: the connection string holds a secret.
#[derive(PartialEq, Eq)]
pub enum PaymentAttempt {
    /// Waits for the service's metadata.
    Resolving { query: AwaitingServiceInfo, connection_string: String },
    /// Waits for the invoice.
    InvoiceRequested { fetch: AwaitingInvoice, connection_string: String },
    /// Waits for the wallet's reply to the payment command.
    Paying { command: AwaitingPayment },
    /// Over: the wallet paid and gave this preimage.
    Settled { preimage: String },
    /// Over: a step failed with this error.
    Failed { error: PayError },
}

/// A `PaymentAttempt` with its texts as sequences of characters.
pub enum AttemptView {
    Resolving { query: AwaitingServiceInfoView, connection_string: Seq<char> },
    InvoiceRequested { fetch: AwaitingInvoiceView, connection_string: Seq<char> },
    Paying { command: AwaitingPaymentView },
    Settled { preimage: Seq<char> },
    Failed { error: PayErrorView },
}

impl View for PaymentAttempt {
    type V = AttemptView;

    open spec fn view(&self) -> AttemptView {
        match *self {
            PaymentAttempt::Resolving { query, connection_string } => AttemptView::Resolving {
                query: query@,
                connection_string: connection_string@,
            },
            PaymentAttempt::InvoiceRequested {
                fetch,
                connection_string,
            } => AttemptView::InvoiceRequested {
                fetch: fetch@,
                connection_string: connection_string@,
            },
            PaymentAttempt::Paying { command } => AttemptView::Paying { command: command@ },
            PaymentAttempt::Settled { preimage } => AttemptView::Settled { preimage: preimage@ },
            PaymentAttempt::Failed { error } => AttemptView::Failed { error: error@ },
        }
    }
}

/// What the caller is to do next. No `Debug`: a payment command holds the
/// wallet's secret.
#[derive(PartialEq, Eq)]
pub enum Action {
    /// Fetch the service's metadata with a GET request to `url`.
    FetchServiceInfo { url: String },
    /// Fetch the invoice with a GET request to `callback_url` with `query`.
    FetchInvoice { callback_url: String, query: Vec<(String, String)> },
    /// Have the wallet pay `invoice`, once, and wait `deadline_secs` seconds
    /// at most for its reply.
    PayInvoice {
        wallet: WalletConnectionDescriptor,
        invoice: String,
        request_id: String,
        deadline_secs: u64,
    },
    /// Nothing new: the reply to the last request is still awaited.
    Wait,
    /// Nothing: the attempt is over.
    Done,
}

/// An `Action` with its texts as sequences of characters.
pub enum ActionView {
    FetchServiceInfo { url: Seq<char> },
    FetchInvoice { callback_url: Seq<char>, query: Seq<(Seq<char>, Seq<char>)> },
    PayInvoice {
        wallet: DescriptorView,
        invoice: Seq<char>,
        request_id: Seq<char>,
        deadline_secs: u64,
    },
    Wait,
    Done,
}

impl View for Action {
    type V = ActionView;

    open spec fn view(&self) -> ActionView {
        match *self {
            Action::FetchServiceInfo { url } => ActionView::FetchServiceInfo { url: url@ },
            Action::FetchInvoice { callback_url, query } => ActionView::FetchInvoice {
                callback_url: callback_url@,
                query: query.deep_view(),
            },
            Action::PayInvoice {
                wallet,
                invoice,
                request_id,
                deadline_secs,
            } => ActionView::PayInvoice {
                wallet: wallet@,
                invoice: invoice@,
                request_id: request_id@,
                deadline_secs,
            },
            Action::Wait => ActionView::Wait,
            Action::Done => ActionView::Done,
        }
    }
}

/// What came back from a request.
#[derive(Debug, PartialEq, Eq)]
pub enum Event {
    /// The reply to the request for the service's metadata.
    ServiceInfo(FetchReply<PayServiceInfo>),
    /// The reply to the request for the invoice.
    Invoice(FetchReply<InvoiceResponse>),
    /// The wallet's reply to the payment command.
    Wallet(WalletReply<String>),
}

/// An `Event` with its texts as sequences of characters.
pub enum EventView {
    ServiceInfo(FetchReply<ServiceInfoView>),
    Invoice(FetchReply<InvoiceResponseView>),
    Wallet(WalletReplyView<Seq<char>>),
}

impl View for Event {
    type V = EventView;

    open spec fn view(&self) -> EventView {
        match *self {
            Event::ServiceInfo(reply) => EventView::ServiceInfo(reply@),
            Event::Invoice(reply) => EventView::Invoice(reply@),
            Event::Wallet(reply) => EventView::Wallet(reply@),
        }
    }
}

impl Phase {
    /// The place of a phase in the order of an attempt. The two ends share
    /// the last place.
    pub open spec fn rank(self) -> nat {
        match self {
            Phase::Resolving => 0,
            Phase::InvoiceRequested => 1,
            Phase::Paying => 2,
            Phase::Settled => 3,
            Phase::Failed => 3,
        }
    }
}

impl AwaitingInvoiceView {
    /// The action that fetches the invoice.
    pub open spec fn action(self) -> ActionView {
        ActionView::FetchInvoice {
            callback_url: self.callback.callback_url,
            query: self.callback.query(),
        }
    }
}

impl AwaitingPaymentView {
    /// The action that sends this command.
    pub open spec fn action(self) -> ActionView {
        ActionView::PayInvoice {
            wallet: self.wallet,
            invoice: self.invoice,
            request_id: self.request_id,
            deadline_secs: self.deadline_secs,
        }
    }
}

/// The state and the action once the invoice is there: the payment command
/// to the client's wallet, or the failure where there is no client.
pub open spec fn command_step(
    invoice: Seq<char>,
    client: Result<DescriptorView, PayErrorView>,
    nonce: u64,
) -> (AttemptView, ActionView) {
    match client {
        Ok(client) => {
            let command = client.payment_command(invoice, nonce);
            (AttemptView::Paying { command }, command.action())
        },
        Err(error) => (AttemptView::Failed { error }, ActionView::Done),
    }
}

/// The attempt's first state and action: the address is split and the
/// service's metadata asked for, or the attempt has failed already.
pub open spec fn start(
    address: Seq<char>,
    request: InvoiceRequestView,
    connection_string: Seq<char>,
) -> (AttemptView, ActionView) {
    match resolve(address, request) {
        Ok(query) => (
            AttemptView::Resolving { query, connection_string },
            ActionView::FetchServiceInfo { url: query.url },
        ),
        Err(error) => (AttemptView::Failed { error }, ActionView::Done),
    }
}

impl AttemptView {
    pub open spec fn phase(self) -> Phase {
        match self {
            AttemptView::Resolving { .. } => Phase::Resolving,
            AttemptView::InvoiceRequested { .. } => Phase::InvoiceRequested,
            AttemptView::Paying { .. } => Phase::Paying,
            AttemptView::Settled { .. } => Phase::Settled,
            AttemptView::Failed { .. } => Phase::Failed,
        }
    }

    /// The attempt is over.
    pub open spec fn is_over(self) -> bool {
        self is Settled || self is Failed
    }

    /// The event answers the request that this state waits for.
    pub open spec fn awaits(self, event: EventView) -> bool {
        ||| self is Resolving && event is ServiceInfo
        ||| self is InvoiceRequested && event is Invoice
        ||| self is Paying && event is Wallet
    }

    /// What holds of every state that an attempt reaches: the metadata is
    /// asked for at the well-known place of an address, an invoice is
    /// requested for a whole number of satoshi, and a payment command goes to
    /// a wallet whose descriptor lacks nothing, with the payment deadline.
    pub open spec fn well_formed(self) -> bool {
        match self {
            AttemptView::Resolving { query, .. } => exists|address: AddressView|
                address.well_formed() && query.url == service_info_url(address),
            AttemptView::InvoiceRequested { fetch, .. } => fetch.callback.amount_msat
                % MSAT_PER_SAT == 0,
            AttemptView::Paying { command } => {
                &&& command.wallet.fault() is None
                &&& command.deadline_secs == PAYMENT_DEADLINE_SECS
                &&& exists|nonce: u64| command.request_id == request_id(nonce)
            },
            _ => true,
        }
    }

    /// The state and the action that follow on an event. `nonce` is the
    /// number that identifies the payment command, should one be made.
    ///
    /// An attempt that is over stays as it is. An event that does not answer
    /// the awaited request changes nothing either. Otherwise the step of
    /// `lightning` or `wallet` for this state decides: its error ends the
    /// attempt, its result leads on. The connection string is read when the
    /// invoice has come, not before.
    pub open spec fn step(self, event: EventView, nonce: u64) -> (AttemptView, ActionView) {
        match self {
            AttemptView::Resolving { query, connection_string } => match event {
                EventView::ServiceInfo(reply) => match query.on_service_info(reply) {
                    Ok(fetch) => (
                        AttemptView::InvoiceRequested { fetch, connection_string },
                        fetch.action(),
                    ),
                    Err(error) => (AttemptView::Failed { error }, ActionView::Done),
                },
                _ => (self, ActionView::Wait),
            },
            AttemptView::InvoiceRequested { connection_string, .. } => match event {
                EventView::Invoice(reply) => match on_invoice(reply) {
                    Ok(invoice) => command_step(
                        invoice,
                        client_for(parsed_descriptor(connection_string)),
                        nonce,
                    ),
                    Err(error) => (AttemptView::Failed { error }, ActionView::Done),
                },
                _ => (self, ActionView::Wait),
            },
            AttemptView::Paying { command } => match event {
                EventView::Wallet(reply) => match command.on_reply(reply) {
                    Ok(preimage) => (AttemptView::Settled { preimage }, ActionView::Done),
                    Err(error) => (AttemptView::Failed { error }, ActionView::Done),
                },
                _ => (self, ActionView::Wait),
            },
            AttemptView::Settled { .. } => (self, ActionView::Done),
            AttemptView::Failed { .. } => (self, ActionView::Done),
        }
    }

    /// The state after a run of events, the i-th taken with the i-th nonce.
    pub open spec fn run(self, events: Seq<EventView>, nonces: Seq<u64>) -> AttemptView
        decreases events.len(),
    {
        if events.len() == 0 {
            self
        } else {
            self.step(events[0], nonces[0]).0.run(events.drop_first(), nonces.drop_first())
        }
    }

    /// How many payment commands a run of events issues.
    pub open spec fn commands_issued(self, events: Seq<EventView>, nonces: Seq<u64>) -> nat
        decreases events.len(),
    {
        if events.len() == 0 {
            0
        } else {
            let (next, action) = self.step(events[0], nonces[0]);
            let issued: nat = if action is PayInvoice {
                1
            } else {
                0
            };
            issued + next.commands_issued(events.drop_first(), nonces.drop_first())
        }
    }
}

impl PaymentAttempt {
    /// Begins a payment of `amount_sats` satoshi to a Lightning address
    /// through the wallet that `connection_string` describes.
    ///
    /// A text that is no address fails the attempt at once, with
    /// `PayError::Format`. Otherwise the service's metadata is asked for.
    pub fn start(
        lightning_address: &str,
        amount_sats: u64,
        comment: Option<String>,
        connection_string: String,
    ) -> (r: (PaymentAttempt, Action))
        ensures
            (r.0@, r.1@) == start(
                lightning_address@,
                InvoiceRequestView { amount_sats, comment: comment.deep_view() },
                connection_string@,
            ),
    {
        match LightningPayment::new().get_invoice_from_address(
            lightning_address,
            amount_sats,
            comment,
        ) {
            Ok(query) => {
                let url = query.url.clone();
                (
                    PaymentAttempt::Resolving { query, connection_string },
                    Action::FetchServiceInfo { url },
                )
            },
            Err(error) => (PaymentAttempt::Failed { error }, Action::Done),
        }
    }

    /// Has the client's wallet pay an invoice: the step that follows on the
    /// invoice, given the client that the connection string stands for. Where
    /// there is no client, the attempt fails with the error in its place.
    pub fn pay(invoice: String, client: Result<NwcClient, PayError>, nonce: u64) -> (r: (
        PaymentAttempt,
        Action,
    ))
        ensures
            (r.0@, r.1@) == command_step(invoice@, result_view(client), nonce),
    {
        match client {
            Ok(client) => {
                let command = client.pay_invoice_with_nonce(invoice.as_str(), nonce);
                let action = Action::PayInvoice {
                    wallet: command.wallet.clone(),
                    invoice: command.invoice.clone(),
                    request_id: command.request_id.clone(),
                    deadline_secs: command.deadline_secs,
                };
                (PaymentAttempt::Paying { command }, action)
            },
            Err(error) => (PaymentAttempt::Failed { error }, Action::Done),
        }
    }

    /// Where the attempt stands.
    pub fn phase(&self) -> (phase: Phase)
        ensures
            phase == self@.phase(),
    {
        match self {
            PaymentAttempt::Resolving { .. } => Phase::Resolving,
            PaymentAttempt::InvoiceRequested { .. } => Phase::InvoiceRequested,
            PaymentAttempt::Paying { .. } => Phase::Paying,
            PaymentAttempt::Settled { .. } => Phase::Settled,
            PaymentAttempt::Failed { .. } => Phase::Failed,
        }
    }

    /// Takes an event, with the number that identifies the payment command
    /// should this step make one.
    pub fn advance_with_nonce(self, event: Event, nonce: u64) -> (r: (PaymentAttempt, Action))
        ensures
            (r.0@, r.1@) == self@.step(event@, nonce),
    {
        match self {
            PaymentAttempt::Resolving { query, connection_string } => match event {
                Event::ServiceInfo(reply) => match query.service_info_received(reply) {
                    Ok(fetch) => {
                        let action = Action::FetchInvoice {
                            callback_url: fetch.callback.callback_url.clone(),
                            query: fetch.callback.query(),
                        };
                        (PaymentAttempt::InvoiceRequested { fetch, connection_string }, action)
                    },
                    Err(error) => (PaymentAttempt::Failed { error }, Action::Done),
                },
                _ => (PaymentAttempt::Resolving { query, connection_string }, Action::Wait),
            },
            PaymentAttempt::InvoiceRequested { fetch, connection_string } => match event {
                Event::Invoice(reply) => match fetch.invoice_received(reply) {
                    Ok(invoice) => PaymentAttempt::pay(
                        invoice,
                        NwcClient::new(connection_string.as_str()),
                        nonce,
                    ),
                    Err(error) => (PaymentAttempt::Failed { error }, Action::Done),
                },
                _ => (PaymentAttempt::InvoiceRequested { fetch, connection_string }, Action::Wait),
            },
            PaymentAttempt::Paying { command } => match event {
                Event::Wallet(reply) => match command.reply_received(reply) {
                    Ok(preimage) => (PaymentAttempt::Settled { preimage }, Action::Done),
                    Err(error) => (PaymentAttempt::Failed { error }, Action::Done),
                },
                _ => (PaymentAttempt::Paying { command }, Action::Wait),
            },
            PaymentAttempt::Settled { preimage } => (
                PaymentAttempt::Settled { preimage },
                Action::Done,
            ),
            PaymentAttempt::Failed { error } => (PaymentAttempt::Failed { error }, Action::Done),
        }
    }

    /// Takes an event. Where the step makes the payment command, the number
    /// that identifies it is drawn at random.
    pub fn advance(self, event: Event) -> (r: (PaymentAttempt, Action))
        ensures
            exists|nonce: u64| (r.0@, r.1@) == self@.step(event@, nonce),
    {
        let nonce: u64 = match self.phase() {
            Phase::InvoiceRequested => random_nonce(),
            _ => 0,
        };
        self.advance_with_nonce(event, nonce)
    }

    /// How the attempt ended, once it is over.
    pub fn into_outcome(self) -> (outcome: Option<Result<String, PayError>>)
        ensures
            match outcome {
                Some(Ok(preimage)) => self@ == (AttemptView::Settled { preimage: preimage@ }),
                Some(Err(error)) => self@ == (AttemptView::Failed { error: error@ }),
                None => !self@.is_over(),
            },
    {
        match self {
            PaymentAttempt::Settled { preimage } => Some(Ok(preimage)),
            PaymentAttempt::Failed { error } => Some(Err(error)),
            _ => None,
        }
    }
}

} // verus!
