//! What holds of every payment attempt.

use vstd::prelude::*;
use crate::address::is_valid_address;
use crate::error::PayErrorView;
use crate::lightning::{
    FetchReply,
    InvoiceRequestView,
    InvoiceResponseView,
    ServiceInfoView,
    on_invoice,
};
use crate::payment::{ActionView, AttemptView, EventView, Phase, start};
use crate::wallet::{
    PAYMENT_DEADLINE_SECS,
    WalletReplyView,
    client_for,
    parsed_descriptor,
};

verus! {

/// An attempt starts in a well-formed state, resolving or failed, and never
/// with a payment command.
pub proof fn lemma_start_well_formed(
    address: Seq<char>,
    request: InvoiceRequestView,
    connection_string: Seq<char>,
)
    ensures
        ({
            let (state, action) = start(address, request, connection_string);
            &&& state.well_formed()
            &&& state is Resolving || state is Failed
            &&& !(action is PayInvoice)
        }),
{
}

/// A step keeps a well-formed state well-formed.
pub proof fn lemma_step_keeps_well_formed(state: AttemptView, event: EventView, nonce: u64)
    requires
        state.well_formed(),
    ensures
        state.step(event, nonce).0.well_formed(),
{
}

/// An attempt that is over stays as it is, whatever comes: settled and failed
/// are final, and nothing more is asked of the caller.
pub proof fn lemma_over_is_final(state: AttemptView, event: EventView, nonce: u64)
    requires
        state.is_over(),
    ensures
        state.step(event, nonce) == (state, ActionView::Done),
{
}

/// A run of events leaves an attempt that is over as it is.
pub proof fn lemma_over_stays(state: AttemptView, events: Seq<EventView>, nonces: Seq<u64>)
    requires
        state.is_over(),
        events.len() == nonces.len(),
    ensures
        state.run(events, nonces) == state,
    decreases events.len(),
{
    if events.len() > 0 {
        lemma_over_stays(state, events.drop_first(), nonces.drop_first());
    }
}

/// An event that does not answer the awaited request changes nothing and
/// asks for nothing.
pub proof fn lemma_stray_event_ignored(state: AttemptView, event: EventView, nonce: u64)
    requires
        !state.is_over(),
        !state.awaits(event),
    ensures
        state.step(event, nonce) == (state, ActionView::Wait),
{
}

/// The error of the step that an event answers, where that step fails: of the
/// service's metadata, of the invoice, of the wallet's descriptor or of the
/// payment, whichever the state waits for.
pub open spec fn failure_of(state: AttemptView, event: EventView) -> Option<PayErrorView> {
    match (state, event) {
        (
            AttemptView::Resolving { query, .. },
            EventView::ServiceInfo(reply),
        ) => match query.on_service_info(reply) {
            Err(error) => Some(error),
            Ok(_) => None,
        },
        (
            AttemptView::InvoiceRequested { connection_string, .. },
            EventView::Invoice(reply),
        ) => match on_invoice(reply) {
            Err(error) => Some(error),
            Ok(_) => match client_for(parsed_descriptor(connection_string)) {
                Err(error) => Some(error),
                Ok(_) => None,
            },
        },
        (AttemptView::Paying { command }, EventView::Wallet(reply)) => match command.on_reply(
            reply,
        ) {
            Err(error) => Some(error),
            Ok(_) => None,
        },
        _ => None,
    }
}

/// The first step that fails ends the attempt with its own error, unchanged,
/// and asks for nothing more. A step that does not fail does not end the
/// attempt in failure.
pub proof fn lemma_first_failure_ends(state: AttemptView, event: EventView, nonce: u64)
    requires
        !state.is_over(),
    ensures
        match failure_of(state, event) {
            Some(error) => state.step(event, nonce) == (
                AttemptView::Failed { error },
                ActionView::Done,
            ),
            None => !(state.step(event, nonce).0 is Failed),
        },
{
}

/// A step leaves the phase as it is, moves to the next phase, or fails. No
/// phase is passed over and none comes again.
pub proof fn lemma_phases_in_order(state: AttemptView, event: EventView, nonce: u64)
    ensures
        ({
            let before = state.phase();
            let after = state.step(event, nonce).0.phase();
            &&& before.rank() <= after.rank()
            &&& after == before || after.rank() == before.rank() + 1 || after == Phase::Failed
        }),
{
}

/// A payment command is issued by one step only: the one that takes the
/// invoice. It leads to the paying phase and has the wallet pay that very
/// invoice.
pub proof fn lemma_command_only_on_invoice(state: AttemptView, event: EventView, nonce: u64)
    requires
        state.step(event, nonce).1 is PayInvoice,
    ensures
        ({
            let (next, action) = state.step(event, nonce);
            &&& state is InvoiceRequested
            &&& event matches EventView::Invoice(FetchReply::Decoded(response))
            &&& next matches AttemptView::Paying { command }
            &&& action == command.action()
            &&& command.invoice == response.pr
        }),
{
}

/// However many events come, and whichever, an attempt issues at most one
/// payment command, and none once it is paying or over.
pub proof fn lemma_at_most_one_command(state: AttemptView, events: Seq<EventView>, nonces: Seq<u64>)
    requires
        events.len() == nonces.len(),
    ensures
        state.commands_issued(events, nonces) <= 1,
        state.phase().rank() >= Phase::Paying.rank() ==> state.commands_issued(events, nonces)
            == 0,
    decreases events.len(),
{
    if events.len() > 0 {
        let next = state.step(events[0], nonces[0]).0;
        lemma_phases_in_order(state, events[0], nonces[0]);
        lemma_at_most_one_command(next, events.drop_first(), nonces.drop_first());
    }
}

/// An attempt is settled only by the wallet's answer to the payment command,
/// and the preimage is the one that the wallet gave.
pub proof fn lemma_settled_by_wallet(state: AttemptView, event: EventView, nonce: u64)
    requires
        !state.is_over(),
        state.step(event, nonce).0 is Settled,
    ensures
        state is Paying,
        event matches EventView::Wallet(WalletReplyView::Answered(preimage)) && state.step(
            event,
            nonce,
        ) == (AttemptView::Settled { preimage }, ActionView::Done),
{
}

/// A wallet that does not reply within the deadline fails the attempt with a
/// timeout of 60 seconds. No preimage comes of it, then or later.
pub proof fn lemma_missed_deadline_fails(
    state: AttemptView,
    nonce: u64,
    later: Seq<EventView>,
    nonces: Seq<u64>,
)
    requires
        state.well_formed(),
        state is Paying,
        later.len() == nonces.len(),
    ensures
        ({
            let timed_out = AttemptView::Failed {
                error: PayErrorView::Timeout { secs: PAYMENT_DEADLINE_SECS },
            };
            &&& state.step(EventView::Wallet(WalletReplyView::DeadlineExceeded), nonce) == (
                timed_out,
                ActionView::Done,
            )
            &&& timed_out.run(later, nonces) == timed_out
        }),
{
    let timed_out = AttemptView::Failed {
        error: PayErrorView::Timeout { secs: PAYMENT_DEADLINE_SECS },
    };
    lemma_over_stays(timed_out, later, nonces);
}

/// Where every step succeeds, the attempt settles with the wallet's preimage:
/// a valid address, an amount within the service's bounds, an invoice, a
/// connection string that stands for a client and a wallet that pays. Where
/// only the connection string is at fault, the attempt fails with its error
/// once the invoice is there.
pub proof fn lemma_payment_settles(
    address: Seq<char>,
    request: InvoiceRequestView,
    connection_string: Seq<char>,
    info: ServiceInfoView,
    response: InvoiceResponseView,
    preimage: Seq<char>,
    nonces: Seq<u64>,
)
    requires
        is_valid_address(address),
        info.accepts(request.amount_sats),
        nonces.len() == 3,
    ensures
        start(address, request, connection_string).0.run(
            seq![
                EventView::ServiceInfo(FetchReply::Decoded(info)),
                EventView::Invoice(FetchReply::Decoded(response)),
                EventView::Wallet(WalletReplyView::Answered(preimage)),
            ],
            nonces,
        ) == match client_for(parsed_descriptor(connection_string)) {
            Ok(_) => AttemptView::Settled { preimage },
            Err(error) => AttemptView::Failed { error },
        },
{
    reveal_with_fuel(AttemptView::run, 4);
}

} // verus!
