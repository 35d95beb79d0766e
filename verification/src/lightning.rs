//! From a Lightning address to an invoice: the two requests to the payment
//! service, and what is decided between them.

use vstd::prelude::*;
use crate::address::{AddressView, LightningAddress, parsed};
use crate::decimal::{decimal, to_decimal};
use crate::error::{FetchStage, PayError, PayErrorView, result_view};

verus! {

/// Millisatoshi in one satoshi.
pub const MSAT_PER_SAT: u64 = 1000;

/// What a payment service says of itself.
#[derive(Debug, PartialEq, Eq)]
pub struct PayServiceInfo {
    /// Where the invoice is requested.
    pub callback_url: String,
    /// The smallest amount that the service accepts, in millisatoshi.
    pub min_sendable_msat: u64,
    /// The largest amount that the service accepts, in millisatoshi.
    pub max_sendable_msat: u64,
    /// The service's description of the payee.
    pub metadata: String,
    /// The kind of service.
    pub tag: String,
    /// The longest comment that the service takes, if it takes any.
    pub max_comment_len: Option<u64>,
}

/// A `PayServiceInfo` with its texts as sequences of characters.
pub struct ServiceInfoView {
    pub callback_url: Seq<char>,
    pub min_sendable_msat: u64,
    pub max_sendable_msat: u64,
    pub metadata: Seq<char>,
    pub tag: Seq<char>,
    pub max_comment_len: Option<u64>,
}

impl View for PayServiceInfo {
    type V = ServiceInfoView;

    open spec fn view(&self) -> ServiceInfoView {
        ServiceInfoView {
            callback_url: self.callback_url@,
            min_sendable_msat: self.min_sendable_msat,
            max_sendable_msat: self.max_sendable_msat,
            metadata: self.metadata@,
            tag: self.tag@,
            max_comment_len: self.max_comment_len,
        }
    }
}

/// What the payer asks for: an amount in satoshi and, if wanted, a comment.
#[derive(Debug, PartialEq, Eq)]
pub struct InvoiceRequest {
    pub amount_sats: u64,
    pub comment: Option<String>,
}

/// An `InvoiceRequest` with its comment as a sequence of characters.
pub struct InvoiceRequestView {
    pub amount_sats: u64,
    pub comment: Option<Seq<char>>,
}

impl View for InvoiceRequest {
    type V = InvoiceRequestView;

    open spec fn view(&self) -> InvoiceRequestView {
        InvoiceRequestView { amount_sats: self.amount_sats, comment: self.comment.deep_view() }
    }
}

/// The request for the invoice: the callback and its query.
#[derive(Debug, PartialEq, Eq)]
pub struct CallbackRequest {
    /// The service's callback.
    pub callback_url: String,
    /// The amount, in millisatoshi.
    pub amount_msat: u64,
    /// The comment, where one is sent.
    pub comment: Option<String>,
}

/// A `CallbackRequest` with its texts as sequences of characters.
pub struct CallbackRequestView {
    pub callback_url: Seq<char>,
    pub amount_msat: u64,
    pub comment: Option<Seq<char>>,
}

impl View for CallbackRequest {
    type V = CallbackRequestView;

    open spec fn view(&self) -> CallbackRequestView {
        CallbackRequestView {
            callback_url: self.callback_url@,
            amount_msat: self.amount_msat,
            comment: self.comment.deep_view(),
        }
    }
}

/// The service's answer to the request for an invoice.
#[derive(Debug, PartialEq, Eq)]
pub struct InvoiceResponse {
    /// The payment request.
    pub pr: String,
    /// Route hints, which this crate passes over.
    pub routes: Option<Vec<String>>,
}

/// An `InvoiceResponse` with its texts as sequences of characters.
pub struct InvoiceResponseView {
    pub pr: Seq<char>,
    pub routes: Option<Seq<Seq<char>>>,
}

impl View for InvoiceResponse {
    type V = InvoiceResponseView;

    open spec fn view(&self) -> InvoiceResponseView {
        InvoiceResponseView { pr: self.pr@, routes: self.routes.deep_view() }
    }
}

/// How a request to the payment service ended.
#[derive(Debug, PartialEq, Eq)]
pub enum FetchReply<T> {
    /// A response came and was the expected document.
    Decoded(T),
    /// The request failed in transport.
    TransportFailed,
    /// A response came, but it is malformed or lacks a field.
    Malformed,
}

impl<T: View> View for FetchReply<T> {
    type V = FetchReply<T::V>;

    open spec fn view(&self) -> FetchReply<T::V> {
        match *self {
            FetchReply::Decoded(document) => FetchReply::Decoded(document@),
            FetchReply::TransportFailed => FetchReply::TransportFailed,
            FetchReply::Malformed => FetchReply::Malformed,
        }
    }
}

/// Where a service's metadata is found.
pub open spec fn service_info_url(address: AddressView) -> Seq<char> {
    "https://"@ + address.domain + "/.well-known/lnurlp/"@ + address.identity
}

impl ServiceInfoView {
    /// The amount, in millisatoshi, lies within the service's bounds.
    pub open spec fn accepts(self, amount_sats: u64) -> bool {
        self.min_sendable_msat <= amount_sats * MSAT_PER_SAT <= self.max_sendable_msat
    }

    /// The error for an amount outside the bounds: it names the bounds in
    /// whole satoshi.
    pub open spec fn out_of_range(self) -> PayErrorView {
        PayErrorView::AmountOutOfRange {
            min_sats: self.min_sendable_msat / MSAT_PER_SAT,
            max_sats: self.max_sendable_msat / MSAT_PER_SAT,
        }
    }

    /// The comment that goes to the service: the payer's, where the service
    /// takes comments and this one has no more characters than it takes; none
    /// otherwise.
    pub open spec fn retained(self, comment: Option<Seq<char>>) -> Option<Seq<char>> {
        match (comment, self.max_comment_len) {
            (Some(text), Some(max)) => if text.len() <= max {
                Some(text)
            } else {
                None
            },
            _ => None,
        }
    }

    /// The request for an invoice that answers `request`, or the error for an
    /// amount that the service does not accept.
    pub open spec fn callback_for(self, request: InvoiceRequestView) -> Result<
        CallbackRequestView,
        PayErrorView,
    > {
        if self.accepts(request.amount_sats) {
            Ok(
                CallbackRequestView {
                    callback_url: self.callback_url,
                    amount_msat: (request.amount_sats * MSAT_PER_SAT) as u64,
                    comment: self.retained(request.comment),
                },
            )
        } else {
            Err(self.out_of_range())
        }
    }
}

impl CallbackRequestView {
    /// The query of the request: the amount in millisatoshi, then the comment
    /// where there is one.
    pub open spec fn query(self) -> Seq<(Seq<char>, Seq<char>)> {
        let amount = seq![("amount"@, decimal(self.amount_msat as nat))];
        match self.comment {
            Some(text) => amount.push(("comment"@, text)),
            None => amount,
        }
    }
}

/// An invoice is requested exactly for the amounts within the service's
/// bounds, and then for that amount in millisatoshi at the service's callback.
pub proof fn lemma_amount_decides(info: ServiceInfoView, request: InvoiceRequestView)
    ensures
        match info.callback_for(request) {
            Ok(callback) => {
                &&& callback.callback_url == info.callback_url
                &&& callback.amount_msat == request.amount_sats * MSAT_PER_SAT
                &&& info.min_sendable_msat <= callback.amount_msat <= info.max_sendable_msat
            },
            Err(error) => {
                &&& error == info.out_of_range()
                &&& (request.amount_sats * MSAT_PER_SAT < info.min_sendable_msat
                    || request.amount_sats * MSAT_PER_SAT > info.max_sendable_msat)
            },
        },
{
}

/// A comment never fails a request and never changes its amount: it goes to
/// the service as it is, or it is left out. It goes there exactly where the
/// service takes comments and this one has no more characters than it takes.
pub proof fn lemma_comment_is_kept_or_dropped(
    info: ServiceInfoView,
    amount_sats: u64,
    comment: Seq<char>,
)
    ensures
        ({
            let with = info.callback_for(InvoiceRequestView { amount_sats, comment: Some(comment) });
            let without = info.callback_for(InvoiceRequestView { amount_sats, comment: None });
            &&& with is Ok <==> without is Ok
            &&& with matches Err(error) ==> without == Err::<CallbackRequestView, PayErrorView>(
                error,
            )
            &&& with matches Ok(callback) ==> {
                &&& callback.amount_msat == without->Ok_0.amount_msat
                &&& callback.callback_url == without->Ok_0.callback_url
                &&& callback.comment == Some(comment) || callback.comment is None
                &&& callback.comment is Some <==> (info.max_comment_len matches Some(max)
                    && comment.len() <= max)
            }
        }),
{
}

impl PayServiceInfo {
    /// Checks the amount against the service's bounds and decides on the
    /// comment.
    ///
    /// An amount whose millisatoshi value lies outside the bounds gives
    /// `PayError::AmountOutOfRange`. A comment that the service does not take,
    /// or that is longer than it takes, is left out; that is no error.
    pub fn request_invoice(&self, request: InvoiceRequest) -> (r: Result<CallbackRequest, PayError>)
        ensures
            result_view(r) == self@.callback_for(request@),
    {
        let accepted: Option<u64> = match request.amount_sats.checked_mul(MSAT_PER_SAT) {
            Some(amount_msat) => if self.min_sendable_msat <= amount_msat && amount_msat
                <= self.max_sendable_msat {
                Some(amount_msat)
            } else {
                None
            },
            None => None,
        };
        match accepted {
            Some(amount_msat) => {
                let comment: Option<String> = match (request.comment, self.max_comment_len) {
                    (Some(text), Some(max)) => if text.as_str().unicode_len() as u64 <= max {
                        Some(text)
                    } else {
                        None
                    },
                    _ => None,
                };
                Ok(CallbackRequest { callback_url: self.callback_url.clone(), amount_msat, comment })
            },
            None => Err(
                PayError::AmountOutOfRange {
                    min_sats: self.min_sendable_msat / MSAT_PER_SAT,
                    max_sats: self.max_sendable_msat / MSAT_PER_SAT,
                },
            ),
        }
    }
}

impl CallbackRequest {
    /// The query of the request, as pairs of a name and a value.
    pub fn query(&self) -> (pairs: Vec<(String, String)>)
        ensures
            pairs.deep_view() == self@.query(),
    {
        let mut pairs: Vec<(String, String)> = Vec::new();
        pairs.push(("amount".to_owned(), to_decimal(self.amount_msat)));
        if let Some(text) = &self.comment {
            pairs.push(("comment".to_owned(), text.clone()));
        }
        pairs
    }
}

impl LightningAddress {
    /// Where the metadata of this address's payment service is found.
    pub fn service_info_url(&self) -> (url: String)
        ensures
            url@ == service_info_url(self@),
    {
        let mut url = "https://".to_owned();
        url.append(self.domain.as_str());
        url.append("/.well-known/lnurlp/");
        url.append(self.identity.as_str());
        url
    }
}

/// The payer's side of the exchange with a payment service.
///
/// It holds no connection: each step says which request is to be made, and the
/// next step takes the reply.
#[derive(Debug, PartialEq, Eq)]
pub struct LightningPayment {}

/// An invoice retrieval that waits for the service's metadata.
#[derive(Debug, PartialEq, Eq)]
pub struct AwaitingServiceInfo {
    /// Where the metadata is to be fetched with a GET request.
    pub url: String,
    /// What the payer asks for.
    pub request: InvoiceRequest,
}

/// An `AwaitingServiceInfo` with its texts as sequences of characters.
pub struct AwaitingServiceInfoView {
    pub url: Seq<char>,
    pub request: InvoiceRequestView,
}

impl View for AwaitingServiceInfo {
    type V = AwaitingServiceInfoView;

    open spec fn view(&self) -> AwaitingServiceInfoView {
        AwaitingServiceInfoView { url: self.url@, request: self.request@ }
    }
}

/// An invoice retrieval that waits for the invoice.
#[derive(Debug, PartialEq, Eq)]
pub struct AwaitingInvoice {
    /// The GET request that fetches the invoice.
    pub callback: CallbackRequest,
}

/// An `AwaitingInvoice` with its texts as sequences of characters.
pub struct AwaitingInvoiceView {
    pub callback: CallbackRequestView,
}

impl View for AwaitingInvoice {
    type V = AwaitingInvoiceView;

    open spec fn view(&self) -> AwaitingInvoiceView {
        AwaitingInvoiceView { callback: self.callback@ }
    }
}

/// The first step of an invoice retrieval: the address is split and the
/// metadata's place derived from it, or the address is refused.
pub open spec fn resolve(address: Seq<char>, request: InvoiceRequestView) -> Result<
    AwaitingServiceInfoView,
    PayErrorView,
> {
    match parsed(address) {
        Ok(address) => Ok(AwaitingServiceInfoView { url: service_info_url(address), request }),
        Err(error) => Err(error),
    }
}

impl AwaitingServiceInfoView {
    /// The second step: the service's metadata decides on amount and comment.
    pub open spec fn on_service_info(self, reply: FetchReply<ServiceInfoView>) -> Result<
        AwaitingInvoiceView,
        PayErrorView,
    > {
        match reply {
            FetchReply::Decoded(info) => match info.callback_for(self.request) {
                Ok(callback) => Ok(AwaitingInvoiceView { callback }),
                Err(error) => Err(error),
            },
            FetchReply::TransportFailed => Err(PayErrorView::Network(FetchStage::ServiceInfo)),
            FetchReply::Malformed => Err(PayErrorView::Decode(FetchStage::ServiceInfo)),
        }
    }
}

/// The last step: the invoice is the response's payment request, as it came.
pub open spec fn on_invoice(reply: FetchReply<InvoiceResponseView>) -> Result<
    Seq<char>,
    PayErrorView,
> {
    match reply {
        FetchReply::Decoded(response) => Ok(response.pr),
        FetchReply::TransportFailed => Err(PayErrorView::Network(FetchStage::Invoice)),
        FetchReply::Malformed => Err(PayErrorView::Decode(FetchStage::Invoice)),
    }
}

impl LightningPayment {
    pub fn new() -> (payment: Self)
        ensures
            payment == (LightningPayment {  }),
    {
        LightningPayment {  }
    }

    /// Starts the retrieval of an invoice for `amount_sats` satoshi from a
    /// Lightning address.
    ///
    /// Fails with `PayError::Format` exactly where the text is no address.
    /// Otherwise the result names the URL of the service's metadata and waits
    /// for it.
    pub fn get_invoice_from_address(
        &self,
        lightning_address: &str,
        amount_sats: u64,
        comment: Option<String>,
    ) -> (r: Result<AwaitingServiceInfo, PayError>)
        ensures
            result_view(r) == resolve(
                lightning_address@,
                InvoiceRequestView { amount_sats, comment: comment.deep_view() },
            ),
    {
        match LightningAddress::parse(lightning_address) {
            Ok(address) => {
                Ok(
                    AwaitingServiceInfo {
                        url: address.service_info_url(),
                        request: InvoiceRequest { amount_sats, comment },
                    },
                )
            },
            Err(error) => Err(error),
        }
    }
}

impl Default for LightningPayment {
    fn default() -> (payment: Self)
        ensures
            payment == (LightningPayment {  }),
    {
        LightningPayment::new()
    }
}

impl AwaitingServiceInfo {
    /// Takes the reply to the request for the service's metadata.
    ///
    /// A failed transport gives `PayError::Network`, a malformed document
    /// `PayError::Decode`, an amount outside the service's bounds
    /// `PayError::AmountOutOfRange`. Otherwise the result names the request
    /// for the invoice and waits for it.
    pub fn service_info_received(self, reply: FetchReply<PayServiceInfo>) -> (r: Result<
        AwaitingInvoice,
        PayError,
    >)
        ensures
            result_view(r) == self@.on_service_info(reply@),
    {
        match reply {
            FetchReply::Decoded(info) => match info.request_invoice(self.request) {
                Ok(callback) => Ok(AwaitingInvoice { callback }),
                Err(error) => Err(error),
            },
            FetchReply::TransportFailed => Err(PayError::Network(FetchStage::ServiceInfo)),
            FetchReply::Malformed => Err(PayError::Decode(FetchStage::ServiceInfo)),
        }
    }
}

impl AwaitingInvoice {
    /// Takes the reply to the request for the invoice.
    ///
    /// A failed transport gives `PayError::Network`, a malformed document
    /// `PayError::Decode`. Otherwise the invoice is the response's payment
    /// request, unchanged and unexamined.
    pub fn invoice_received(self, reply: FetchReply<InvoiceResponse>) -> (r: Result<
        String,
        PayError,
    >)
        ensures
            result_view(r) == on_invoice(reply@),
    {
        match reply {
            FetchReply::Decoded(response) => Ok(response.pr),
            FetchReply::TransportFailed => Err(PayError::Network(FetchStage::Invoice)),
            FetchReply::Malformed => Err(PayError::Decode(FetchStage::Invoice)),
        }
    }
}

} // verus!
