//! The errors of a payment, by kind.

use vstd::prelude::*;
use crate::decimal::{append_decimal, decimal};

verus! {

/// Which of the two requests to the payment service an error belongs to.
#[derive(Clone, Copy, Debug, PartialEq, Eq, Structural)]
pub enum FetchStage {
    /// The request for the service's metadata.
    ServiceInfo,
    /// The request for the invoice.
    Invoice,
}

/// What a wallet connection descriptor lacks.
#[derive(Clone, Copy, Debug, PartialEq, Eq, Structural)]
pub enum DescriptorFault {
    /// The text is no connection descriptor at all.
    Unparseable,
    /// The relay endpoint is empty.
    MissingRelay,
    /// The wallet's identity is empty.
    MissingIdentity,
    /// The client secret is empty.
    MissingSecret,
}

/// The kinds of failure.
#[derive(Clone, Copy, Debug, PartialEq, Eq, Structural)]
pub enum ErrorKind {
    Format,
    Network,
    Decode,
    AmountOutOfRange,
    Timeout,
    Remote,
}

/// Why a payment, or a step of it, failed.
#[derive(Debug, PartialEq, Eq)]
pub enum PayError {
    /// The address does not consist of an identity, one separator and a domain.
    Format,
    /// The wallet connection descriptor is malformed.
    MalformedDescriptor(DescriptorFault),
    /// The request did not reach the service or no response came back.
    Network(FetchStage),
    /// The response is not the document that was expected.
    Decode(FetchStage),
    /// The amount lies outside the bounds that the service declares; the
    /// bounds are given in satoshi.
    AmountOutOfRange { min_sats: u64, max_sats: u64 },
    /// No reply came within the deadline; whether the wallet acted is unknown.
    Timeout { secs: u64 },
    /// The wallet, or the way to it, refused the command; `detail` says why,
    /// in the words that came back.
    Remote { detail: String },
}

/// A `PayError` with its text as a sequence of characters.
pub enum PayErrorView {
    Format,
    MalformedDescriptor(DescriptorFault),
    Network(FetchStage),
    Decode(FetchStage),
    AmountOutOfRange { min_sats: u64, max_sats: u64 },
    Timeout { secs: u64 },
    Remote { detail: Seq<char> },
}

impl View for PayError {
    type V = PayErrorView;

    open spec fn view(&self) -> PayErrorView {
        match *self {
            PayError::Format => PayErrorView::Format,
            PayError::MalformedDescriptor(fault) => PayErrorView::MalformedDescriptor(fault),
            PayError::Network(stage) => PayErrorView::Network(stage),
            PayError::Decode(stage) => PayErrorView::Decode(stage),
            PayError::AmountOutOfRange { min_sats, max_sats } => PayErrorView::AmountOutOfRange {
                min_sats,
                max_sats,
            },
            PayError::Timeout { secs } => PayErrorView::Timeout { secs },
            PayError::Remote { detail } => PayErrorView::Remote { detail: detail@ },
        }
    }
}

/// A result with both sides viewed.
pub open spec fn result_view<T: View, E: View>(r: Result<T, E>) -> Result<T::V, E::V> {
    match r {
        Ok(value) => Ok(value@),
        Err(error) => Err(error@),
    }
}

impl PayErrorView {
    /// The kind of failure that an error belongs to. A malformed descriptor is
    /// a format error.
    pub open spec fn kind(self) -> ErrorKind {
        match self {
            PayErrorView::Format => ErrorKind::Format,
            PayErrorView::MalformedDescriptor(_) => ErrorKind::Format,
            PayErrorView::Network(_) => ErrorKind::Network,
            PayErrorView::Decode(_) => ErrorKind::Decode,
            PayErrorView::AmountOutOfRange { .. } => ErrorKind::AmountOutOfRange,
            PayErrorView::Timeout { .. } => ErrorKind::Timeout,
            PayErrorView::Remote { .. } => ErrorKind::Remote,
        }
    }
}

impl DescriptorFault {
    /// The fault in words.
    pub open spec fn message(self) -> Seq<char> {
        match self {
            DescriptorFault::Unparseable => "Failed to parse NWC connection string"@,
            DescriptorFault::MissingRelay => "Relay URL not set"@,
            DescriptorFault::MissingIdentity => "Wallet public key not set"@,
            DescriptorFault::MissingSecret => "Client secret not set"@,
        }
    }
}

impl PayErrorView {
    /// The error in words, for the one who asked for the payment.
    pub open spec fn message(self) -> Seq<char> {
        match self {
            PayErrorView::Format => "Invalid Lightning address format"@,
            PayErrorView::MalformedDescriptor(fault) => fault.message(),
            PayErrorView::Network(stage) => match stage {
                FetchStage::ServiceInfo => "Request to LNURL-pay endpoint failed"@,
                FetchStage::Invoice => "Invoice request failed"@,
            },
            PayErrorView::Decode(stage) => match stage {
                FetchStage::ServiceInfo => "Failed to parse LNURL-pay response"@,
                FetchStage::Invoice => "Failed to parse Invoice response"@,
            },
            PayErrorView::AmountOutOfRange { min_sats, max_sats } => "Amount out of range ("@
                + decimal(min_sats as nat) + "-"@ + decimal(max_sats as nat) + " sats)"@,
            PayErrorView::Timeout { secs } => "NWC request timed out ("@ + decimal(
                secs as nat,
            ) + " seconds)"@,
            PayErrorView::Remote { detail } => detail,
        }
    }
}

impl Clone for PayError {
    fn clone(&self) -> (copy: Self)
        ensures
            copy == *self,
    {
        match self {
            PayError::Format => PayError::Format,
            PayError::MalformedDescriptor(fault) => PayError::MalformedDescriptor(*fault),
            PayError::Network(stage) => PayError::Network(*stage),
            PayError::Decode(stage) => PayError::Decode(*stage),
            PayError::AmountOutOfRange { min_sats, max_sats } => PayError::AmountOutOfRange {
                min_sats: *min_sats,
                max_sats: *max_sats,
            },
            PayError::Timeout { secs } => PayError::Timeout { secs: *secs },
            PayError::Remote { detail } => PayError::Remote { detail: detail.clone() },
        }
    }
}

impl PayError {
    /// The error in words, for the one who asked for the payment. A refusal
    /// by the wallet is given in the wallet's words.
    pub fn message(&self) -> (text: String)
        ensures
            text@ == self@.message(),
    {
        match self {
            PayError::Format => "Invalid Lightning address format".to_owned(),
            PayError::MalformedDescriptor(fault) => match fault {
                DescriptorFault::Unparseable => "Failed to parse NWC connection string".to_owned(),
                DescriptorFault::MissingRelay => "Relay URL not set".to_owned(),
                DescriptorFault::MissingIdentity => "Wallet public key not set".to_owned(),
                DescriptorFault::MissingSecret => "Client secret not set".to_owned(),
            },
            PayError::Network(stage) => match stage {
                FetchStage::ServiceInfo => "Request to LNURL-pay endpoint failed".to_owned(),
                FetchStage::Invoice => "Invoice request failed".to_owned(),
            },
            PayError::Decode(stage) => match stage {
                FetchStage::ServiceInfo => "Failed to parse LNURL-pay response".to_owned(),
                FetchStage::Invoice => "Failed to parse Invoice response".to_owned(),
            },
            PayError::AmountOutOfRange { min_sats, max_sats } => {
                let mut text = "Amount out of range (".to_owned();
                append_decimal(&mut text, *min_sats);
                text.append("-");
                append_decimal(&mut text, *max_sats);
                text.append(" sats)");
                text
            },
            PayError::Timeout { secs } => {
                let mut text = "NWC request timed out (".to_owned();
                append_decimal(&mut text, *secs);
                text.append(" seconds)");
                text
            },
            PayError::Remote { detail } => detail.clone(),
        }
    }

    /// The kind of failure that this error belongs to.
    pub fn kind(&self) -> (k: ErrorKind)
        ensures
            k == self@.kind(),
    {
        match self {
            PayError::Format => ErrorKind::Format,
            PayError::MalformedDescriptor(_) => ErrorKind::Format,
            PayError::Network(_) => ErrorKind::Network,
            PayError::Decode(_) => ErrorKind::Decode,
            PayError::AmountOutOfRange { .. } => ErrorKind::AmountOutOfRange,
            PayError::Timeout { .. } => ErrorKind::Timeout,
            PayError::Remote { .. } => ErrorKind::Remote,
        }
    }
}

} // verus!
