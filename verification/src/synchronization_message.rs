//! Messages of synchronization errors.

use vstd::prelude::*;
use crate::message::{append_parts, MessagePart};
use crate::operations::MaxwellThreeDSynchronizationError;
use crate::register::MaxwellMethodSource;

verus! {

/// Parts that tell where a method stands.
pub open spec fn spec_source_parts(source: MaxwellMethodSource) -> Seq<MessagePart> {
    seq![
        MessagePart::Text("position="),
        MessagePart::Number(source.position as u64),
        MessagePart::Text(" method=0x"),
        MessagePart::Hexadecimal { value: source.method.0 as u64, width: 4 },
        MessagePart::Text(" argument=0x"),
        MessagePart::Hexadecimal { value: source.argument as u64, width: 8 },
        MessagePart::Text("]"),
    ]
}

fn source_parts(source: MaxwellMethodSource) -> (r: Vec<MessagePart>)
    ensures
        r@ == spec_source_parts(source),
{
    vec![
        MessagePart::Text("position="),
        MessagePart::Number(source.position as u64),
        MessagePart::Text(" method=0x"),
        MessagePart::Hexadecimal { value: source.method.0 as u64, width: 4 },
        MessagePart::Text(" argument=0x"),
        MessagePart::Hexadecimal { value: source.argument as u64, width: 8 },
        MessagePart::Text("]"),
    ]
}

/// Values in the message of an error after the method it is about.
pub open spec fn spec_error_parts(error: MaxwellThreeDSynchronizationError) -> Seq<MessagePart> {
    match error {
        MaxwellThreeDSynchronizationError::UnsupportedShaderCacheLockInvalidation { .. } => Seq::empty(),
        MaxwellThreeDSynchronizationError::UnsupportedShaderDataCacheFlush { .. } => Seq::empty(),
        MaxwellThreeDSynchronizationError::IncompleteReportSemaphoreState { .. } => Seq::empty(),
        MaxwellThreeDSynchronizationError::UnsupportedReportSemaphoreControl { control, .. } => seq![
            MessagePart::Text(" control=0x"),
            MessagePart::Hexadecimal { value: control.raw as u64, width: 8 },
        ],
        MaxwellThreeDSynchronizationError::MissingCompletionReservation { requested, .. } => seq![
            MessagePart::Text(" requested=GuestSyncpointId("),
            MessagePart::Number(requested.0 as u64),
            MessagePart::Text(")"),
        ],
        MaxwellThreeDSynchronizationError::WrongCompletionSyncpoint { requested, reserved, .. } => seq![
            MessagePart::Text(" requested=GuestSyncpointId("),
            MessagePart::Number(requested.0 as u64),
            MessagePart::Text(")"),
            MessagePart::Text(" reserved=GuestSyncpointId("),
            MessagePart::Number(reserved.0 as u64),
            MessagePart::Text(")"),
        ],
    }
}

fn error_parts(error: MaxwellThreeDSynchronizationError) -> (r: Vec<MessagePart>)
    ensures
        r@ == spec_error_parts(error),
{
    match error {
        MaxwellThreeDSynchronizationError::UnsupportedShaderCacheLockInvalidation { .. } => Vec::new(),
        MaxwellThreeDSynchronizationError::UnsupportedShaderDataCacheFlush { .. } => Vec::new(),
        MaxwellThreeDSynchronizationError::IncompleteReportSemaphoreState { .. } => Vec::new(),
        MaxwellThreeDSynchronizationError::UnsupportedReportSemaphoreControl { control, .. } => vec![
            MessagePart::Text(" control=0x"),
            MessagePart::Hexadecimal { value: control.raw as u64, width: 8 },
        ],
        MaxwellThreeDSynchronizationError::MissingCompletionReservation { requested, .. } => vec![
            MessagePart::Text(" requested=GuestSyncpointId("),
            MessagePart::Number(requested.0 as u64),
            MessagePart::Text(")"),
        ],
        MaxwellThreeDSynchronizationError::WrongCompletionSyncpoint { requested, reserved, .. } => vec![
            MessagePart::Text(" requested=GuestSyncpointId("),
            MessagePart::Number(requested.0 as u64),
            MessagePart::Text(")"),
            MessagePart::Text(" reserved=GuestSyncpointId("),
            MessagePart::Number(reserved.0 as u64),
            MessagePart::Text(")"),
        ],
    }
}

impl MaxwellThreeDSynchronizationError {
    pub open spec fn spec_source(self) -> MaxwellMethodSource {
        match self {
            MaxwellThreeDSynchronizationError::UnsupportedShaderCacheLockInvalidation { source, .. } => source,
            MaxwellThreeDSynchronizationError::UnsupportedShaderDataCacheFlush { source, .. } => source,
            MaxwellThreeDSynchronizationError::IncompleteReportSemaphoreState { source, .. } => source,
            MaxwellThreeDSynchronizationError::UnsupportedReportSemaphoreControl { source, .. } => source,
            MaxwellThreeDSynchronizationError::MissingCompletionReservation { source, .. } => source,
            MaxwellThreeDSynchronizationError::WrongCompletionSyncpoint { source, .. } => source,
        }
    }

    /// Method that the error is about.
    #[must_use]
    #[verifier::when_used_as_spec(spec_source)]
    pub fn source(self) -> (r: MaxwellMethodSource)
        ensures
            r == self.spec_source(),
    {
        match self {
            MaxwellThreeDSynchronizationError::UnsupportedShaderCacheLockInvalidation { source, .. } => source,
            MaxwellThreeDSynchronizationError::UnsupportedShaderDataCacheFlush { source, .. } => source,
            MaxwellThreeDSynchronizationError::IncompleteReportSemaphoreState { source, .. } => source,
            MaxwellThreeDSynchronizationError::UnsupportedReportSemaphoreControl { source, .. } => source,
            MaxwellThreeDSynchronizationError::MissingCompletionReservation { source, .. } => source,
            MaxwellThreeDSynchronizationError::WrongCompletionSyncpoint { source, .. } => source,
        }
    }

    /// Whole message.
    pub open spec fn spec_message(self) -> Seq<char> {
        self.spec_summary()@ + ": source=["@ + crate::message::rendered(
            spec_source_parts(self.spec_source()),
        ) + crate::message::rendered(spec_error_parts(self))
    }

    /// Message that tells why the operation has no plan.
    #[must_use]
    pub fn message(self) -> (r: String)
        ensures
            r@ == self.spec_message(),
    {
        let mut text: String = String::new();
        text.append(self.summary());
        text.append(": source=[");
        let place: Vec<MessagePart> = source_parts(self.source());
        append_parts(&mut text, &place);
        let values: Vec<MessagePart> = error_parts(self);
        append_parts(&mut text, &values);
        proof {
            assert(text@ =~= self.spec_message());
        }
        text
    }
}

} // verus!
