//! The error taxonomy: one variant for each failure status of the kernel.

use vstd::prelude::*;
use crate::kernel::TX_SUCCESS;

verus! {

/// What a kernel service that yields no value comes back with.
pub type TxResult = Result<(), TxError>;

/// A failed kernel service. Each variant but [`TxError::Unknown`] stands for exactly one
/// status word of the kernel; `Unknown` stands in for every word that has no variant.
#[derive(Clone, Copy, Debug, PartialEq, Eq, Structural)]
pub enum TxError {
    Deleted,
    PoolError,
    PtrError,
    WaitError,
    SizeError,
    GroupError,
    NoEvents,
    OptionError,
    QueueError,
    QueueEmpty,
    QueueFull,
    SemaphoreError,
    NoInstance,
    ThreadError,
    PriorityError,
    /// The kernel uses one status word for "no memory" and for "start error".
    NoMemoryOrStartError,
    DeleteError,
    ResumeError,
    CallerError,
    SuspendError,
    TimerError,
    TickError,
    ActivateError,
    ThreshError,
    SuspendLifted,
    WaitAborted,
    WaitAbortError,
    MutexError,
    NotAvailable,
    NotOwned,
    InheritError,
    NotDone,
    CeilingExceeded,
    InvalidCeiling,
    FeatureNotEnabled,
    Unknown,
}

impl TxError {
    /// The status word that this error stands for.
    pub open spec fn status(self) -> u32 {
        match self {
            TxError::Deleted => 0x01,
            TxError::PoolError => 0x02,
            TxError::PtrError => 0x03,
            TxError::WaitError => 0x04,
            TxError::SizeError => 0x05,
            TxError::GroupError => 0x06,
            TxError::NoEvents => 0x07,
            TxError::OptionError => 0x08,
            TxError::QueueError => 0x09,
            TxError::QueueEmpty => 0x0A,
            TxError::QueueFull => 0x0B,
            TxError::SemaphoreError => 0x0C,
            TxError::NoInstance => 0x0D,
            TxError::ThreadError => 0x0E,
            TxError::PriorityError => 0x0F,
            TxError::NoMemoryOrStartError => 0x10,
            TxError::DeleteError => 0x11,
            TxError::ResumeError => 0x12,
            TxError::CallerError => 0x13,
            TxError::SuspendError => 0x14,
            TxError::TimerError => 0x15,
            TxError::TickError => 0x16,
            TxError::ActivateError => 0x17,
            TxError::ThreshError => 0x18,
            TxError::SuspendLifted => 0x19,
            TxError::WaitAborted => 0x1A,
            TxError::WaitAbortError => 0x1B,
            TxError::MutexError => 0x1C,
            TxError::NotAvailable => 0x1D,
            TxError::NotOwned => 0x1E,
            TxError::InheritError => 0x1F,
            TxError::NotDone => 0x20,
            TxError::CeilingExceeded => 0x21,
            TxError::InvalidCeiling => 0x22,
            TxError::FeatureNotEnabled => 0xFF,
            TxError::Unknown => 0xFE,
        }
    }

    /// The variant that stands for `status`, if there is one.
    pub open spec fn of_status(status: u32) -> Option<TxError> {
        if status == 0x01 {
            Some(TxError::Deleted)
        } else if status == 0x02 {
            Some(TxError::PoolError)
        } else if status == 0x03 {
            Some(TxError::PtrError)
        } else if status == 0x04 {
            Some(TxError::WaitError)
        } else if status == 0x05 {
            Some(TxError::SizeError)
        } else if status == 0x06 {
            Some(TxError::GroupError)
        } else if status == 0x07 {
            Some(TxError::NoEvents)
        } else if status == 0x08 {
            Some(TxError::OptionError)
        } else if status == 0x09 {
            Some(TxError::QueueError)
        } else if status == 0x0A {
            Some(TxError::QueueEmpty)
        } else if status == 0x0B {
            Some(TxError::QueueFull)
        } else if status == 0x0C {
            Some(TxError::SemaphoreError)
        } else if status == 0x0D {
            Some(TxError::NoInstance)
        } else if status == 0x0E {
            Some(TxError::ThreadError)
        } else if status == 0x0F {
            Some(TxError::PriorityError)
        } else if status == 0x10 {
            Some(TxError::NoMemoryOrStartError)
        } else if status == 0x11 {
            Some(TxError::DeleteError)
        } else if status == 0x12 {
            Some(TxError::ResumeError)
        } else if status == 0x13 {
            Some(TxError::CallerError)
        } else if status == 0x14 {
            Some(TxError::SuspendError)
        } else if status == 0x15 {
            Some(TxError::TimerError)
        } else if status == 0x16 {
            Some(TxError::TickError)
        } else if status == 0x17 {
            Some(TxError::ActivateError)
        } else if status == 0x18 {
            Some(TxError::ThreshError)
        } else if status == 0x19 {
            Some(TxError::SuspendLifted)
        } else if status == 0x1A {
            Some(TxError::WaitAborted)
        } else if status == 0x1B {
            Some(TxError::WaitAbortError)
        } else if status == 0x1C {
            Some(TxError::MutexError)
        } else if status == 0x1D {
            Some(TxError::NotAvailable)
        } else if status == 0x1E {
            Some(TxError::NotOwned)
        } else if status == 0x1F {
            Some(TxError::InheritError)
        } else if status == 0x20 {
            Some(TxError::NotDone)
        } else if status == 0x21 {
            Some(TxError::CeilingExceeded)
        } else if status == 0x22 {
            Some(TxError::InvalidCeiling)
        } else if status == 0xFF {
            Some(TxError::FeatureNotEnabled)
        } else if status == 0xFE {
            Some(TxError::Unknown)
        } else {
            None
        }
    }

    /// The status word that this error stands for.
    pub fn code(self) -> (status: u32)
        ensures
            status == self.status(),
    {
        match self {
            TxError::Deleted => 0x01,
            TxError::PoolError => 0x02,
            TxError::PtrError => 0x03,
            TxError::WaitError => 0x04,
            TxError::SizeError => 0x05,
            TxError::GroupError => 0x06,
            TxError::NoEvents => 0x07,
            TxError::OptionError => 0x08,
            TxError::QueueError => 0x09,
            TxError::QueueEmpty => 0x0A,
            TxError::QueueFull => 0x0B,
            TxError::SemaphoreError => 0x0C,
            TxError::NoInstance => 0x0D,
            TxError::ThreadError => 0x0E,
            TxError::PriorityError => 0x0F,
            TxError::NoMemoryOrStartError => 0x10,
            TxError::DeleteError => 0x11,
            TxError::ResumeError => 0x12,
            TxError::CallerError => 0x13,
            TxError::SuspendError => 0x14,
            TxError::TimerError => 0x15,
            TxError::TickError => 0x16,
            TxError::ActivateError => 0x17,
            TxError::ThreshError => 0x18,
            TxError::SuspendLifted => 0x19,
            TxError::WaitAborted => 0x1A,
            TxError::WaitAbortError => 0x1B,
            TxError::MutexError => 0x1C,
            TxError::NotAvailable => 0x1D,
            TxError::NotOwned => 0x1E,
            TxError::InheritError => 0x1F,
            TxError::NotDone => 0x20,
            TxError::CeilingExceeded => 0x21,
            TxError::InvalidCeiling => 0x22,
            TxError::FeatureNotEnabled => 0xFF,
            TxError::Unknown => 0xFE,
        }
    }

    /// Finds the variant that stands for `status`. The success word and every word outside
    /// the taxonomy have none.
    pub fn from_u32(status: u32) -> (error: Option<TxError>)
        ensures
            error == TxError::of_status(status),
    {
        match status {
            0x01 => Some(TxError::Deleted),
            0x02 => Some(TxError::PoolError),
            0x03 => Some(TxError::PtrError),
            0x04 => Some(TxError::WaitError),
            0x05 => Some(TxError::SizeError),
            0x06 => Some(TxError::GroupError),
            0x07 => Some(TxError::NoEvents),
            0x08 => Some(TxError::OptionError),
            0x09 => Some(TxError::QueueError),
            0x0A => Some(TxError::QueueEmpty),
            0x0B => Some(TxError::QueueFull),
            0x0C => Some(TxError::SemaphoreError),
            0x0D => Some(TxError::NoInstance),
            0x0E => Some(TxError::ThreadError),
            0x0F => Some(TxError::PriorityError),
            0x10 => Some(TxError::NoMemoryOrStartError),
            0x11 => Some(TxError::DeleteError),
            0x12 => Some(TxError::ResumeError),
            0x13 => Some(TxError::CallerError),
            0x14 => Some(TxError::SuspendError),
            0x15 => Some(TxError::TimerError),
            0x16 => Some(TxError::TickError),
            0x17 => Some(TxError::ActivateError),
            0x18 => Some(TxError::ThreshError),
            0x19 => Some(TxError::SuspendLifted),
            0x1A => Some(TxError::WaitAborted),
            0x1B => Some(TxError::WaitAbortError),
            0x1C => Some(TxError::MutexError),
            0x1D => Some(TxError::NotAvailable),
            0x1E => Some(TxError::NotOwned),
            0x1F => Some(TxError::InheritError),
            0x20 => Some(TxError::NotDone),
            0x21 => Some(TxError::CeilingExceeded),
            0x22 => Some(TxError::InvalidCeiling),
            0xFF => Some(TxError::FeatureNotEnabled),
            0xFE => Some(TxError::Unknown),
            _ => None,
        }
    }
}

/// The error that a failure status stands for: its variant, or [`TxError::Unknown`] where
/// it has none.
pub open spec fn error_of(status: u32) -> TxError {
    match TxError::of_status(status) {
        Some(error) => error,
        None => TxError::Unknown,
    }
}

/// What a status word means to the caller of a service: the success word is success, a
/// word of the taxonomy is its error, and any other word is [`TxError::Unknown`].
pub open spec fn checked(status: u32) -> TxResult {
    if status == TX_SUCCESS {
        Ok(())
    } else {
        Err(error_of(status))
    }
}

/// The error that a failure status stands for.
pub fn error_for(status: u32) -> (error: TxError)
    ensures
        error == error_of(status),
{
    match TxError::from_u32(status) {
        Some(error) => error,
        None => TxError::Unknown,
    }
}

/// Turns the status word of a finished kernel service into its result.
pub fn check_status(status: u32) -> (r: TxResult)
    ensures
        r == checked(status),
{
    if status == TX_SUCCESS {
        Ok(())
    } else {
        Err(error_for(status))
    }
}

/// Every error is found again from its own status word.
pub proof fn lemma_status_round_trip(error: TxError)
    ensures
        TxError::of_status(error.status()) == Some(error),
        error.status() != TX_SUCCESS,
{
}

/// A status word stands for at most one error: the one whose status word it is.
pub proof fn lemma_status_one_to_one(status: u32, error: TxError)
    ensures
        TxError::of_status(status) == Some(error) <==> error.status() == status,
{
}

/// The success word never surfaces as an error, and no other word surfaces as success.
/// A word of the taxonomy surfaces as the error that it stands for, any other failure
/// as `Unknown`.
pub proof fn lemma_checked_exact(status: u32)
    ensures
        checked(status) is Ok <==> status == TX_SUCCESS,
        forall|error: TxError|
            error != TxError::Unknown ==> (checked(status) == Err::<(), TxError>(error)
                <==> status == error.status()),
        checked(status) == Err::<(), TxError>(TxError::Unknown) <==> status != TX_SUCCESS
            && forall|error: TxError| error != TxError::Unknown ==> error.status() != status,
{
    assert forall|error: TxError| error != TxError::Unknown implies (checked(status) == Err::<
        (),
        TxError,
    >(error) <==> status == error.status()) by {
        lemma_status_one_to_one(status, error);
    }
    if status != TX_SUCCESS && TxError::of_status(status) is Some {
        let found = TxError::of_status(status)->0;
        lemma_status_one_to_one(status, found);
    }
}

} // verus!
