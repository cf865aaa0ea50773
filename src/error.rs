use vstd::prelude::*;

verus! {

/// The closed set of failures of a compression or decompression call.
///
/// `SrcTooLarge`, `DstTooLarge` and `DstTooSmall` come from this crate's
/// own guards and never from the engine; the others classify the engine's
/// status codes.
#[derive(Debug, PartialEq, Eq, Clone, Copy, Structural)]
pub enum UclErrorKind {
    GenericError,
    InvalidArgument,
    OutOfMemory,
    NotCompressible,
    InputOverrun,
    OutputOverrun,
    LookbehindOverrun,
    EofNotFound,
    InputNotConsumed,
    OverlapOverrun,
    SrcTooLarge,
    DstTooLarge,
    DstTooSmall,
}

/// The kind that the engine's status code `code` stands for.
///
/// Every code has one; codes outside the engine's documented list (and 0,
/// which is not a failure at all) fall to `GenericError`.
pub open spec fn kind_of_status(code: int) -> UclErrorKind {
    if code == -2 {
        UclErrorKind::InvalidArgument
    } else if code == -3 {
        UclErrorKind::OutOfMemory
    } else if code == -101 {
        UclErrorKind::NotCompressible
    } else if code == -201 {
        UclErrorKind::InputOverrun
    } else if code == -202 {
        UclErrorKind::OutputOverrun
    } else if code == -203 {
        UclErrorKind::LookbehindOverrun
    } else if code == -204 {
        UclErrorKind::EofNotFound
    } else if code == -205 {
        UclErrorKind::InputNotConsumed
    } else if code == -206 {
        UclErrorKind::OverlapOverrun
    } else {
        UclErrorKind::GenericError
    }
}

impl UclErrorKind {
    /// Whether this kind is raised by the guards before a call, never by
    /// the engine.
    pub open spec fn is_guard_failure(self) -> bool {
        match self {
            UclErrorKind::SrcTooLarge | UclErrorKind::DstTooLarge | UclErrorKind::DstTooSmall => true,
            _ => false,
        }
    }

    /// Classifies one of the engine's status codes.
    pub fn from(code: i32) -> (r: Self)
        ensures
            r == kind_of_status(code as int),
            !r.is_guard_failure(),
    {
        match code {
            -2 => UclErrorKind::InvalidArgument,
            -3 => UclErrorKind::OutOfMemory,
            -101 => UclErrorKind::NotCompressible,
            -201 => UclErrorKind::InputOverrun,
            -202 => UclErrorKind::OutputOverrun,
            -203 => UclErrorKind::LookbehindOverrun,
            -204 => UclErrorKind::EofNotFound,
            -205 => UclErrorKind::InputNotConsumed,
            -206 => UclErrorKind::OverlapOverrun,
            _ => UclErrorKind::GenericError,
        }
    }
}

} // verus!
