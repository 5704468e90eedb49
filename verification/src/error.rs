use vstd::prelude::*;

verus! {

/// What can go wrong between the transport and a service.
#[derive(Debug, Clone, Copy, PartialEq, Eq, Structural)]
pub enum Error {
    /// The transport did not answer in time.
    IoTimeout,
    /// The peer is gone.
    IoDisconnected,
    /// The bulk pipe stalled or broke.
    IoPipe,
    /// Any other transport or TLS failure.
    IoOther,
    /// A frame header or a frame sequence is malformed.
    FramingError,
    /// A well-formed frame or message that the current phase does not allow.
    ProtocolViolation,
    /// A payload that does not decode against the schema its tag names.
    SchemaError,
}

/// Why a bulk transfer failed, as the USB stack tells it.
#[derive(Debug, Clone, Copy, PartialEq, Eq, Structural)]
pub enum UsbError {
    Io,
    InvalidParam,
    Access,
    NoDevice,
    NotFound,
    Busy,
    Timeout,
    Overflow,
    Pipe,
    Interrupted,
    NoMem,
    NotSupported,
    BadDescriptor,
    Other,
}

impl Error {
    /// The error of the session that stands for a failed bulk transfer: a
    /// timeout, a device that is gone and a broken pipe keep their meaning,
    /// everything else is some other failure of the transport.
    pub open spec fn spec_from_usb(error: UsbError) -> Error {
        match error {
            UsbError::Timeout => Error::IoTimeout,
            UsbError::NoDevice => Error::IoDisconnected,
            UsbError::Pipe => Error::IoPipe,
            _ => Error::IoOther,
        }
    }

    #[verifier::when_used_as_spec(spec_from_usb)]
    pub fn from_usb(error: UsbError) -> (mapped: Error)
        ensures
            mapped == Self::spec_from_usb(error),
    {
        match error {
            UsbError::Timeout => Error::IoTimeout,
            UsbError::NoDevice => Error::IoDisconnected,
            UsbError::Pipe => Error::IoPipe,
            UsbError::Io => Error::IoOther,
            _ => Error::IoOther,
        }
    }

    /// Whether the error came from the transport.
    pub open spec fn spec_is_io(self) -> bool {
        match self {
            Error::IoTimeout | Error::IoDisconnected | Error::IoPipe | Error::IoOther => true,
            _ => false,
        }
    }

    #[verifier::when_used_as_spec(spec_is_io)]
    pub fn is_io(self) -> (io: bool)
        ensures
            io == self.spec_is_io(),
    {
        match self {
            Error::IoTimeout | Error::IoDisconnected | Error::IoPipe | Error::IoOther => true,
            _ => false,
        }
    }

    /// Whether the session ends on this error.
    pub open spec fn spec_is_fatal(self) -> bool {
        match self {
            Error::IoTimeout => false,
            Error::SchemaError => false,
            _ => true,
        }
    }

    /// Whether the session ends on this error: timeouts mean "no data yet",
    /// schema errors drop one message, everything else terminates.
    #[verifier::when_used_as_spec(spec_is_fatal)]
    pub fn is_fatal(self) -> (fatal: bool)
        ensures
            fatal == self.spec_is_fatal(),
    {
        match self {
            Error::IoTimeout => false,
            Error::SchemaError => false,
            _ => true,
        }
    }

}

/// A failed bulk transfer is always an error of the transport, and it ends
/// the session unless it is a timeout.
pub proof fn lemma_usb_errors_are_io(error: UsbError)
    ensures
        Error::spec_from_usb(error).spec_is_io(),
        Error::spec_from_usb(error).spec_is_fatal() <==> error != UsbError::Timeout,
{
}

} // verus!
