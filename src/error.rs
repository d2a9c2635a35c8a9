use vstd::prelude::*;

verus! {

/// What went wrong, with the values that a caller may act on.
#[derive(Clone, Copy, Debug, PartialEq, Eq, Structural)]
pub enum ErrorKind {
    /// No compute platform is available.
    NoPlatformFound,
    /// The first platform offers no GPU-class device.
    NoDeviceFound,
    /// The kernel source could not be read.
    SourceRead,
    /// The kernel program failed to build; the message holds the diagnostics.
    Compile,
    /// The compiled program has no entry point of the expected name.
    EntryPointNotFound,
    /// The input does not have the length the engine was built for.
    LengthMismatch { expected: usize, actual: usize },
    /// A map, unmap, dispatch or wait on the device failed.
    Device,
}

/// The error of every fallible operation: a kind and a human-readable message.
#[derive(Clone, Debug)]
pub struct ExpModError {
    pub kind: ErrorKind,
    pub message: String,
}

/// Relies on std's `format!` to write the two lengths in decimal.
#[verifier::external_body]
fn length_message(expected: usize, actual: usize) -> (r: String) {
    format!("Invalid array length: expected {}, got {}", expected, actual)
}

impl ExpModError {
    /// An error of the given kind carrying `message` verbatim.
    pub fn new(kind: ErrorKind, message: String) -> (r: ExpModError)
        ensures
            r.kind == kind,
            r.message@ == message@,
    {
        ExpModError { kind, message }
    }

    /// The input had `actual` elements where `expected` were required.
    pub fn length_mismatch(expected: usize, actual: usize) -> (r: ExpModError)
        ensures
            r.kind == (ErrorKind::LengthMismatch { expected, actual }),
    {
        let kind = ErrorKind::LengthMismatch { expected, actual };
        ExpModError { kind, message: length_message(expected, actual) }
    }

    pub fn no_platform() -> (r: ExpModError)
        ensures
            r.kind == ErrorKind::NoPlatformFound,
    {
        ExpModError { kind: ErrorKind::NoPlatformFound, message: "No platform found".to_string() }
    }

    pub fn no_gpu() -> (r: ExpModError)
        ensures
            r.kind == ErrorKind::NoDeviceFound,
    {
        ExpModError { kind: ErrorKind::NoDeviceFound, message: "No GPU found".to_string() }
    }

    pub fn kind(&self) -> (r: ErrorKind)
        ensures
            r == self.kind,
    {
        self.kind
    }

    pub fn message(&self) -> (r: String)
        ensures
            r@ == self.message@,
    {
        self.message.clone()
    }
}

} // verus!
