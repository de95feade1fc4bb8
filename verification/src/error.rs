//! Error values that the decisions of this crate give back.

use vstd::prelude::*;

verus! {

/// What sort of failure an [`IoError`] is.
#[derive(Debug, Clone, Copy, PartialEq, Eq, Structural)]
pub enum IoKind {
    /// An argument was malformed.
    InvalidInput,
    /// Data that was read was malformed.
    InvalidData,
    /// Something was not there.
    NotFound,
    /// Something was there already.
    AlreadyExists,
    /// An operation was not permitted.
    PermissionDenied,
    /// A connection was refused.
    ConnectionRefused,
    /// A connection was reset.
    ConnectionReset,
    /// A host cannot be reached.
    HostUnreachable,
    /// A network cannot be reached.
    NetworkUnreachable,
    /// A connection was broken off.
    ConnectionAborted,
    /// There is no connection.
    NotConnected,
    /// An address is in use.
    AddrInUse,
    /// An address is not to be had.
    AddrNotAvailable,
    /// The network is down.
    NetworkDown,
    /// Nobody reads a pipe.
    BrokenPipe,
    /// It would have to wait.
    WouldBlock,
    /// Something is no directory.
    NotADirectory,
    /// Something is a directory.
    IsADirectory,
    /// A directory is not empty.
    DirectoryNotEmpty,
    /// A file system is read-only.
    ReadOnlyFilesystem,
    /// A handle of a network file system is stale.
    StaleNetworkFileHandle,
    /// It took too long.
    TimedOut,
    /// Nothing more could be written.
    WriteZero,
    /// Storage is full.
    StorageFull,
    /// A file cannot be sought in.
    NotSeekable,
    /// A quota is used up.
    QuotaExceeded,
    /// A file is too large.
    FileTooLarge,
    /// A resource is busy.
    ResourceBusy,
    /// A program is running.
    ExecutableFileBusy,
    /// It would wait for itself.
    Deadlock,
    /// Two paths are on different devices.
    CrossesDevices,
    /// A file has too many links.
    TooManyLinks,
    /// A file name is malformed.
    InvalidFilename,
    /// Arguments are too long.
    ArgumentListTooLong,
    /// It was interrupted.
    Interrupted,
    /// It is not supported.
    Unsupported,
    /// Data ended too early.
    UnexpectedEof,
    /// There is not enough memory.
    OutOfMemory,
    /// Anything else.
    Other,
}

/// An input or output failure.
#[derive(Debug)]
pub struct IoError {
    /// Sort of failure.
    pub kind: IoKind,
    /// Description.
    pub message: String,
}

/// An [`IoError`] with its text.
pub struct IoFault {
    pub kind: IoKind,
    pub message: Seq<char>,
}

impl View for IoError {
    type V = IoFault;

    open spec fn view(&self) -> IoFault {
        IoFault { kind: self.kind, message: self.message@ }
    }
}

/// An outcome with the text of its failure.
pub open spec fn outcome<T>(r: Result<T, IoError>) -> Result<T, IoFault> {
    match r {
        Ok(t) => Ok(t),
        Err(e) => Err(e@),
    }
}

/// What reading a text file gave.
pub open spec fn file_view(r: Result<String, IoError>) -> Result<Seq<char>, IoFault> {
    match r {
        Ok(t) => Ok(t@),
        Err(e) => Err(e@),
    }
}

impl IoError {
    /// A failure of the given sort.
    pub fn new(kind: IoKind, message: &str) -> (e: IoError)
        ensures
            e@ == (IoFault { kind, message: message@ }),
    {
        IoError { kind, message: message.to_owned() }
    }

    /// A failure of no particular sort.
    pub fn other(message: &str) -> (e: IoError)
        ensures
            e@ == (IoFault { kind: IoKind::Other, message: message@ }),
    {
        IoError { kind: IoKind::Other, message: message.to_owned() }
    }

    /// The same failure once more.
    pub fn duplicate(&self) -> (e: IoError)
        ensures
            e@ == self@,
    {
        IoError { kind: self.kind, message: self.message.clone() }
    }
}

/// An event that does not answer what was asked for last.
#[derive(Debug, Clone, Copy, PartialEq, Eq, Structural)]
pub struct UnexpectedEvent;

/// Why an operation on managed machines failed.
#[derive(Debug)]
pub enum Error {
    /// A name stands for more than one machine, or would.
    Ambiguous(String),
    /// A configuration does not make sense.
    InvalidConfig(String),
    /// The machine is in the wrong state.
    InvalidState(String),
    /// Secrets were given to a machine without a network backend.
    SecretsNeedVirtioNet,
    /// A required isolation layer is unavailable.
    SecurityUnavailable(String),
    /// An input or output failure.
    Io(IoError),
    /// The jail failed otherwise.
    Jail(String),
    /// Another part of the system failed.
    Other(String),
}

/// An [`Error`] with its text.
pub enum Fault {
    Ambiguous(Seq<char>),
    InvalidConfig(Seq<char>),
    InvalidState(Seq<char>),
    SecretsNeedVirtioNet,
    SecurityUnavailable(Seq<char>),
    Io(IoFault),
    Jail(Seq<char>),
    Other(Seq<char>),
}

impl View for Error {
    type V = Fault;

    open spec fn view(&self) -> Fault {
        match *self {
            Error::Ambiguous(m) => Fault::Ambiguous(m@),
            Error::InvalidConfig(m) => Fault::InvalidConfig(m@),
            Error::InvalidState(m) => Fault::InvalidState(m@),
            Error::SecretsNeedVirtioNet => Fault::SecretsNeedVirtioNet,
            Error::SecurityUnavailable(m) => Fault::SecurityUnavailable(m@),
            Error::Io(e) => Fault::Io(e@),
            Error::Jail(m) => Fault::Jail(m@),
            Error::Other(m) => Fault::Other(m@),
        }
    }
}

/// A failure is seen as what it is, with its own text; an outcome is seen as a
/// failure exactly where it is one.
pub proof fn law_failures_are_seen_as_they_are(e: Error, io: IoError, f: Result<String, IoError>)
    ensures
        e matches Error::Ambiguous(m) ==> e@ == Fault::Ambiguous(m@),
        e matches Error::InvalidConfig(m) ==> e@ == Fault::InvalidConfig(m@),
        e matches Error::InvalidState(m) ==> e@ == Fault::InvalidState(m@),
        e is SecretsNeedVirtioNet ==> e@ is SecretsNeedVirtioNet,
        e matches Error::SecurityUnavailable(m) ==> e@ == Fault::SecurityUnavailable(m@),
        e matches Error::Io(x) ==> e@ == Fault::Io(x@),
        e matches Error::Jail(m) ==> e@ == Fault::Jail(m@),
        e matches Error::Other(m) ==> e@ == Fault::Other(m@),
        io@.kind == io.kind,
        io@.message == io.message@,
        f matches Ok(t) ==> file_view(f) == Ok::<Seq<char>, IoFault>(t@) && outcome(f) == Ok::<
            String,
            IoFault,
        >(t),
        f matches Err(x) ==> file_view(f) == Err::<Seq<char>, IoFault>(x@) && outcome(f) == Err::<
            String,
            IoFault,
        >(x@),
{
}

} // verus!
