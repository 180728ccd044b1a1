use vstd::prelude::*;

verus! {

/// What can go wrong when the player is configured, started or run.
#[derive(Debug)]
pub enum LibrespotError {
    /// Neither stored nor supplied credentials are available.
    MissingCredentials,
    /// A configuration value names something that does not exist.
    IllegalConfig(String),
    /// Reading or writing local state failed; holds the reason.
    Io(String),
    /// The connection to the service failed; holds the reason.
    Connection(String),
    /// The background thread failed unexpectedly; holds the reason.
    Panic(String),
}

/// Short machine-readable tag of each error variant.
pub open spec fn kind_of(e: LibrespotError) -> Seq<char> {
    match e {
        LibrespotError::MissingCredentials => "missing-credentials"@,
        LibrespotError::IllegalConfig(_) => "illegal-config"@,
        LibrespotError::Io(_) => "io"@,
        LibrespotError::Connection(_) => "connection"@,
        LibrespotError::Panic(_) => "panic"@,
    }
}

/// Human-readable description of an error.
pub open spec fn message_of(e: LibrespotError) -> Seq<char> {
    match e {
        LibrespotError::MissingCredentials => "Credentials are missing"@,
        LibrespotError::IllegalConfig(m) => "Illegal configuration: "@ + m@,
        LibrespotError::Io(m) => "I/O error: "@ + m@,
        LibrespotError::Connection(m) => "Connection error: "@ + m@,
        LibrespotError::Panic(m) => "Internal error: "@ + m@,
    }
}

impl LibrespotError {
    /// The tag that identifies the kind of this error.
    pub fn kind(&self) -> (r: &'static str)
        ensures
            r@ == kind_of(*self),
    {
        match self {
            LibrespotError::MissingCredentials => "missing-credentials",
            LibrespotError::IllegalConfig(_) => "illegal-config",
            LibrespotError::Io(_) => "io",
            LibrespotError::Connection(_) => "connection",
            LibrespotError::Panic(_) => "panic",
        }
    }

    /// The description shown to a user.
    pub fn message(&self) -> (r: String)
        ensures
            r@ == message_of(*self),
    {
        match self {
            LibrespotError::MissingCredentials => String::from_str("Credentials are missing"),
            LibrespotError::IllegalConfig(m) => {
                String::from_str("Illegal configuration: ").concat(m.as_str())
            },
            LibrespotError::Io(m) => String::from_str("I/O error: ").concat(m.as_str()),
            LibrespotError::Connection(m) => {
                String::from_str("Connection error: ").concat(m.as_str())
            },
            LibrespotError::Panic(m) => String::from_str("Internal error: ").concat(m.as_str()),
        }
    }
}

/// The error categories reported to a user interface.
#[derive(Clone, Copy, Debug, PartialEq, Eq, Structural)]
pub enum SailifyErrorKind {
    MissingCredentials,
    IllegalConfig,
    Io,
    Connection,
    Panic,
    /// An access token could not be obtained.
    Token,
}

/// The category of an error.
pub open spec fn category_of(e: LibrespotError) -> SailifyErrorKind {
    match e {
        LibrespotError::MissingCredentials => SailifyErrorKind::MissingCredentials,
        LibrespotError::IllegalConfig(_) => SailifyErrorKind::IllegalConfig,
        LibrespotError::Io(_) => SailifyErrorKind::Io,
        LibrespotError::Connection(_) => SailifyErrorKind::Connection,
        LibrespotError::Panic(_) => SailifyErrorKind::Panic,
    }
}

impl SailifyErrorKind {
    /// The category under which an error is reported.
    pub fn of(err: &LibrespotError) -> (r: SailifyErrorKind)
        ensures
            r == category_of(*err),
    {
        match err {
            LibrespotError::MissingCredentials => SailifyErrorKind::MissingCredentials,
            LibrespotError::IllegalConfig(_) => SailifyErrorKind::IllegalConfig,
            LibrespotError::Io(_) => SailifyErrorKind::Io,
            LibrespotError::Connection(_) => SailifyErrorKind::Connection,
            LibrespotError::Panic(_) => SailifyErrorKind::Panic,
        }
    }
}

} // verus!
