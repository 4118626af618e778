use vstd::prelude::*;

verus! {

/// Failures the playback core can report.
///
/// Single-track resolution failures (`Io`, `Network`, `Decode`) are
/// caught at the media-resolver boundary and logged; they never stop
/// the player loop. `Channel` marks a command that could not be
/// delivered to a terminated loop, and `Protocol` a malformed ICY
/// metadata frame.
#[derive(Clone, Debug)]
pub enum PlayerError {
    /// A track descriptor carried no path or URL to resolve.
    NoFilePath,
    /// A file or temporary file operation failed.
    Io,
    /// Connecting to or reading from the network failed.
    Network,
    /// The media stream was unrecognized or corrupt.
    Decode,
    /// The ICY metadata framing was malformed.
    Protocol,
    /// A command could not be delivered to the player loop.
    Channel,
    /// A required field of a wire message was absent; the field's
    /// location is recorded.
    MissingMessage { place: String },
    /// A computed buffer capacity was zero or exceeded the
    /// platform's address space.
    BadCapacity,
}

impl PlayerError {
    /// A short fixed description of the error kind.
    pub fn kind_name(&self) -> (r: &'static str)
        ensures
            r@ == kind_name_spec(*self),
    {
        match self {
            PlayerError::NoFilePath => "no file path found",
            PlayerError::Io => "io error",
            PlayerError::Network => "network error",
            PlayerError::Decode => "decode error",
            PlayerError::Protocol => "protocol error",
            PlayerError::Channel => "channel error",
            PlayerError::MissingMessage { .. } => "missing message",
            PlayerError::BadCapacity => "bad buffer capacity",
        }
    }
}

/// The text `kind_name` returns for each error kind.
pub open spec fn kind_name_spec(e: PlayerError) -> Seq<char> {
    match e {
        PlayerError::NoFilePath => "no file path found"@,
        PlayerError::Io => "io error"@,
        PlayerError::Network => "network error"@,
        PlayerError::Decode => "decode error"@,
        PlayerError::Protocol => "protocol error"@,
        PlayerError::Channel => "channel error"@,
        PlayerError::MissingMessage { .. } => "missing message"@,
        PlayerError::BadCapacity => "bad buffer capacity"@,
    }
}

} // verus!
