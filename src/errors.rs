use vstd::prelude::*;

verus! {

/// Why a score could not be loaded.
#[derive(Clone, Copy, Debug, PartialEq, Eq, Structural)]
pub enum InvalidScore {
    /// The bytes are not a standard MIDI file.
    Malformed,
    /// The file counts time in timecode frames instead of ticks per beat, or
    /// its beat has no ticks.
    UnsupportedTiming,
    /// The file sets a tempo of zero microseconds per beat.
    ZeroTempo,
    /// The file holds more ticks than a wait can count.
    TooLong,
}

/// Errors of loading and playing a score.
#[derive(Clone, Debug, PartialEq, Eq)]
pub enum MidiReaderError {
    InvalidMidiFile(InvalidScore),
    PlaybackError(String),
    AlreadyPlaying,
    Interrupted,
    MidiOutputError(String),
    NoPortsFound,
    FileDoesNotExist(String),
}

pub type MidiReaderResult<T> = Result<T, MidiReaderError>;

/// Errors of the serial link to the ocarina.
#[derive(Clone, Debug, PartialEq, Eq)]
pub enum ArduinoCommunicationError {
    ByteNotSupported(u8),
    MidiInputError,
    PortError,
    PortWithNameNotFound(String),
    OcarinaNotFound,
    NoDevicesConnected,
    PortListenError(String),
}

pub type ArduinoCommResult<T> = Result<T, ArduinoCommunicationError>;

/// Errors of the key-value store of the game's settings.
#[derive(Clone, Debug, PartialEq, Eq)]
pub enum StorageError {
    StorageDoesNotExist(String),
    CouldNotCreateStorage(String),
    StorageAlreadyExists(String),
    StorageIsLocked,
    StorageWriteError { key: String },
    StorageReadError(String),
    KeyNotFound(String),
    StorageCommitError,
}

/// Errors of opening the game's database at a path.
#[derive(Clone, Debug, PartialEq, Eq)]
pub enum DatabaseError {
    CouldNotConnect(String),
    CouldNotCreateFile(String),
    MigrationError(String),
}

} // verus!
