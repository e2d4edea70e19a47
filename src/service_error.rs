//! Errors as the game's front end receives them: a code and a message.
use vstd::prelude::*;

use crate::errors::MidiReaderError;

verus! {

/// A fixed error of the game: its code and its message.
#[derive(Clone, Copy, Debug)]
pub struct CodedError {
    pub code: &'static str,
    pub message: &'static str,
}

impl CodedError {
    pub fn unexpected_error() -> (r: CodedError)
        ensures r.code@ == "0"@, r.message@ == "Unexpected internal error"@,
    {
        CodedError { code: "0", message: "Unexpected internal error" }
    }

    pub fn file_too_long() -> (r: CodedError)
        ensures r.code@ == "F01"@, r.message@ == "Midi file length is too long"@,
    {
        CodedError { code: "F01", message: "Midi file length is too long" }
    }

    pub fn file_is_not_a_midi() -> (r: CodedError)
        ensures r.code@ == "F02"@, r.message@ == "File is not a midi"@,
    {
        CodedError { code: "F02", message: "File is not a midi" }
    }

    pub fn file_not_found() -> (r: CodedError)
        ensures r.code@ == "F03"@, r.message@ == "file not found"@,
    {
        CodedError { code: "F03", message: "file not found" }
    }

    pub fn file_already_playing() -> (r: CodedError)
        ensures r.code@ == "F07"@, r.message@ == "There is already a file being played"@,
    {
        CodedError { code: "F07", message: "There is already a file being played" }
    }

    pub fn midi_output_connection_failed() -> (r: CodedError)
        ensures r.code@ == "M01"@, r.message@ == "Failed to connect to a midi output"@,
    {
        CodedError { code: "M01", message: "Failed to connect to a midi output" }
    }

    pub fn midi_no_available_ports() -> (r: CodedError)
        ensures r.code@ == "M02"@, r.message@ == "There are no midi output ports available on this device"@,
    {
        CodedError { code: "M02", message: "There are no midi output ports available on this device" }
    }

    pub fn midi_unexpected_playback_error() -> (r: CodedError)
        ensures r.code@ == "M03"@, r.message@ == "An error occurred during file playback"@,
    {
        CodedError { code: "M03", message: "An error occurred during file playback" }
    }

    pub fn midi_not_supported() -> (r: CodedError)
        ensures r.code@ == "M03"@, r.message@ == "This midi file is not supported"@,
    {
        CodedError { code: "M03", message: "This midi file is not supported" }
    }
}

#[derive(Clone, Debug, PartialEq, Eq)]
pub struct ServiceError {
    pub code: String,
    pub message: String,
}

pub type ServiceResult<T> = Result<T, ServiceError>;

impl ServiceError {
    pub fn new_with_message(message: String) -> (r: ServiceError)
        ensures
            r.code@ == Seq::<char>::empty(),
            r.message@ == message@,
    {
        ServiceError { code: String::new(), message }
    }

    pub fn new_with_str(message: &str) -> (r: ServiceError)
        ensures
            r.code@ == Seq::<char>::empty(),
            r.message@ == message@,
    {
        ServiceError { code: String::new(), message: message.to_owned() }
    }

    pub fn new_with_code(code: String) -> (r: ServiceError)
        ensures
            r.code@ == code@,
            r.message@ == Seq::<char>::empty(),
    {
        ServiceError { code, message: String::new() }
    }

    pub fn new_with_code_str(code: &str) -> (r: ServiceError)
        ensures
            r.code@ == code@,
            r.message@ == Seq::<char>::empty(),
    {
        ServiceError { code: code.to_owned(), message: String::new() }
    }

    pub fn new(code: String, message: String) -> (r: ServiceError)
        ensures
            r.code@ == code@,
            r.message@ == message@,
    {
        ServiceError { code, message }
    }

    /// The error for anything unexpected.
    pub fn generic() -> (r: ServiceError)
        ensures
            r.code@ == "0"@,
            r.message@ == "Unexpected internal error"@,
    {
        ServiceError::from_coded(CodedError::unexpected_error())
    }

    pub fn from_coded(value: CodedError) -> (r: ServiceError)
        ensures
            r.code@ == value.code@,
            r.message@ == value.message@,
    {
        ServiceError { code: value.code.to_owned(), message: value.message.to_owned() }
    }

    /// The code and message the front end shows for an error of playback.
    pub fn from_reader_error(value: MidiReaderError) -> (r: ServiceError)
        ensures
            value is InvalidMidiFile ==> r.code@ == "M03"@ && r.message@ == "This midi file is not supported"@,
            value is PlaybackError ==> r.code@ == "M03"@ && r.message@ == "An error occurred during file playback"@,
            value is AlreadyPlaying ==> r.code@ == "F07"@ && r.message@ == "There is already a file being played"@,
            value is MidiOutputError ==> r.code@ == "M01"@ && r.message@ == "Failed to connect to a midi output"@,
            value is NoPortsFound ==> r.code@ == "M02"@
                && r.message@ == "There are no midi output ports available on this device"@,
            value is FileDoesNotExist ==> r.code@ == "F03"@ && r.message@ == "file not found"@,
            value is Interrupted ==> r.code@ == Seq::<char>::empty()
                && r.message@ == "File playback has been interrupted"@,
    {
        match value {
            MidiReaderError::InvalidMidiFile(_) => ServiceError::from_coded(CodedError::midi_not_supported()),
            MidiReaderError::PlaybackError(_) => ServiceError::from_coded(CodedError::midi_unexpected_playback_error()),
            MidiReaderError::AlreadyPlaying => ServiceError::from_coded(CodedError::file_already_playing()),
            MidiReaderError::MidiOutputError(_) => ServiceError::from_coded(CodedError::midi_output_connection_failed()),
            MidiReaderError::NoPortsFound => ServiceError::from_coded(CodedError::midi_no_available_ports()),
            MidiReaderError::FileDoesNotExist(_) => ServiceError::from_coded(CodedError::file_not_found()),
            MidiReaderError::Interrupted => ServiceError::new_with_str("File playback has been interrupted"),
        }
    }
}

impl Default for ServiceError {
    fn default() -> (r: ServiceError)
        ensures
            r.code@ == "0"@,
            r.message@ == "Unexpected internal error"@,
    {
        ServiceError::generic()
    }
}

} // verus!
