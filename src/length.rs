//! The playing time of a MIDI file, the checks a new file must pass, and
//! where the game keeps its music files.
use vstd::prelude::*;
use vstd::string::StringSliceAdditionalSpecFns;

use crate::errors::{InvalidScore, MidiReaderError, MidiReaderResult};
use crate::score::{has_zero_tempo, length_upto, smf_header_of, smf_moments_of, timeline, Score, SmfTiming};
use crate::service_error::{CodedError, ServiceError, ServiceResult};

verus! {

/// Longest file the game accepts, in seconds.
pub const MIDI_LENGTH_SECONDS_LIMIT: u64 = 600;

/// The playing time, in microseconds, of the file `bytes` holds, or why it
/// cannot be read.
pub open spec fn parsed_length(bytes: Seq<u8>) -> Result<u64, MidiReaderError> {
    match smf_header_of(bytes) {
        None => Err(MidiReaderError::InvalidMidiFile(InvalidScore::Malformed)),
        Some(h) => match h.timing {
            SmfTiming::Timecode => Err(MidiReaderError::InvalidMidiFile(InvalidScore::UnsupportedTiming)),
            SmfTiming::Metrical(tpb) => {
                let ms = smf_moments_of(bytes, h.parallel);
                if tpb == 0 {
                    Err(MidiReaderError::InvalidMidiFile(InvalidScore::UnsupportedTiming))
                } else if ms.len() >= u32::MAX {
                    Err(MidiReaderError::InvalidMidiFile(InvalidScore::TooLong))
                } else if has_zero_tempo(timeline(ms)) {
                    Err(MidiReaderError::InvalidMidiFile(InvalidScore::ZeroTempo))
                } else {
                    Ok(length_upto(tpb, timeline(ms), timeline(ms).len() as int).0)
                }
            },
        },
    }
}

/// Playing time of a MIDI file, in microseconds, computed without playing it.
pub fn calculate_midi_length(bytes: &Vec<u8>) -> (r: MidiReaderResult<u64>)
    ensures
        r == parsed_length(bytes@),
{
    match Score::parse(bytes) {
        Ok(score) => Ok(score.total_length()),
        Err(e) => Err(e),
    }
}

/// The name ends in `.mid`.
pub open spec fn is_midi_name(name: Seq<u8>) -> bool {
    name.len() >= 4 && name.subrange(name.len() - 4, name.len() as int) == seq![46u8, 109u8, 105u8, 100u8]
}

/// Checks a new file, named `file_location` and holding `bytes`: it must be
/// named `.mid`, be readable, and last at most the limit. Gives its length in
/// whole seconds.
pub fn check_midi_file(file_location: &str, bytes: &Vec<u8>) -> (r: ServiceResult<u64>)
    ensures
        !is_midi_name(file_location.spec_bytes()) ==> (r matches Err(e) && e.code@ == "F02"@ && e.message@ == "File is not a midi"@),
        is_midi_name(file_location.spec_bytes()) ==> match parsed_length(bytes@) {
            Err(_) => (r matches Err(e) && e.code@ == "M03"@ && e.message@ == "This midi file is not supported"@),
            Ok(len) => {
                &&& len / 1_000_000 > MIDI_LENGTH_SECONDS_LIMIT ==> (r matches Err(e) && e.code@ == "F01"@ && e.message@ == "Midi file length is too long"@)
                &&& len / 1_000_000 <= MIDI_LENGTH_SECONDS_LIMIT ==> r == Ok::<u64, ServiceError>(len / 1_000_000)
            },
        },
{
    let name = file_location.as_bytes();
    let n = name.len();
    if !(n >= 4 && name[n - 4] == 46u8 && name[n - 3] == 109u8 && name[n - 2] == 105u8 && name[n - 1] == 100u8) {
        proof {
            if is_midi_name(file_location.spec_bytes()) {
                let tail = name@.subrange(n - 4, n as int);
                assert(tail[0] == name@[n - 4]);
                assert(tail[1] == name@[n - 3]);
                assert(tail[2] == name@[n - 2]);
                assert(tail[3] == name@[n - 1]);
            }
        }
        return Err(ServiceError::from_coded(CodedError::file_is_not_a_midi()));
    }
    assert(name@.subrange(n - 4, n as int) =~= seq![46u8, 109u8, 105u8, 100u8]);
    match calculate_midi_length(bytes) {
        Err(e) => Err(ServiceError::from_reader_error(e)),
        Ok(len) => {
            let secs = len / 1_000_000;
            if secs > MIDI_LENGTH_SECONDS_LIMIT {
                Err(ServiceError::from_coded(CodedError::file_too_long()))
            } else {
                Ok(secs)
            }
        },
    }
}

/// Where the game's music file `file_name` lives, relative to its resources.
pub fn format_resources_music_dir(file_name: &str) -> (r: String)
    ensures
        r@ == "resources/"@ + "/musics/"@ + file_name@,
{
    let mut dir = String::from_str("resources/");
    dir.append("/musics/");
    dir.append(file_name);
    dir
}

} // verus!
