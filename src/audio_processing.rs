//! Descriptions used when post-processing synthesized audio: target formats
//! and their quality settings.

use vstd::prelude::*;

verus! {

/// An audio container format that processed audio can be written in.
#[derive(Clone, Copy, Debug, PartialEq, Eq, Structural)]
pub enum AudioFormat {
    Wav,
    Mp3,
    Ogg,
    Flac,
}

impl AudioFormat {
    /// The lower-case name used in requests and file extensions.
    pub fn as_str(&self) -> (r: &str)
        ensures
            r@ == match self {
                AudioFormat::Wav => "wav"@,
                AudioFormat::Mp3 => "mp3"@,
                AudioFormat::Ogg => "ogg"@,
                AudioFormat::Flac => "flac"@,
            },
    {
        match self {
            AudioFormat::Wav => "wav",
            AudioFormat::Mp3 => "mp3",
            AudioFormat::Ogg => "ogg",
            AudioFormat::Flac => "flac",
        }
    }

    /// The upper-case name shown to users.
    pub fn label(&self) -> (r: &str)
        ensures
            r@ == match self {
                AudioFormat::Wav => "WAV"@,
                AudioFormat::Mp3 => "MP3"@,
                AudioFormat::Ogg => "OGG"@,
                AudioFormat::Flac => "FLAC"@,
            },
    {
        match self {
            AudioFormat::Wav => "WAV",
            AudioFormat::Mp3 => "MP3",
            AudioFormat::Ogg => "OGG",
            AudioFormat::Flac => "FLAC",
        }
    }
}

/// Encoder settings; an absent value leaves the encoder's default.
#[derive(Clone, Debug, PartialEq)]
pub struct QualitySettings {
    pub bitrate: Option<String>,
    pub quality: Option<i32>,
    pub compression: Option<i32>,
}

impl Default for QualitySettings {
    fn default() -> (r: QualitySettings)
        ensures
            r.bitrate is None,
            r.quality is None,
            r.compression is None,
    {
        QualitySettings { bitrate: None, quality: None, compression: None }
    }
}

/// A format the processing backend offers.
#[derive(Clone, Debug, PartialEq)]
pub struct AudioFormatInfo {
    pub value: String,
    pub label: String,
    pub description: String,
}

} // verus!
