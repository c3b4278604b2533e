use dialogue_synth::api::{get_youtube_progress_url, API_BASE_URL};
use dialogue_synth::audio_processing::{AudioFormat, QualitySettings};
use dialogue_synth::character::Character;
use dialogue_synth::script::{ScriptLine, SynthesisStatus};
use dialogue_synth::settings::Settings;

#[test]
fn new_character_has_fresh_id_and_no_voice() {
    let a = Character::new("Alice".to_string());
    let b = Character::new("Alice".to_string());
    assert_eq!(a.name, "Alice");
    assert_eq!(a.description, "");
    assert!(a.voice_path.is_none());
    assert_eq!(a.id.len(), 36);
    assert_ne!(a.id, b.id);
}

#[test]
fn new_line_is_idle() {
    let l = ScriptLine::new("A".to_string(), "hi".to_string(), Some("id".to_string()));
    assert_eq!(l.status, SynthesisStatus::Idle);
    assert_eq!(l.character_id.as_deref(), Some("id"));
    assert!(l.output_path.is_none());
}

#[test]
fn default_settings() {
    let s = Settings::default();
    assert_eq!(s.output_directory, "frontend/data/output");
    assert_eq!(s.voice_files_directory, "frontend/data/voices");
    assert_eq!(s.projects_directory, "frontend/data/projects");
    assert!(s.active_project_id.is_none());
}

#[test]
fn audio_format_names() {
    assert_eq!(AudioFormat::Wav.as_str(), "wav");
    assert_eq!(AudioFormat::Mp3.as_str(), "mp3");
    assert_eq!(AudioFormat::Ogg.as_str(), "ogg");
    assert_eq!(AudioFormat::Flac.as_str(), "flac");
    assert_eq!(AudioFormat::Flac.label(), "FLAC");
    let q = QualitySettings::default();
    assert!(q.bitrate.is_none() && q.quality.is_none() && q.compression.is_none());
}

#[test]
fn youtube_progress_url() {
    assert_eq!(API_BASE_URL, "http://localhost:8000");
    assert_eq!(get_youtube_progress_url("abc-1"), "http://localhost:8000/youtube/progress/abc-1");
}
