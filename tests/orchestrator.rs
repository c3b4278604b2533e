use dialogue_synth::character::Character;
use dialogue_synth::orchestrator::{
    export_inputs, line_file_name_of, PipelineError, RunAction, RunEvent, SynthesisRun,
};
use dialogue_synth::script::{get_status_color, get_status_icon, ScriptLine, SynthesisStatus};
use dialogue_synth::script_parser::parse_script;

fn voiced(name: &str) -> Character {
    let mut c = Character::new(name.to_string());
    c.voice_path = Some(format!("voices/{}.wav", name));
    c
}

fn expect_job(run: &SynthesisRun) -> (usize, String, String, String) {
    match run.next_action() {
        RunAction::Synthesize(job) => (job.line, job.text, job.reference_audio_path, job.output_path),
        other => panic!("expected a synthesis request, got {:?}", other),
    }
}

#[test]
fn unknown_speaker_fails_before_any_request() {
    let roster = vec![voiced("Gandalf")];
    let lines = parse_script("[Unknown]: hi", &roster);
    match SynthesisRun::start(&lines, &roster, "out") {
        Err(PipelineError::UnknownSpeakers(names)) => assert_eq!(names, vec!["Unknown".to_string()]),
        Err(e) => panic!("unexpected error {:?}", e),
        Ok(_) => panic!("the run must not start"),
    }
    assert!(lines.iter().all(|l| l.status == SynthesisStatus::Idle));
}

#[test]
fn unknown_speakers_are_listed_in_order() {
    let roster = vec![voiced("A")];
    let lines = parse_script("[X]: 1\n[A]: 2\n[Y]: 3\n[X]: 4", &roster);
    match SynthesisRun::start(&lines, &roster, "out") {
        Err(PipelineError::UnknownSpeakers(names)) => {
            assert_eq!(names, vec!["X".to_string(), "Y".to_string(), "X".to_string()])
        }
        _ => panic!("expected unknown speakers"),
    }
}

#[test]
fn empty_script_is_refused() {
    let roster = vec![voiced("A")];
    let lines: Vec<ScriptLine> = parse_script("just notes", &roster);
    match SynthesisRun::start(&lines, &roster, "out") {
        Err(PipelineError::EmptyScript) => {}
        _ => panic!("expected an empty-script error"),
    }
}

#[test]
fn failure_on_second_line_halts_the_run() {
    let roster = vec![voiced("A")];
    let lines = parse_script("[A]: one\n[A]: two\n[A]: three", &roster);
    let mut run = SynthesisRun::start(&lines, &roster, "out").unwrap();
    match run.next_action() {
        RunAction::CreateOutputDir(d) => assert_eq!(d, "out"),
        other => panic!("unexpected {:?}", other),
    }
    run.handle(RunEvent::OutputDirReady(Ok(())));
    let (i, text, voice, file) = expect_job(&run);
    assert_eq!((i, text.as_str(), voice.as_str(), file.as_str()), (0, "one", "voices/A.wav", "out/line_000.wav"));
    assert_eq!(run.lines()[0].status, SynthesisStatus::Working);
    run.handle(RunEvent::LineSynthesized(Ok(())));
    let (i, text, _, file) = expect_job(&run);
    assert_eq!((i, text.as_str(), file.as_str()), (1, "two", "out/line_001.wav"));
    run.handle(RunEvent::LineSynthesized(Err("backend down".to_string())));
    match run.next_action() {
        RunAction::Finished(Err(PipelineError::SynthesisFailed { line, detail })) => {
            assert_eq!(line, 1);
            assert_eq!(detail, "backend down");
        }
        other => panic!("unexpected {:?}", other),
    }
    let lines = run.lines();
    assert_eq!(lines[0].status, SynthesisStatus::Done);
    assert_eq!(lines[0].output_path.as_deref(), Some("out/line_000.wav"));
    assert_eq!(lines[1].status, SynthesisStatus::Error("backend down".to_string()));
    assert!(lines[1].output_path.is_none());
    assert_eq!(lines[2].status, SynthesisStatus::Idle);
    assert!(lines[2].output_path.is_none());
    run.handle(RunEvent::LineSynthesized(Ok(())));
    assert_eq!(run.lines()[2].status, SynthesisStatus::Idle);
    assert!(matches!(run.next_action(), RunAction::Finished(Err(_))));
}

#[test]
fn all_lines_done_completes_the_run() {
    let roster = vec![voiced("A"), voiced("B")];
    let lines = parse_script("[A]: one\n[b]: two", &roster);
    let mut run = SynthesisRun::start(&lines, &roster, "out").unwrap();
    run.handle(RunEvent::OutputDirReady(Ok(())));
    run.handle(RunEvent::LineSynthesized(Ok(())));
    let (_, _, voice, _) = expect_job(&run);
    assert_eq!(voice, "voices/B.wav");
    run.handle(RunEvent::LineSynthesized(Ok(())));
    assert!(matches!(run.next_action(), RunAction::Finished(Ok(()))));
    let lines = run.into_lines();
    assert_eq!(lines[1].output_path.as_deref(), Some("out/line_001.wav"));
    assert_eq!(export_inputs(&lines), Some(vec!["out/line_000.wav".to_string(), "out/line_001.wav".to_string()]));
    assert!(lines.iter().all(|l| l.status == SynthesisStatus::Done));
}

#[test]
fn missing_voice_stops_at_that_line() {
    let roster = vec![voiced("A"), Character::new("Mute".to_string())];
    let lines = parse_script("[A]: one\n[Mute]: two\n[A]: three", &roster);
    let mut run = SynthesisRun::start(&lines, &roster, "out").unwrap();
    run.handle(RunEvent::OutputDirReady(Ok(())));
    run.handle(RunEvent::LineSynthesized(Ok(())));
    match run.next_action() {
        RunAction::Finished(Err(PipelineError::MissingVoiceReference { line, speaker })) => {
            assert_eq!(line, 1);
            assert_eq!(speaker, "Mute");
        }
        other => panic!("unexpected {:?}", other),
    }
    assert_eq!(run.lines()[1].status, SynthesisStatus::Error("no voice reference".to_string()));
    assert_eq!(run.lines()[2].status, SynthesisStatus::Idle);
}

#[test]
fn speaker_removed_from_roster_fails_the_line() {
    let roster = vec![voiced("A")];
    let lines = parse_script("[A]: one", &roster);
    let mut run = SynthesisRun::start(&lines, &[voiced("A")], "out").unwrap();
    run.handle(RunEvent::OutputDirReady(Ok(())));
    match run.next_action() {
        RunAction::Finished(Err(PipelineError::SpeakerNotFound { line, speaker })) => {
            assert_eq!(line, 0);
            assert_eq!(speaker, "A");
        }
        other => panic!("unexpected {:?}", other),
    }
    assert_eq!(run.lines()[0].status, SynthesisStatus::Error("Character not found".to_string()));
}

#[test]
fn output_dir_failure_touches_no_line() {
    let roster = vec![voiced("A")];
    let lines = parse_script("[A]: one", &roster);
    let mut run = SynthesisRun::start(&lines, &roster, "out").unwrap();
    run.handle(RunEvent::LineSynthesized(Ok(())));
    run.handle(RunEvent::OutputDirReady(Err("read-only".to_string())));
    match run.next_action() {
        RunAction::Finished(Err(PipelineError::OutputDirUnavailable(d))) => assert_eq!(d, "read-only"),
        other => panic!("unexpected {:?}", other),
    }
    assert_eq!(run.lines()[0].status, SynthesisStatus::Idle);
}

#[test]
fn file_names_are_zero_padded() {
    assert_eq!(line_file_name_of(0), "line_000.wav");
    assert_eq!(line_file_name_of(7), "line_007.wav");
    assert_eq!(line_file_name_of(42), "line_042.wav");
    assert_eq!(line_file_name_of(999), "line_999.wav");
    assert_eq!(line_file_name_of(1234), "line_1234.wav");
}

#[test]
fn status_colors_and_icons() {
    assert_eq!(get_status_color(&SynthesisStatus::Idle), "#6c757d");
    assert_eq!(get_status_color(&SynthesisStatus::Done), "#28a745");
    assert_eq!(get_status_color(&SynthesisStatus::Error("x".to_string())), "#dc3545");
    assert_eq!(get_status_icon(&SynthesisStatus::Done), "\u{2705}");
    assert_eq!(get_status_icon(&SynthesisStatus::Working), "\u{1f535}");
}

#[test]
fn run_error_messages() {
    let e = PipelineError::UnknownSpeakers(vec!["X".to_string(), "Y".to_string()]);
    assert_eq!(e.message(), "Unknown character(s): X, Y. Please add them in Character Management first.");
    assert_eq!(PipelineError::EmptyScript.message(), "No dialogue lines to synthesize.");
    assert_eq!(
        PipelineError::OutputDirUnavailable("denied".to_string()).message(),
        "Failed to create output directory: denied"
    );
    assert_eq!(
        PipelineError::SpeakerNotFound { line: 0, speaker: "A".to_string() }.message(),
        "Character 'A' not found in character list"
    );
    assert_eq!(
        PipelineError::MissingVoiceReference { line: 2, speaker: "Mute".to_string() }.message(),
        "Character 'Mute' has no voice reference audio."
    );
    assert_eq!(
        PipelineError::SynthesisFailed { line: 9, detail: "timeout".to_string() }.message(),
        "Failed to synthesize line 10: timeout"
    );
}

#[test]
fn export_waits_for_every_line() {
    let roster = vec![voiced("A")];
    let lines = parse_script("[A]: one\n[A]: two", &roster);
    assert_eq!(export_inputs(&lines), None);
    assert_eq!(export_inputs(&[]), Some(vec![]));
    let mut run = SynthesisRun::start(&lines, &roster, "out").unwrap();
    run.handle(RunEvent::OutputDirReady(Ok(())));
    run.handle(RunEvent::LineSynthesized(Ok(())));
    assert_eq!(export_inputs(run.lines()), None);
}

#[test]
fn rerun_clears_old_output_of_failed_line() {
    let roster = vec![voiced("A")];
    let mut lines = parse_script("[A]: one", &roster);
    lines[0].status = SynthesisStatus::Done;
    lines[0].output_path = Some("old/line_000.wav".to_string());
    let mut run = SynthesisRun::start(&lines, &roster, "new").unwrap();
    run.handle(RunEvent::OutputDirReady(Ok(())));
    assert_eq!(run.lines()[0].status, SynthesisStatus::Working);
    assert!(run.lines()[0].output_path.is_none());
    run.handle(RunEvent::LineSynthesized(Err("boom".to_string())));
    assert_eq!(run.lines()[0].status, SynthesisStatus::Error("boom".to_string()));
    assert!(run.lines()[0].output_path.is_none());
}

#[test]
fn output_paths_join_the_directory() {
    let roster = vec![voiced("A")];
    let lines = parse_script("[A]: one", &roster);
    for (dir, expected) in [("out/", "out/line_000.wav"), ("", "line_000.wav"), ("a/b", "a/b/line_000.wav")] {
        let mut run = SynthesisRun::start(&lines, &roster, dir).unwrap();
        run.handle(RunEvent::OutputDirReady(Ok(())));
        let (_, _, _, path) = expect_job(&run);
        assert_eq!(path, expected);
    }
}
