use std::cell::RefCell;
use std::collections::HashMap;
use std::io::{Cursor, Seek, SeekFrom, Write};
use std::rc::Rc;

use dialogue_synth::wav_concat::{
    ConcatAction, ConcatError, ConcatEvent, CopyFailure, SampleCodec, SampleFormat,
    WavConcatenation, WavFormat,
};

fn int16(rate: u32) -> WavFormat {
    WavFormat { channels: 1, sample_rate: rate, bits_per_sample: 16, sample_format: SampleFormat::Int }
}

fn to_hound(f: WavFormat) -> hound::WavSpec {
    hound::WavSpec {
        channels: f.channels,
        sample_rate: f.sample_rate,
        bits_per_sample: f.bits_per_sample,
        sample_format: match f.sample_format {
            SampleFormat::Float => hound::SampleFormat::Float,
            SampleFormat::Int => hound::SampleFormat::Int,
        },
    }
}

fn from_hound(s: hound::WavSpec) -> WavFormat {
    WavFormat {
        channels: s.channels,
        sample_rate: s.sample_rate,
        bits_per_sample: s.bits_per_sample,
        sample_format: match s.sample_format {
            hound::SampleFormat::Float => SampleFormat::Float,
            hound::SampleFormat::Int => SampleFormat::Int,
        },
    }
}

fn wav_bytes(rate: u32, samples: &[i16]) -> Vec<u8> {
    let mut out = Cursor::new(Vec::new());
    {
        let mut w = hound::WavWriter::new(&mut out, to_hound(int16(rate))).unwrap();
        for s in samples {
            w.write_sample(*s).unwrap();
        }
        w.finalize().unwrap();
    }
    out.into_inner()
}

/// An in-memory output that stays readable after the writer is dropped.
#[derive(Clone)]
struct Sink(Rc<RefCell<Cursor<Vec<u8>>>>);

impl Write for Sink {
    fn write(&mut self, buf: &[u8]) -> std::io::Result<usize> {
        self.0.borrow_mut().write(buf)
    }
    fn flush(&mut self) -> std::io::Result<()> {
        Ok(())
    }
}

impl Seek for Sink {
    fn seek(&mut self, pos: SeekFrom) -> std::io::Result<u64> {
        self.0.borrow_mut().seek(pos)
    }
}

/// Runs a concatenation over in-memory files; returns the actions asked for
/// and the output bytes, if the output was finalized.
fn drive(files: &HashMap<String, Vec<u8>>, inputs: Vec<String>) -> (Vec<String>, Result<Vec<u8>, ConcatError>) {
    let mut job = WavConcatenation::new(inputs, "out.wav".to_string());
    let mut log = Vec::new();
    let out = Sink(Rc::new(RefCell::new(Cursor::new(Vec::new()))));
    let mut writer: Option<hound::WavWriter<Sink>> = None;
    loop {
        let action = job.next_action();
        log.push(format!("{:?}", action));
        match action {
            ConcatAction::ReadFormat(path) => {
                let r = hound::WavReader::new(&files[&path][..]).map(|r| from_hound(r.spec()));
                job.handle(ConcatEvent::FormatRead(r.map_err(|e| e.to_string())));
            }
            ConcatAction::CreateOutput { path, format } => {
                assert_eq!(path, "out.wav");
                writer = Some(hound::WavWriter::new(out.clone(), to_hound(format)).unwrap());
                job.handle(ConcatEvent::OutputCreated(Ok(())));
            }
            ConcatAction::CopySamples { path, codec } => {
                assert_eq!(codec, SampleCodec::Int16);
                let w = writer.as_mut().unwrap();
                let mut r = hound::WavReader::new(&files[&path][..]).unwrap();
                for s in r.samples::<i16>() {
                    w.write_sample(s.unwrap()).unwrap();
                }
                job.handle(ConcatEvent::SamplesCopied(Ok(())));
            }
            ConcatAction::Finalize => {
                writer.take().unwrap().finalize().unwrap();
                job.handle(ConcatEvent::Finalized(Ok(())));
            }
            ConcatAction::Finished(res) => {
                drop(writer);
                let bytes = out.0.borrow().get_ref().clone();
                return (log, res.map(|()| bytes));
            }
        }
    }
}

fn samples_of(bytes: &[u8]) -> (hound::WavSpec, Vec<i16>) {
    let mut r = hound::WavReader::new(bytes).unwrap();
    let spec = r.spec();
    (spec, r.samples::<i16>().map(|s| s.unwrap()).collect())
}

#[test]
fn test_combine_empty_list() {
    let job = WavConcatenation::new(vec![], "test_output.wav".to_string());
    let result = match job.next_action() {
        ConcatAction::Finished(res) => res,
        other => panic!("unexpected {:?}", other),
    };
    assert!(result.is_err());
    assert_eq!(result.unwrap_err().message(), "No input files provided");
}

#[test]
fn empty_input_asks_for_no_write() {
    let (log, res) = drive(&HashMap::new(), vec![]);
    assert_eq!(log.len(), 1);
    assert_eq!(res.unwrap_err(), ConcatError::NoInputs);
}

#[test]
fn different_sample_rates_are_refused_before_writing() {
    let mut files = HashMap::new();
    files.insert("a.wav".to_string(), wav_bytes(22050, &[1, 2, 3]));
    files.insert("b.wav".to_string(), wav_bytes(44100, &[4, 5]));
    let (log, res) = drive(&files, vec!["a.wav".to_string(), "b.wav".to_string()]);
    let err = res.unwrap_err();
    assert_eq!(err, ConcatError::FormatMismatch("b.wav".to_string()));
    assert_eq!(err.message(), "File b.wav has different audio format than the first file");
    assert!(log.iter().all(|a| !a.starts_with("CreateOutput") && !a.starts_with("CopySamples") && !a.starts_with("Finalize")));
}

#[test]
fn single_input_round_trips() {
    let mut files = HashMap::new();
    let input = wav_bytes(16000, &[0, -1, 32767, -32768, 5]);
    files.insert("only.wav".to_string(), input.clone());
    let (_, res) = drive(&files, vec!["only.wav".to_string()]);
    let output = res.unwrap();
    assert_eq!(samples_of(&output), samples_of(&input));
}

#[test]
fn inputs_are_spliced_in_order() {
    let mut files = HashMap::new();
    files.insert("a".to_string(), wav_bytes(8000, &[1, 2]));
    files.insert("b".to_string(), wav_bytes(8000, &[3]));
    files.insert("c".to_string(), wav_bytes(8000, &[4, 5, 6]));
    let (log, res) = drive(&files, vec!["c".to_string(), "a".to_string(), "b".to_string()]);
    let (spec, samples) = samples_of(&res.unwrap());
    assert_eq!(spec.sample_rate, 8000);
    assert_eq!(samples, vec![4, 5, 6, 1, 2, 3]);
    assert_eq!(log.len(), 3 + 1 + 3 + 1 + 1);
}

#[test]
fn unsupported_bit_depth_is_refused_before_writing() {
    let eight = WavFormat { channels: 1, sample_rate: 8000, bits_per_sample: 8, sample_format: SampleFormat::Int };
    let mut job = WavConcatenation::new(vec!["x".to_string()], "o.wav".to_string());
    job.handle(ConcatEvent::FormatRead(Ok(eight)));
    match job.next_action() {
        ConcatAction::Finished(Err(e)) => {
            assert_eq!(e, ConcatError::UnsupportedBitDepth(8));
            assert_eq!(e.message(), "Unsupported bits per sample: 8");
        }
        other => panic!("unexpected {:?}", other),
    }
    let wide_float = WavFormat { channels: 2, sample_rate: 8000, bits_per_sample: 24, sample_format: SampleFormat::Float };
    let mut job = WavConcatenation::new(vec!["x".to_string()], "o.wav".to_string());
    job.handle(ConcatEvent::FormatRead(Ok(wide_float)));
    assert!(matches!(job.next_action(), ConcatAction::Finished(Err(ConcatError::UnsupportedBitDepth(24)))));
}

#[test]
fn codec_follows_the_shared_format() {
    let float = WavFormat { channels: 2, sample_rate: 48000, bits_per_sample: 32, sample_format: SampleFormat::Float };
    let mut job = WavConcatenation::new(vec!["x".to_string(), "y".to_string()], "o.wav".to_string());
    job.handle(ConcatEvent::FormatRead(Ok(float)));
    job.handle(ConcatEvent::FormatRead(Ok(float)));
    assert!(matches!(job.next_action(), ConcatAction::CreateOutput { path, format } if format == float && path == "o.wav"));
    job.handle(ConcatEvent::OutputCreated(Ok(())));
    match job.next_action() {
        ConcatAction::CopySamples { path, codec } => {
            assert_eq!(path, "x");
            assert_eq!(codec, SampleCodec::Float32);
        }
        other => panic!("unexpected {:?}", other),
    }
    let int32 = WavFormat { bits_per_sample: 32, sample_format: SampleFormat::Int, ..float };
    let mut job = WavConcatenation::new(vec!["x".to_string()], "o.wav".to_string());
    job.handle(ConcatEvent::FormatRead(Ok(int32)));
    job.handle(ConcatEvent::OutputCreated(Ok(())));
    assert!(matches!(job.next_action(), ConcatAction::CopySamples { codec: SampleCodec::Int32, .. }));
}

#[test]
fn read_and_write_failures_end_the_concatenation() {
    let mut job = WavConcatenation::new(vec!["x".to_string()], "o.wav".to_string());
    job.handle(ConcatEvent::FormatRead(Err("cannot open: missing".to_string())));
    match job.next_action() {
        ConcatAction::Finished(Err(e)) => {
            assert_eq!(e, ConcatError::Io { path: "x".to_string(), detail: "cannot open: missing".to_string() });
            assert_eq!(e.message(), "x: cannot open: missing");
        }
        other => panic!("unexpected {:?}", other),
    }
    let mut job = WavConcatenation::new(vec!["x".to_string()], "o.wav".to_string());
    job.handle(ConcatEvent::FormatRead(Ok(int16(8000))));
    job.handle(ConcatEvent::OutputCreated(Err("read-only".to_string())));
    assert!(matches!(job.next_action(), ConcatAction::Finished(Err(ConcatError::Io { path, .. })) if path == "o.wav"));
    let mut job = WavConcatenation::new(vec!["x".to_string()], "o.wav".to_string());
    job.handle(ConcatEvent::FormatRead(Ok(int16(8000))));
    job.handle(ConcatEvent::OutputCreated(Ok(())));
    job.handle(ConcatEvent::SamplesCopied(Err(CopyFailure::Read("truncated".to_string()))));
    assert!(matches!(job.next_action(), ConcatAction::Finished(Err(ConcatError::Io { path, .. })) if path == "x"));
    let mut job = WavConcatenation::new(vec!["x".to_string()], "o.wav".to_string());
    job.handle(ConcatEvent::FormatRead(Ok(int16(8000))));
    job.handle(ConcatEvent::OutputCreated(Ok(())));
    job.handle(ConcatEvent::SamplesCopied(Err(CopyFailure::Write("disk full".to_string()))));
    assert!(matches!(job.next_action(), ConcatAction::Finished(Err(ConcatError::Io { path, detail })) if path == "o.wav" && detail == "disk full"));
    job.handle(ConcatEvent::Finalized(Ok(())));
    assert!(matches!(job.next_action(), ConcatAction::Finished(Err(_))));
}
