use voxtype::config::Config;
use voxtype::openai::{ClientError, ResponsesOutput};
use voxtype::pipeline::{PipelineAction, PipelineError, PipelineEvent, PipelineRun};

#[derive(Default)]
struct Calls {
    transcribe: usize,
    normalize: usize,
    delivered: Vec<String>,
    audio: Vec<u8>,
    models: Vec<String>,
}

/// Drives one invocation against stubbed services.
fn drive(
    encoded: &str,
    transcript: Result<&str, &str>,
    normalized: Result<ResponsesOutput, &str>,
    delivery: Result<(), &str>,
) -> (Result<String, PipelineError>, Calls) {
    let settings = Config::with_defaults(Some("sk-1".to_string()));
    let mut calls = Calls::default();
    let (mut run, mut action) = PipelineRun::start(encoded, &settings);
    let mut normalized = Some(normalized);
    loop {
        let ev = match action {
            PipelineAction::Transcribe { audio, model, api_key } => {
                calls.transcribe += 1;
                calls.audio = audio;
                calls.models.push(model);
                assert_eq!(api_key, "sk-1");
                PipelineEvent::Transcribed(
                    transcript
                        .map(|t| t.to_string())
                        .map_err(|m| ClientError::Transport(m.to_string())),
                )
            }
            PipelineAction::Normalize { request, api_key } => {
                calls.normalize += 1;
                calls.models.push(request.model.clone());
                assert_eq!(api_key, "sk-1");
                PipelineEvent::Normalized(
                    normalized
                        .take()
                        .unwrap()
                        .map_err(|m| ClientError::Status(m.to_string())),
                )
            }
            PipelineAction::Deliver(text) => {
                calls.delivered.push(text);
                PipelineEvent::Delivered(delivery.map_err(|m| m.to_string()))
            }
            PipelineAction::Finish(r) => return (r, calls),
        };
        assert!(run.accepts(&ev));
        action = run.step(ev);
    }
}

fn flat(text: &str) -> ResponsesOutput {
    ResponsesOutput { output_text: Some(text.to_string()), choices: None }
}

#[test]
fn stubbed_services_give_normalized_text() {
    let (r, calls) = drive("aGVsbG8=", Ok("hello world"), Ok(flat("Hello world.")), Ok(()));
    assert_eq!(r.unwrap(), "Hello world.");
    assert_eq!(calls.delivered, vec!["Hello world.".to_string()]);
    assert_eq!(calls.audio, b"hello".to_vec());
    assert_eq!(calls.models, vec!["gpt-4o-mini-transcribe".to_string(), "gpt-4.1-mini".to_string()]);
}

#[test]
fn undecodable_audio_makes_no_call() {
    let (r, calls) = drive("not base64!!", Ok("x"), Ok(flat("x")), Ok(()));
    match r {
        Err(e @ PipelineError::Decode(_)) => {
            assert!(e.message().starts_with("Failed to decode audio: "))
        }
        other => panic!("unexpected {:?}", other),
    }
    assert_eq!(calls.transcribe, 0);
    assert_eq!(calls.normalize, 0);
    assert!(calls.delivered.is_empty());
}

#[test]
fn transcription_failure_skips_normalization() {
    let (r, calls) = drive("aGVsbG8=", Err("connection reset"), Ok(flat("x")), Ok(()));
    match r {
        Err(e @ PipelineError::Transcription(_)) => {
            assert_eq!(e.message(), "Transcription failed: request failed: connection reset")
        }
        other => panic!("unexpected {:?}", other),
    }
    assert_eq!(calls.transcribe, 1);
    assert_eq!(calls.normalize, 0);
    assert!(calls.delivered.is_empty());
}

#[test]
fn normalization_error_is_not_replaced_by_transcript() {
    let (r, calls) = drive("aGVsbG8=", Ok("hello world"), Err("overloaded"), Ok(()));
    match r {
        Err(e @ PipelineError::Normalization(_)) => {
            assert_eq!(e.message(), "Post-processing failed: OpenAI API error: overloaded")
        }
        other => panic!("unexpected {:?}", other),
    }
    assert!(calls.delivered.is_empty());
}

#[test]
fn unreadable_reply_delivers_trimmed_transcript() {
    let reply = ResponsesOutput { output_text: None, choices: None };
    let (r, calls) = drive("aGVsbG8=", Ok(" hello world "), Ok(reply), Ok(()));
    assert_eq!(r.unwrap(), "hello world");
    assert_eq!(calls.delivered, vec!["hello world".to_string()]);
}

#[test]
fn delivery_failure_is_its_own_error() {
    let (r, _) = drive("aGVsbG8=", Ok("hi"), Ok(flat("Hi.")), Err("no clipboard"));
    match r {
        Err(e @ PipelineError::Delivery(_)) => {
            assert_eq!(e.message(), "Failed to copy to clipboard: no clipboard")
        }
        other => panic!("unexpected {:?}", other),
    }
}

#[test]
fn empty_audio_decodes_to_no_bytes() {
    let (r, calls) = drive("", Ok("hi"), Ok(flat("Hi.")), Ok(()));
    assert_eq!(r.unwrap(), "Hi.");
    assert!(calls.audio.is_empty());
}

#[test]
fn settings_are_copied_at_start() {
    let mut settings = Config::with_defaults(None);
    let (run, _) = PipelineRun::start("aGVsbG8=", &settings);
    settings.post_model = "changed".to_string();
    assert_eq!(run.settings.post_model, "gpt-4.1-mini");
}
