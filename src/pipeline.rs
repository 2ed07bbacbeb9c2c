//! One pipeline invocation: decode, transcribe, normalize, deliver, strictly
//! in that order. The engine decides; its caller performs each network call
//! and the delivery it asks for and reports the result.

use vstd::prelude::*;
use vstd::string::StringExecFns;
use base64::Engine;
use crate::config::Config;
use crate::openai::{
    ClientError,
    ResponsesOutput,
    ResponsesRequest,
    extract_normalized,
    is_request_for,
    normalization_request,
    normalized_text,
};

verus! {

/// What `base64`'s standard engine decodes a text to, or `None` where it
/// rejects the text.
pub uninterp spec fn base64_decoded(s: Seq<char>) -> Option<Seq<u8>>;

/// Relies on `base64::engine::general_purpose::STANDARD.decode`: the bytes
/// that a text encodes, or the decoder's message where it is malformed; a
/// function of the text alone.
#[verifier::external_body]
fn decode_base64(s: &str) -> (r: Result<Vec<u8>, String>)
    ensures
        r is Ok <==> base64_decoded(s@) is Some,
        r is Ok ==> r->Ok_0@ == base64_decoded(s@)->Some_0,
{
    base64::engine::general_purpose::STANDARD.decode(s).map_err(|e| e.to_string())
}

/// The stage at which an invocation failed, and why.
#[derive(Debug)]
pub enum PipelineError {
    /// The audio was not in the transport encoding.
    Decode(String),
    /// The transcription call failed.
    Transcription(ClientError),
    /// The normalization call failed.
    Normalization(ClientError),
    /// The text could not be handed to the clipboard.
    Delivery(String),
}

impl PipelineError {
    pub open spec fn message_spec(&self) -> Seq<char> {
        match self {
            PipelineError::Decode(m) => "Failed to decode audio: "@ + m@,
            PipelineError::Transcription(e) => "Transcription failed: "@ + e.message_spec(),
            PipelineError::Normalization(e) => "Post-processing failed: "@ + e.message_spec(),
            PipelineError::Delivery(m) => "Failed to copy to clipboard: "@ + m@,
        }
    }

    /// A human-readable description naming the failed stage.
    pub fn message(&self) -> (r: String)
        ensures
            r@ == self.message_spec(),
    {
        match self {
            PipelineError::Decode(m) => String::from_str("Failed to decode audio: ").concat(
                m.as_str(),
            ),
            PipelineError::Transcription(e) => {
                let m = e.message();
                String::from_str("Transcription failed: ").concat(m.as_str())
            },
            PipelineError::Normalization(e) => {
                let m = e.message();
                String::from_str("Post-processing failed: ").concat(m.as_str())
            },
            PipelineError::Delivery(m) => String::from_str("Failed to copy to clipboard: ").concat(
                m.as_str(),
            ),
        }
    }
}

/// What the caller is to do next.
#[derive(Debug)]
pub enum PipelineAction {
    /// Upload the audio to the transcription service.
    Transcribe { audio: Vec<u8>, model: String, api_key: String },
    /// Send the request to the normalization service.
    Normalize { request: ResponsesRequest, api_key: String },
    /// Put the text on the clipboard.
    Deliver(String),
    /// The invocation is over, with its result.
    Finish(Result<String, PipelineError>),
}

/// The result of the work last asked for.
#[derive(Debug)]
pub enum PipelineEvent {
    Transcribed(Result<String, ClientError>),
    Normalized(Result<ResponsesOutput, ClientError>),
    Delivered(Result<(), String>),
}

/// Where an invocation stands.
#[derive(Debug)]
pub enum Stage {
    AwaitTranscript,
    AwaitNormalized { transcript: String },
    AwaitDelivery { text: String },
    Finished,
}

/// One invocation, with the settings it was started with.
#[derive(Debug)]
pub struct PipelineRun {
    pub settings: Config,
    pub stage: Stage,
}

impl PipelineRun {
    /// The event is the one the current stage waits for.
    pub open spec fn accepts_spec(&self, ev: &PipelineEvent) -> bool {
        match (self.stage, ev) {
            (Stage::AwaitTranscript, PipelineEvent::Transcribed(_)) => true,
            (Stage::AwaitNormalized { .. }, PipelineEvent::Normalized(_)) => true,
            (Stage::AwaitDelivery { .. }, PipelineEvent::Delivered(_)) => true,
            _ => false,
        }
    }

    /// Whether the event is the one the current stage waits for.
    pub fn accepts(&self, ev: &PipelineEvent) -> (r: bool)
        ensures
            r == self.accepts_spec(ev),
    {
        match (&self.stage, ev) {
            (Stage::AwaitTranscript, PipelineEvent::Transcribed(_)) => true,
            (Stage::AwaitNormalized { .. }, PipelineEvent::Normalized(_)) => true,
            (Stage::AwaitDelivery { .. }, PipelineEvent::Delivered(_)) => true,
            _ => false,
        }
    }

    /// Continues an invocation once its audio has been decoded, or has failed
    /// to decode: a decode failure ends it at once, before any remote call;
    /// decoded bytes go to transcription with the configured model.
    pub fn after_decode(decoded: Result<Vec<u8>, String>, settings: &Config) -> (r: (
        PipelineRun,
        PipelineAction,
    ))
        ensures
            r.0.settings == *settings,
            match decoded {
                Err(m) => r.0.stage is Finished && r.1 == PipelineAction::Finish(
                    Err(PipelineError::Decode(m)),
                ),
                Ok(audio) => r.0.stage is AwaitTranscript && r.1 == (PipelineAction::Transcribe {
                    audio,
                    model: settings.transcribe_model,
                    api_key: settings.openai_api_key,
                }),
            },
    {
        let snapshot = settings.snapshot();
        match decoded {
            Err(m) => (
                PipelineRun { settings: snapshot, stage: Stage::Finished },
                PipelineAction::Finish(Err(PipelineError::Decode(m))),
            ),
            Ok(audio) => {
                let model = settings.transcribe_model.clone();
                let api_key = settings.openai_api_key.clone();
                (
                    PipelineRun { settings: snapshot, stage: Stage::AwaitTranscript },
                    PipelineAction::Transcribe { audio, model, api_key },
                )
            },
        }
    }

    /// Starts an invocation on transport-encoded audio, with a copy of the
    /// settings taken now.
    pub fn start(encoded_audio: &str, settings: &Config) -> (r: (PipelineRun, PipelineAction))
        ensures
            r.0.settings == *settings,
            base64_decoded(encoded_audio@) is None ==> r.0.stage is Finished && r.1 is Finish
                && r.1->Finish_0 is Err && r.1->Finish_0->Err_0 is Decode,
            base64_decoded(encoded_audio@) is Some ==> r.0.stage is AwaitTranscript && r.1 is Transcribe
                && r.1->Transcribe_audio@ == base64_decoded(encoded_audio@)->Some_0
                && r.1->Transcribe_model == settings.transcribe_model
                && r.1->Transcribe_api_key == settings.openai_api_key,
    {
        let decoded = decode_base64(encoded_audio);
        PipelineRun::after_decode(decoded, settings)
    }

    /// Takes in the result of the work last asked for and says what comes
    /// next. A failure ends the invocation with the failed stage's error; a
    /// transcript goes to normalization with the configured model; the
    /// normalized text goes to delivery; a delivered text is the result.
    pub fn step(&mut self, ev: PipelineEvent) -> (r: PipelineAction)
        requires
            old(self).accepts_spec(&ev),
        ensures
            final(self).settings == old(self).settings,
            match ev {
                PipelineEvent::Transcribed(Err(e)) => final(self).stage is Finished && r
                    == PipelineAction::Finish(Err(PipelineError::Transcription(e))),
                PipelineEvent::Transcribed(Ok(t)) => final(self).stage == (Stage::AwaitNormalized {
                    transcript: t,
                }) && r is Normalize && r->Normalize_api_key == old(self).settings.openai_api_key
                    && is_request_for(r->Normalize_request, t@, old(self).settings.post_model),
                PipelineEvent::Normalized(Err(e)) => final(self).stage is Finished && r
                    == PipelineAction::Finish(Err(PipelineError::Normalization(e))),
                PipelineEvent::Normalized(Ok(out)) => {
                    let transcript = old(self).stage->AwaitNormalized_transcript;
                    &&& final(self).stage is AwaitDelivery
                    &&& final(self).stage->AwaitDelivery_text@ == normalized_text(out, transcript@)
                    &&& r is Deliver
                    &&& r->Deliver_0@ == normalized_text(out, transcript@)
                },
                PipelineEvent::Delivered(Err(m)) => final(self).stage is Finished && r
                    == PipelineAction::Finish(Err(PipelineError::Delivery(m))),
                PipelineEvent::Delivered(Ok(())) => final(self).stage is Finished && r
                    == PipelineAction::Finish(Ok(old(self).stage->AwaitDelivery_text)),
            },
    {
        match ev {
            PipelineEvent::Transcribed(Err(e)) => {
                self.stage = Stage::Finished;
                PipelineAction::Finish(Err(PipelineError::Transcription(e)))
            },
            PipelineEvent::Transcribed(Ok(t)) => {
                let request = normalization_request(t.as_str(), &self.settings.post_model);
                let api_key = self.settings.openai_api_key.clone();
                self.stage = Stage::AwaitNormalized { transcript: t };
                PipelineAction::Normalize { request, api_key }
            },
            PipelineEvent::Normalized(Err(e)) => {
                self.stage = Stage::Finished;
                PipelineAction::Finish(Err(PipelineError::Normalization(e)))
            },
            PipelineEvent::Normalized(Ok(out)) => {
                let text = match &self.stage {
                    Stage::AwaitNormalized { transcript } => extract_normalized(
                        &out,
                        transcript.as_str(),
                    ),
                    _ => unreached(),
                };
                let delivered = text.clone();
                self.stage = Stage::AwaitDelivery { text };
                PipelineAction::Deliver(delivered)
            },
            PipelineEvent::Delivered(Err(m)) => {
                self.stage = Stage::Finished;
                PipelineAction::Finish(Err(PipelineError::Delivery(m)))
            },
            PipelineEvent::Delivered(Ok(())) => {
                let text = match &self.stage {
                    Stage::AwaitDelivery { text } => text.clone(),
                    _ => unreached(),
                };
                self.stage = Stage::Finished;
                PipelineAction::Finish(Ok(text))
            },
        }
    }
}

/// A finished invocation takes in no further result, so after a decode
/// failure, or a failed transcription, no later stage is ever asked for.
pub proof fn lemma_finished_run_asks_nothing(run: PipelineRun, ev: PipelineEvent)
    requires
        run.stage is Finished,
    ensures
        !run.accepts_spec(&ev),
{
}

} // verus!
