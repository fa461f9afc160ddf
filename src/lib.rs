//! Speech dispatch: a bounded queue of utterances drained by one worker that
//! owns a blocking speech backend.

pub mod dispatch;
pub mod init;
pub mod utterance;
pub mod worker;

pub use dispatch::{dispatch_channel, EnqueueError, ProducerHandle, QUEUE_CAPACITY};
pub use init::{platform_supported, start_speech, SpeechService, UNSUPPORTED_OS};
pub use utterance::Utterance;
pub use worker::{SpeechWorker, WorkerAction, WorkerEvent, WorkerPhase, GREETING};
