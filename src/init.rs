use crate::dispatch::{dispatch_channel, ProducerHandle, QUEUE_CAPACITY};
use crate::utterance::Utterance;
use crate::worker::{SpeechWorker, WorkerPhase};
use tokio::sync::mpsc::Receiver;
use vstd::prelude::*;

verus! {

/// The operating system on which no speech backend is supported yet.
pub const UNSUPPORTED_OS: &'static str = "macos";

/// Whether speech may be tried at all on the operating system named `os`.
pub fn platform_supported(os: &str) -> (r: bool)
    ensures
        r == (os@ != UNSUPPORTED_OS@),
{
    let os = os.to_owned();
    let unsupported = UNSUPPORTED_OS.to_owned();
    !(os == unsupported)
}

/// What the speech worker's execution context owns: the backend, the
/// worker's decisions, and the one receiving end of the queue.
pub struct SpeechService<B> {
    pub backend: B,
    pub worker: SpeechWorker,
    pub receiver: Receiver<Utterance>,
}

/// Second half of startup, once the backend has been tried: with a backend,
/// makes the queue and a fresh worker and hands out the producers' handle;
/// without one, speech stays unavailable and nothing is made.
pub fn start_speech<B>(backend: Option<B>) -> (r: Option<(ProducerHandle, SpeechService<B>)>)
    ensures
        r is Some <==> backend is Some,
        r matches Some((producer, service)) ==> {
            &&& producer.bound() == QUEUE_CAPACITY
            &&& Some(service.backend) == backend
            &&& service.worker.wf()
            &&& service.worker.phase_spec() == WorkerPhase::Starting
            &&& service.worker.received().len() == 0
        },
{
    match backend {
        None => None,
        Some(backend) => {
            let (producer, receiver) = dispatch_channel();
            let worker = SpeechWorker::new();
            Some((producer, SpeechService { backend, worker, receiver }))
        },
    }
}

} // verus!
