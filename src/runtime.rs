use vstd::prelude::*;

use crate::error::EngineError;

verus! {

/// The most worker threads the multi-threaded I/O runtime gets.
pub const MAX_IO_WORKER_THREADS: usize = 8;

/// The kind of async runtime a thread is running inside.
#[derive(Debug, Clone, Copy, PartialEq, Eq, Structural)]
pub enum RuntimeFlavor {
    CurrentThread,
    MultiThread,
    /// A kind this layer does not know.
    Other,
}

/// What a panicking task left behind.
#[derive(Debug, Clone)]
pub enum PanicPayload {
    /// A panic message, given as text.
    Message(String),
    /// A payload of some other type.
    Unknown,
}

pub open spec fn min_spec(a: int, b: int) -> int {
    if a < b {
        a
    } else {
        b
    }
}

/// Worker threads of the multi-threaded runtime on a machine with
/// `num_cpus` hardware threads: at most eight.
pub fn threaded_runtime_num_worker_threads(num_cpus: usize) -> (r: usize)
    ensures
        r == min_spec(MAX_IO_WORKER_THREADS as int, num_cpus as int),
{
    if num_cpus < MAX_IO_WORKER_THREADS {
        num_cpus
    } else {
        MAX_IO_WORKER_THREADS
    }
}

/// Worker threads of the requested runtime tier: one for the single-threaded
/// tier, `min(8, num_cpus)` for the multi-threaded one.
pub fn runtime_num_worker_threads(multi_thread: bool, num_cpus: usize) -> (r: usize)
    ensures
        multi_thread ==> r == min_spec(MAX_IO_WORKER_THREADS as int, num_cpus as int),
        !multi_thread ==> r == 1,
{
    if multi_thread {
        threaded_runtime_num_worker_threads(num_cpus)
    } else {
        1
    }
}

/// The I/O parallelism available to code running inside `current` (`None`
/// when outside any runtime): one for a single-threaded runtime or one of
/// unknown kind, the multi-threaded tier's worker count for a multi-threaded
/// one.
pub fn get_io_pool_num_threads(current: Option<RuntimeFlavor>, num_cpus: usize) -> (r: Option<usize>)
    ensures
        current is None ==> r is None,
        current == Some(RuntimeFlavor::CurrentThread) ==> r == Some(1usize),
        current == Some(RuntimeFlavor::Other) ==> r == Some(1usize),
        current == Some(RuntimeFlavor::MultiThread) ==> r is Some && r->Some_0 == min_spec(
            MAX_IO_WORKER_THREADS as int,
            num_cpus as int,
        ),
{
    match current {
        None => None,
        Some(RuntimeFlavor::CurrentThread) => Some(1),
        Some(RuntimeFlavor::MultiThread) => Some(threaded_runtime_num_worker_threads(num_cpus)),
        Some(RuntimeFlavor::Other) => Some(1),
    }
}

/// The text that names a panic in the error it is turned into.
pub open spec fn panic_text(payload: PanicPayload) -> Seq<char> {
    match payload {
        PanicPayload::Message(s) => s@,
        PanicPayload::Unknown => "unknown internal error"@,
    }
}

pub open spec fn panic_message_spec(payload: PanicPayload) -> Seq<char> {
    "Caught panic when spawning blocking task in io pool "@ + panic_text(payload) + ")"@
}

/// The compute error that reports a panic caught in a spawned task.
pub fn panic_error(payload: PanicPayload) -> (r: EngineError)
    ensures
        r matches EngineError::ComputeError(msg) && msg@ == panic_message_spec(payload),
{
    let text = match payload {
        PanicPayload::Message(s) => s,
        PanicPayload::Unknown => String::from_str("unknown internal error"),
    };
    let msg = String::from_str("Caught panic when spawning blocking task in io pool ").concat(
        text.as_str(),
    ).concat(")");
    EngineError::ComputeError(msg)
}

/// What a blocked caller receives from a task run on the I/O pool: the task's
/// output, or the compute error that reports its panic.
pub fn settle_io_pool_task<T>(outcome: Result<T, PanicPayload>) -> (r: Result<T, EngineError>)
    ensures
        outcome is Ok ==> r == Ok::<T, EngineError>(outcome->Ok_0),
        outcome is Err ==> (r matches Err(EngineError::ComputeError(msg)) && msg@
            == panic_message_spec(outcome->Err_0)),
{
    match outcome {
        Ok(v) => Ok(v),
        Err(payload) => Err(panic_error(payload)),
    }
}

} // verus!
