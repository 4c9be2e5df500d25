use vstd::prelude::*;

verus! {

/// Why one file was not fetched.
#[derive(Clone, Debug)]
pub enum FetchFailure {
    /// The request failed at the network level, or the body could not be read.
    Transport(String),
    /// The server answered with a status outside the success range.
    Http(u16),
    /// The destination could not be created or written.
    Storage(String),
}

/// What one fetch concluded.
#[derive(Clone, Debug)]
pub enum FetchOutcome {
    /// The destination already existed; no request was made.
    Skipped,
    /// The body was written to the destination and flushed.
    Succeeded,
    Failed(FetchFailure),
}

/// What the server's side of one request came to.
#[derive(Clone, Debug)]
pub enum Response {
    /// No response: connection, DNS or timeout failure, with its reason.
    TransportError(String),
    /// A response with this status code.
    Status(u16),
}

/// What storing a successful response's body came to.
#[derive(Clone, Debug)]
pub enum StoreResult {
    /// Directories created, file written and flushed.
    Written,
    /// The body could not be read, with the reason.
    BodyError(String),
    /// A directory or the file could not be created or written, with the reason.
    WriteError(String),
}

/// The next thing a fetch does.
#[derive(Clone, Debug)]
pub enum WorkerStep {
    /// Issue the GET request for the plan's URL.
    Request,
    /// Create the destination's parent directories, write the body and flush.
    Store,
    /// Stop with this outcome.
    Finish(FetchOutcome),
}

/// A status in the success range 200 to 299.
pub open spec fn success_status(code: u16) -> bool {
    200 <= code <= 299
}

/// The first step of a fetch: nothing more to do where the destination
/// exists, else a request.
pub open spec fn first_step(exists: bool) -> WorkerStep {
    if exists {
        WorkerStep::Finish(FetchOutcome::Skipped)
    } else {
        WorkerStep::Request
    }
}

/// Whether a status code is a success (200 to 299).
pub fn is_success_status(code: u16) -> (r: bool)
    ensures
        r == success_status(code),
{
    200 <= code && code <= 299
}

/// Starts a fetch: a destination that exists is never fetched again nor
/// overwritten.
pub fn start(exists: bool) -> (r: WorkerStep)
    ensures
        r == first_step(exists),
{
    if exists {
        WorkerStep::Finish(FetchOutcome::Skipped)
    } else {
        WorkerStep::Request
    }
}

/// Classifies the answer to the request: a success status leads to storing
/// the body; a transport error or another status ends the fetch as failed,
/// with nothing written.
pub fn on_response(response: Response) -> (r: WorkerStep)
    ensures
        response matches Response::TransportError(e) ==> (r matches WorkerStep::Finish(
            FetchOutcome::Failed(FetchFailure::Transport(f)),
        ) && f@ == e@),
        response matches Response::Status(c) ==> (success_status(c) ==> r is Store),
        response matches Response::Status(c) ==> (!success_status(c) ==> r == WorkerStep::Finish(
            FetchOutcome::Failed(FetchFailure::Http(c)),
        )),
{
    match response {
        Response::TransportError(e) => WorkerStep::Finish(
            FetchOutcome::Failed(FetchFailure::Transport(e)),
        ),
        Response::Status(c) => {
            if is_success_status(c) {
                WorkerStep::Store
            } else {
                WorkerStep::Finish(FetchOutcome::Failed(FetchFailure::Http(c)))
            }
        },
    }
}

/// Ends a fetch once storing was attempted: it succeeded only when the body
/// was written and flushed.
pub fn on_stored(result: StoreResult) -> (r: FetchOutcome)
    ensures
        result is Written <==> r is Succeeded,
        result matches StoreResult::BodyError(e) ==> (r matches FetchOutcome::Failed(
            FetchFailure::Transport(f),
        ) && f@ == e@),
        result matches StoreResult::WriteError(e) ==> (r matches FetchOutcome::Failed(
            FetchFailure::Storage(f),
        ) && f@ == e@),
{
    match result {
        StoreResult::Written => FetchOutcome::Succeeded,
        StoreResult::BodyError(e) => FetchOutcome::Failed(FetchFailure::Transport(e)),
        StoreResult::WriteError(e) => FetchOutcome::Failed(FetchFailure::Storage(e)),
    }
}

/// A file that is on disk when a run starts (as every file that a run
/// before it fetched successfully is) is skipped without any request.
pub proof fn lemma_present_file_not_requested(exists: bool)
    requires
        exists,
    ensures
        first_step(exists) == WorkerStep::Finish(FetchOutcome::Skipped),
        first_step(exists) != WorkerStep::Request,
{
}

} // verus!
