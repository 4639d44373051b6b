//! The session: which request identities are live, and what each reply of
//! the engine means for them and for the caller.

use vstd::prelude::*;
use crate::error::{Error, ErrorKind, wrapped};
use crate::plugins::PluginsReady;
use crate::request::{Request, RequestView};
use crate::response::{Response, ResultView, carries_final};
use crate::tensor::ModelType;

verus! {

/// A response as a mathematical value.
pub type ResponseView = core::result::Result<ResultView, Seq<char>>;

/// The responses of a batch as mathematical values, in delivery order.
pub open spec fn batch_view(batch: Seq<Response>) -> Seq<ResponseView> {
    batch.map_values(|r: Response| r@)
}

/// Whether some response of the batch carries the last result of its request.
pub open spec fn batch_is_final(batch: Seq<ResponseView>) -> bool {
    exists|i: int| 0 <= i < batch.len() && carries_final(#[trigger] batch[i])
}

/// The live identities once the engine has issued `id`. An identity that
/// is live already stays live.
pub open spec fn after_submission(live: Set<u64>, id: u64) -> Set<u64> {
    live.insert(id)
}

/// The live identities once `batch` has been retrieved for `id`: a batch
/// with the last result in it retires the identity.
pub open spec fn after_retrieval(live: Set<u64>, id: u64, batch: Seq<ResponseView>) -> Set<u64> {
    if batch_is_final(batch) {
        live.remove(id)
    } else {
        live
    }
}

/// What a query or a retrieval reports of an identity that is not live.
pub open spec fn reports_unknown_id(e: Error) -> bool {
    e.kind == ErrorKind::RetrievalError && e.message@ == "Unknown request id"@
}

/// The batch of one retrieval, handed out front to back, each response once.
#[derive(Debug)]
pub struct ResponseIterator {
    responses: Vec<Response>,
    pos: usize,
}

impl View for ResponseIterator {
    type V = Seq<ResponseView>;

    /// The responses not handed out yet, in delivery order.
    closed spec fn view(&self) -> Seq<ResponseView> {
        if self.pos <= self.responses@.len() {
            batch_view(self.responses@).skip(self.pos as int)
        } else {
            Seq::empty()
        }
    }
}

impl ResponseIterator {
    fn new(responses: Vec<Response>) -> (it: ResponseIterator)
        ensures
            it@ == batch_view(responses@),
    {
        let it = ResponseIterator { responses, pos: 0 };
        assert(it@ =~= batch_view(responses@));
        it
    }

    /// How many responses are still to come.
    pub fn remaining(&self) -> (n: usize)
        ensures
            n == self@.len(),
    {
        if self.pos <= self.responses.len() {
            self.responses.len() - self.pos
        } else {
            0
        }
    }

    /// The next response of the batch, or `None` once all were handed out.
    pub fn next(&mut self) -> (r: Option<&Response>)
        ensures
            old(self)@.len() == 0 ==> r is None && final(self)@ == old(self)@,
            old(self)@.len() > 0 ==> r is Some && r->Some_0@ == old(self)@[0] && final(self)@
                == old(self)@.skip(1),
    {
        if self.pos < self.responses.len() {
            let at: usize = self.pos;
            self.pos = at + 1;
            assert(final(self)@ =~= old(self)@.skip(1));
            Some(&self.responses[at])
        } else {
            None
        }
    }
}

/// A session with one opened engine.
#[derive(Debug)]
pub struct Executor {
    model_path: String,
    model_type: ModelType,
    live: Vec<u64>,
}

/// A session as a mathematical value.
pub struct ExecutorView {
    pub model_path: Seq<char>,
    pub model_type: ModelType,
    /// The identities that were issued and whose last result was not retrieved yet.
    pub live: Set<u64>,
}

impl View for Executor {
    type V = ExecutorView;

    closed spec fn view(&self) -> ExecutorView {
        ExecutorView {
            model_path: self.model_path@,
            model_type: self.model_type,
            live: self.live@.to_set(),
        }
    }
}

impl Executor {
    /// Records the engine's answer to opening the model at `model_path`: a
    /// session without live identities, or an open failure. Only a process
    /// whose plugins are initialised has a `plugins` to show.
    pub fn open(
        #[allow(unused_variables)] plugins: &PluginsReady,
        model_path: &str,
        model_type: ModelType,
        outcome: Result<(), String>,
    ) -> (r: Result<Executor, Error>)
        ensures
            match outcome {
                Ok(_) => r is Ok && r->Ok_0@ == (ExecutorView {
                    model_path: model_path@,
                    model_type,
                    live: Set::empty(),
                }),
                Err(reason) => r is Err && r->Err_0.kind == ErrorKind::OpenFailure
                    && r->Err_0.message@ == wrapped("Failed to open executor"@, reason@),
            },
    {
        match outcome {
            Ok(_) => {
                let ex = Executor { model_path: model_path.to_owned(), model_type, live: Vec::new() };
                assert(ex@.live =~= Set::empty());
                Ok(ex)
            },
            Err(reason) => Err(
                Error::wrap(ErrorKind::OpenFailure, "Failed to open executor", reason.as_str()),
            ),
        }
    }

    /// The text of a model path that has one; a path without a text, shown
    /// as `shown`, cannot be opened.
    pub fn model_path_text<'a>(text: Option<&'a str>, shown: &str) -> (r: Result<&'a str, Error>)
        ensures
            match text {
                Some(t) => r is Ok && r->Ok_0@ == t@,
                None => r is Err && r->Err_0.kind == ErrorKind::OpenFailure && r->Err_0.message@
                    == wrapped("Invalid model path"@, shown@),
            },
    {
        match text {
            Some(t) => Ok(t),
            None => Err(Error::wrap(ErrorKind::OpenFailure, "Invalid model path", shown)),
        }
    }

    /// The path of the model that was opened.
    pub fn model_path(&self) -> (p: &str)
        ensures
            p@ == self@.model_path,
    {
        self.model_path.as_str()
    }

    /// The topology that the engine was opened with.
    pub fn model_type(&self) -> (t: ModelType)
        ensures
            t == self@.model_type,
    {
        self.model_type
    }

    /// Whether `request_id` was issued here and has not seen its last result.
    pub fn is_live(&self, request_id: u64) -> (b: bool)
        ensures
            b == self@.live.contains(request_id),
    {
        let n: usize = self.live.len();
        for i in 0..n
            invariant
                n == self.live@.len(),
                forall|j: int| 0 <= j < i ==> self.live@[j] != request_id,
        {
            if self.live[i] == request_id {
                return true;
            }
        }
        false
    }

    /// Says, before the engine is asked about `request_id`, whether it may be
    /// asked: an identity that is not live is refused here.
    pub fn check_request_id(&self, request_id: u64) -> (r: Result<(), Error>)
        ensures
            self@.live.contains(request_id) ==> r is Ok,
            !self@.live.contains(request_id) ==> r is Err && reports_unknown_id(r->Err_0),
    {
        if self.is_live(request_id) {
            Ok(())
        } else {
            Err(Error { kind: ErrorKind::RetrievalError, message: "Unknown request id".to_owned() })
        }
    }

    /// Records the engine's answer to the submission of `request`: the
    /// identity it issued becomes live and the request is closed to change; a
    /// rejection leaves the session and the request as they were. What the
    /// request asks for is not judged here: that is the engine's part.
    pub fn enqueue_request(&mut self, request: &mut Request, outcome: Result<u64, String>) -> (r:
        Result<u64, Error>)
        ensures
            final(self)@.model_path == old(self)@.model_path,
            final(self)@.model_type == old(self)@.model_type,
            match outcome {
                Ok(id) => r == Ok::<u64, Error>(id) && final(self)@.live == after_submission(
                    old(self)@.live,
                    id,
                ) && final(request)@ == (RequestView { submitted: true, ..old(request)@ }),
                Err(reason) => r is Err && final(self)@.live == old(self)@.live && final(request)@
                    == old(request)@ && r->Err_0.kind == ErrorKind::SubmissionError
                    && r->Err_0.message@ == wrapped("Failed to enqueue request"@, reason@),
            },
    {
        match outcome {
            Ok(id) => {
                request.mark_submitted();
                if !self.is_live(id) {
                    self.live.push(id);
                    assert(self.live@.last() == id);
                    assert(forall|j: int|
                        0 <= j < old(self).live@.len() ==> self.live@[j] == old(self).live@[j]);
                    assert(self.live@.to_set() =~= old(self).live@.to_set().insert(id));
                } else {
                    assert(old(self).live@.to_set().insert(id) =~= old(self).live@.to_set());
                }
                Ok(id)
            },
            Err(reason) => Err(
                Error::wrap(ErrorKind::SubmissionError, "Failed to enqueue request", reason.as_str()),
            ),
        }
    }

    /// Translates the engine's answer to a readiness query for `request_id`.
    /// An identity that is not live is an error, whatever the engine said.
    pub fn get_num_responses_ready(&self, request_id: u64, outcome: Result<u32, String>) -> (r:
        Result<usize, Error>)
        ensures
            !self@.live.contains(request_id) ==> r is Err && reports_unknown_id(r->Err_0),
            self@.live.contains(request_id) ==> match outcome {
                Ok(count) => r == Ok::<usize, Error>(count as usize),
                Err(reason) => r is Err && r->Err_0.kind == ErrorKind::RetrievalError
                    && r->Err_0.message@ == wrapped(
                    "Failed to get number of responses ready"@,
                    reason@,
                ),
            },
    {
        self.check_request_id(request_id)?;
        match outcome {
            Ok(count) => Ok(count as usize),
            Err(reason) => Err(
                Error::wrap(
                    ErrorKind::RetrievalError,
                    "Failed to get number of responses ready",
                    reason.as_str(),
                ),
            ),
        }
    }

    /// Records the engine's answer to a retrieval for `request_id` and hands
    /// the batch on as it came. A batch with a last result in it retires the
    /// identity. An identity that is not live is an error, whatever the engine said.
    pub fn await_responses(&mut self, request_id: u64, outcome: Result<Vec<Response>, String>) -> (r:
        Result<ResponseIterator, Error>)
        ensures
            final(self)@.model_path == old(self)@.model_path,
            final(self)@.model_type == old(self)@.model_type,
            !old(self)@.live.contains(request_id) ==> r is Err && reports_unknown_id(r->Err_0)
                && final(self)@.live == old(self)@.live,
            old(self)@.live.contains(request_id) ==> match outcome {
                Ok(batch) => r is Ok && r->Ok_0@ == batch_view(batch@) && final(self)@.live
                    == after_retrieval(old(self)@.live, request_id, batch_view(batch@)),
                Err(reason) => r is Err && final(self)@.live == old(self)@.live
                    && r->Err_0.kind == ErrorKind::RetrievalError
                    && r->Err_0.message@ == wrapped("Failed to await responses"@, reason@),
            },
    {
        self.check_request_id(request_id)?;
        match outcome {
            Ok(batch) => {
                if holds_final(&batch) {
                    self.retire(request_id);
                }
                Ok(ResponseIterator::new(batch))
            },
            Err(reason) => Err(
                Error::wrap(ErrorKind::RetrievalError, "Failed to await responses", reason.as_str()),
            ),
        }
    }

    /// Takes `request_id` out of the live identities.
    fn retire(&mut self, request_id: u64)
        ensures
            final(self)@.model_path == old(self)@.model_path,
            final(self)@.model_type == old(self)@.model_type,
            final(self)@.live == old(self)@.live.remove(request_id),
    {
        let mut kept: Vec<u64> = Vec::new();
        let n: usize = self.live.len();
        for i in 0..n
            invariant
                n == self.live@.len(),
                forall|k: int|
                    0 <= k < kept@.len() ==> #[trigger] kept@[k] != request_id && self.live@.contains(
                        kept@[k],
                    ),
                forall|j: int|
                    0 <= j < i && self.live@[j] != request_id ==> kept@.contains(
                        #[trigger] self.live@[j],
                    ),
        {
            let id: u64 = self.live[i];
            if id != request_id {
                let ghost before = kept@;
                kept.push(id);
                assert(kept@[before.len() as int] == id);
                assert forall|j: int| 0 <= j < i + 1 && self.live@[j] != request_id implies kept@.contains(
                    #[trigger] self.live@[j],
                ) by {
                    if j < i {
                        let k = choose|k: int| 0 <= k < before.len() && before[k] == self.live@[j];
                        assert(kept@[k] == self.live@[j]);
                    }
                }
            }
        }
        assert(kept@.to_set() =~= self.live@.to_set().remove(request_id));
        self.live = kept;
    }
}

/// Whether some response of the batch carries the last result of its request.
fn holds_final(batch: &Vec<Response>) -> (b: bool)
    ensures
        b == batch_is_final(batch_view(batch@)),
{
    let n: usize = batch.len();
    for i in 0..n
        invariant
            n == batch@.len(),
            forall|j: int| 0 <= j < i ==> !carries_final(#[trigger] batch_view(batch@)[j]),
    {
        if batch[i].is_final() {
            assert(carries_final(batch_view(batch@)[i as int]));
            return true;
        }
    }
    false
}

} // verus!
