//! One generation job, as it is built up before submission.

use vstd::prelude::*;
use vstd::slice::slice_to_vec;
use crate::error::{Error, ErrorKind, wrapped};
use crate::tensor::{Tensor, TensorView};

verus! {

/// One generation job. Every setter records an option that the engine has
/// accepted, and leaves the request as it was where the engine refused. Once
/// the engine has taken the request, its options are closed to change.
#[derive(Debug)]
pub struct Request {
    submitted: bool,
    input_token_ids: Vec<u32>,
    max_tokens: u32,
    streaming: bool,
    end_id: Option<u32>,
    pad_id: Option<u32>,
    encoder_input_features: Option<Tensor>,
}

/// A request as a mathematical value.
pub struct RequestView {
    /// Whether the engine has issued an identity for this request.
    pub submitted: bool,
    pub input_token_ids: Seq<u32>,
    pub max_tokens: u32,
    pub streaming: bool,
    pub end_id: Option<u32>,
    pub pad_id: Option<u32>,
    pub encoder_input_features: Option<TensorView>,
}

impl View for Request {
    type V = RequestView;

    closed spec fn view(&self) -> RequestView {
        RequestView {
            submitted: self.submitted,
            input_token_ids: self.input_token_ids@,
            max_tokens: self.max_tokens,
            streaming: self.streaming,
            end_id: self.end_id,
            pad_id: self.pad_id,
            encoder_input_features: match self.encoder_input_features {
                Some(t) => Some(t@),
                None => None,
            },
        }
    }
}

/// The signed number that the engine reads for an unsigned token identifier:
/// the same bits, so identifiers past the signed range come out negative.
pub open spec fn engine_token_id_spec(id: u32) -> int {
    if id <= 0x7fff_ffff {
        id as int
    } else {
        id as int - 0x1_0000_0000
    }
}

/// The signed number that the engine is handed for a token identifier.
pub fn engine_token_id(id: u32) -> (signed: i32)
    ensures
        signed as int == engine_token_id_spec(id),
{
    if id <= 0x7fff_ffff {
        id as i32
    } else {
        let low: u32 = id - 0x8000_0000;
        let shifted: i64 = low as i64 - 0x8000_0000;
        shifted as i32
    }
}

/// What a setter returns and leaves behind. A request that was submitted
/// stays as it was, whatever the engine said. Otherwise: on the engine's
/// consent the request as changed, on its refusal the request as it was; each
/// failure is a configuration error under the setter's context.
pub open spec fn setter_outcome(
    before: RequestView,
    changed: RequestView,
    context: Seq<char>,
    verdict: Result<(), String>,
    after: RequestView,
    returned: Result<(), Error>,
) -> bool {
    if before.submitted {
        returned is Err && after == before && returned->Err_0.kind == ErrorKind::ConfigurationError
            && returned->Err_0.message@ == wrapped(context, "request was already submitted"@)
    } else {
        match verdict {
            Ok(_) => returned is Ok && after == changed,
            Err(reason) => returned is Err && after == before
                && returned->Err_0.kind == ErrorKind::ConfigurationError
                && returned->Err_0.message@ == wrapped(context, reason@),
        }
    }
}

/// The error that a setter reports, if any: on a submitted request, or on
/// the engine's refusal.
fn refusal(submitted: bool, context: &str, verdict: &Result<(), String>) -> (r: Result<(), Error>)
    ensures
        submitted ==> r is Err && r->Err_0.kind == ErrorKind::ConfigurationError
            && r->Err_0.message@ == wrapped(context@, "request was already submitted"@),
        !submitted ==> match *verdict {
            Ok(_) => r is Ok,
            Err(reason) => r is Err && r->Err_0.kind == ErrorKind::ConfigurationError
                && r->Err_0.message@ == wrapped(context@, reason@),
        },
{
    if submitted {
        Err(Error::wrap(ErrorKind::ConfigurationError, context, "request was already submitted"))
    } else {
        match verdict {
            Ok(_) => Ok(()),
            Err(reason) => Err(
                Error::wrap(ErrorKind::ConfigurationError, context, reason.as_str()),
            ),
        }
    }
}

impl Request {
    /// A request for at most `max_tokens` tokens after `input_token_ids`:
    /// not streaming, with the engine's own end and pad tokens, and nothing attached.
    pub fn new(input_token_ids: &[u32], max_tokens: u32) -> (r: Request)
        ensures
            r@ == (RequestView {
                submitted: false,
                input_token_ids: input_token_ids@,
                max_tokens,
                streaming: false,
                end_id: None,
                pad_id: None,
                encoder_input_features: None,
            }),
    {
        Request {
            submitted: false,
            input_token_ids: slice_to_vec(input_token_ids),
            max_tokens,
            streaming: false,
            end_id: None,
            pad_id: None,
            encoder_input_features: None,
        }
    }

    /// Records whether the engine may deliver results before the last one.
    pub fn set_streaming(&mut self, streaming: bool, verdict: Result<(), String>) -> (r: Result<
        (),
        Error,
    >)
        ensures
            setter_outcome(
                old(self)@,
                (RequestView { streaming, ..old(self)@ }),
                "Failed to set streaming"@,
                verdict,
                final(self)@,
                r,
            ),
    {
        let r = refusal(self.submitted, "Failed to set streaming", &verdict);
        if r.is_ok() {
            self.streaming = streaming;
        }
        r
    }

    /// Records the token on which generation ends.
    pub fn set_end_id(&mut self, end_id: u32, verdict: Result<(), String>) -> (r: Result<(), Error>)
        ensures
            setter_outcome(
                old(self)@,
                (RequestView { end_id: Some(end_id), ..old(self)@ }),
                "Failed to set end id"@,
                verdict,
                final(self)@,
                r,
            ),
    {
        let r = refusal(self.submitted, "Failed to set end id", &verdict);
        if r.is_ok() {
            self.end_id = Some(end_id);
        }
        r
    }

    /// Records the token that pads a sequence.
    pub fn set_pad_id(&mut self, pad_id: u32, verdict: Result<(), String>) -> (r: Result<(), Error>)
        ensures
            setter_outcome(
                old(self)@,
                (RequestView { pad_id: Some(pad_id), ..old(self)@ }),
                "Failed to set pad id"@,
                verdict,
                final(self)@,
                r,
            ),
    {
        let r = refusal(self.submitted, "Failed to set pad id", &verdict);
        if r.is_ok() {
            self.pad_id = Some(pad_id);
        }
        r
    }

    /// Attaches the encoder's input. The tensor belongs to the request from
    /// here on; where the engine refused it, it is dropped.
    pub fn set_encoder_input_features(&mut self, features: Tensor, verdict: Result<(), String>) -> (r:
        Result<(), Error>)
        ensures
            setter_outcome(
                old(self)@,
                (RequestView { encoder_input_features: Some(features@), ..old(self)@ }),
                "Failed to set encoder input features"@,
                verdict,
                final(self)@,
                r,
            ),
    {
        let r = refusal(self.submitted, "Failed to set encoder input features", &verdict);
        if r.is_ok() {
            self.encoder_input_features = Some(features);
        }
        r
    }

    /// Closes the request to further change: the engine has taken it.
    pub(crate) fn mark_submitted(&mut self)
        ensures
            final(self)@ == (RequestView { submitted: true, ..old(self)@ }),
    {
        self.submitted = true;
    }

    /// Whether the engine has issued an identity for this request.
    pub fn is_submitted(&self) -> (b: bool)
        ensures
            b == self@.submitted,
    {
        self.submitted
    }

    /// The prompt.
    pub fn input_token_ids(&self) -> (ids: &[u32])
        ensures
            ids@ == self@.input_token_ids,
    {
        self.input_token_ids.as_slice()
    }

    /// The most tokens that may be generated.
    pub fn max_tokens(&self) -> (n: u32)
        ensures
            n == self@.max_tokens,
    {
        self.max_tokens
    }

    /// Whether results may come before the last one.
    pub fn streaming(&self) -> (b: bool)
        ensures
            b == self@.streaming,
    {
        self.streaming
    }

    /// The token on which generation ends, where one was set.
    pub fn end_id(&self) -> (id: Option<u32>)
        ensures
            id == self@.end_id,
    {
        self.end_id
    }

    /// The token that pads a sequence, where one was set.
    pub fn pad_id(&self) -> (id: Option<u32>)
        ensures
            id == self@.pad_id,
    {
        self.pad_id
    }

    /// The encoder's input, where one was attached.
    pub fn encoder_input_features(&self) -> (t: Option<&Tensor>)
        ensures
            match t {
                Some(tensor) => self@.encoder_input_features == Some(tensor@),
                None => self@.encoder_input_features is None,
            },
    {
        self.encoder_input_features.as_ref()
    }
}

} // verus!
