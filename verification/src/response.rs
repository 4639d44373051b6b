//! What the engine delivers: responses, and the results read out of them.

use vstd::prelude::*;
use vstd::slice::slice_to_vec;
use crate::error::{Error, ErrorKind, wrapped};

verus! {

/// The token identifiers of one output slot.
#[derive(Debug)]
pub struct VecTokens {
    pub v: Vec<u32>,
}

impl View for VecTokens {
    type V = Seq<u32>;

    open spec fn view(&self) -> Seq<u32> {
        self.v@
    }
}

impl Clone for VecTokens {
    fn clone(&self) -> (c: VecTokens)
        ensures
            c@ == self@,
    {
        VecTokens { v: slice_to_vec(self.v.as_slice()) }
    }
}

impl From<VecTokens> for Vec<u32> {
    fn from(value: VecTokens) -> (v: Vec<u32>) {
        value.v
    }
}

impl vstd::std_specs::convert::FromSpecImpl<VecTokens> for Vec<u32> {
    open spec fn obeys_from_spec() -> bool {
        true
    }

    open spec fn from_spec(value: VecTokens) -> Vec<u32> {
        value.v
    }
}

impl core::ops::Deref for VecTokens {
    type Target = Vec<u32>;

    fn deref(&self) -> (v: &Vec<u32>)
        ensures
            v@ == self@,
    {
        &self.v
    }
}

impl VecTokens {
    /// The tokens of this slot, in generation order.
    pub fn as_slice(&self) -> (s: &[u32])
        ensures
            s@ == self@,
    {
        self.v.as_slice()
    }

    /// Gives up the slot for its tokens.
    pub fn into_vec(self) -> (v: Vec<u32>)
        ensures
            v@ == self@,
    {
        self.v
    }
}

/// One delivery's payload: a finality flag and one token sequence per output slot.
#[derive(Debug)]
pub struct Result {
    pub is_final: bool,
    pub output_token_ids: Vec<VecTokens>,
}

/// A result as a mathematical value.
pub struct ResultView {
    pub is_final: bool,
    /// One sequence per output slot, in slot order.
    pub output_token_ids: Seq<Seq<u32>>,
}

impl View for Result {
    type V = ResultView;

    open spec fn view(&self) -> ResultView {
        ResultView {
            is_final: self.is_final,
            output_token_ids: Seq::new(
                self.output_token_ids@.len(),
                |i: int| self.output_token_ids@[i]@,
            ),
        }
    }
}

impl Clone for Result {
    fn clone(&self) -> (c: Result)
        ensures
            c@ == self@,
    {
        let mut slots: Vec<VecTokens> = Vec::new();
        let n: usize = self.output_token_ids.len();
        for i in 0..n
            invariant
                n == self.output_token_ids@.len(),
                slots@.len() == i,
                forall|j: int| 0 <= j < i ==> (#[trigger] slots@[j])@ == self.output_token_ids@[j]@,
        {
            slots.push(self.output_token_ids[i].clone());
        }
        let c = Result { is_final: self.is_final, output_token_ids: slots };
        assert(c@.output_token_ids =~= self@.output_token_ids);
        c
    }
}

impl Result {
    /// Whether this is the last result of its request.
    pub fn is_final(&self) -> (b: bool)
        ensures
            b == self@.is_final,
    {
        self.is_final
    }

    /// The output slots, in slot order.
    pub fn output_token_ids(&self) -> (slots: &[VecTokens])
        ensures
            slots@ == self.output_token_ids@,
            slots@.len() == self@.output_token_ids.len(),
            forall|i: int| 0 <= i < slots@.len() ==> (#[trigger] slots@[i])@ == self@.output_token_ids[i],
    {
        self.output_token_ids.as_slice()
    }
}

/// One delivery unit of the engine for one request: either a result, or the
/// engine's account of why none can be read out of it.
#[derive(Debug)]
pub struct Response {
    payload: core::result::Result<Result, String>,
}

impl View for Response {
    type V = core::result::Result<ResultView, Seq<char>>;

    closed spec fn view(&self) -> core::result::Result<ResultView, Seq<char>> {
        match self.payload {
            Ok(result) => Ok(result@),
            Err(reason) => Err(reason@),
        }
    }
}

/// Whether a response carries a result that is the last of its request.
pub open spec fn carries_final(response: core::result::Result<ResultView, Seq<char>>) -> bool {
    match response {
        Ok(result) => result.is_final,
        Err(_) => false,
    }
}

impl Clone for Response {
    fn clone(&self) -> (c: Response)
        ensures
            c@ == self@,
    {
        match &self.payload {
            Ok(result) => Response { payload: Ok(result.clone()) },
            Err(reason) => Response { payload: Err(reason.clone()) },
        }
    }
}

impl Response {
    /// A response that carries `result`.
    pub fn decoded(result: Result) -> (r: Response)
        ensures
            r@ == Ok::<ResultView, Seq<char>>(result@),
    {
        Response { payload: Ok(result) }
    }

    /// A response out of which the engine can read no result, for the reason it gave.
    pub fn malformed(reason: String) -> (r: Response)
        ensures
            r@ == Err::<ResultView, Seq<char>>(reason@),
    {
        Response { payload: Err(reason) }
    }

    /// Whether the result inside, if there is one, is the last of its request.
    pub fn is_final(&self) -> (b: bool)
        ensures
            b == carries_final(self@),
    {
        match &self.payload {
            Ok(result) => result.is_final,
            Err(_) => false,
        }
    }

    /// Reads the result out of this response. The response is left as it was,
    /// so reading twice gives equal results.
    pub fn get_result(&self) -> (r: core::result::Result<Result, Error>)
        ensures
            match self@ {
                Ok(result) => r is Ok && r->Ok_0@ == result,
                Err(reason) => r is Err && r->Err_0.kind == ErrorKind::ExtractionError
                    && r->Err_0.message@ == wrapped("Failed to get result from response"@, reason),
            },
    {
        match &self.payload {
            Ok(result) => Ok(result.clone()),
            Err(reason) => Err(
                Error::wrap(
                    ErrorKind::ExtractionError,
                    "Failed to get result from response",
                    reason.as_str(),
                ),
            ),
        }
    }
}

} // verus!
