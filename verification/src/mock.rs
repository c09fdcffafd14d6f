//! A backend pre-loaded with the exchanges it expects, to replay recorded
//! card traffic.
use vstd::prelude::*;

verus! {

/// The [MockBackend] comes pre-loaded with the expected requests and the
/// card's reply to each, in order, and counts the exchanges made so far.
#[derive(Debug)]
pub struct MockBackend<'a> {
    responses: &'a [(&'a [u8], &'a [u8])],
    step: u32,
}

impl<'a> MockBackend<'a> {
    /// The recorded (request, reply) pairs.
    pub closed spec fn spec_responses(self) -> Seq<(&'a [u8], &'a [u8])> {
        self.responses@
    }

    /// The number of the next exchange: how many were made so far (counted
    /// modulo 2^32, as a 32-bit counter wraps).
    pub closed spec fn spec_step(self) -> nat {
        self.step as nat
    }

    /// Create a new [MockBackend] pre-loaded with the provided exchanges,
    /// starting at the first one.
    pub fn new(responses: &'a [(&'a [u8], &'a [u8])]) -> (r: Self)
        ensures
            r.spec_responses() == responses@,
            r.spec_step() == 0,
    {
        MockBackend { responses, step: 0 }
    }

    /// Take the number of the next exchange, moving on to the one after.
    fn next_step(&mut self) -> (r: u32)
        ensures
            r == old(self).spec_step(),
            final(self).spec_step() == (old(self).spec_step() + 1) % 0x1_0000_0000,
            final(self).spec_responses() == old(self).spec_responses(),
    {
        let r = self.step;
        self.step = self.step.wrapping_add(1);
        r
    }

    /// Replay the next recorded exchange, number [MockBackend::spec_step]:
    /// the request must be the recorded one, and the recorded reply is
    /// copied to the front of `output` (the rest is kept); its length is
    /// returned. `None` where the recording is used up, the request differs,
    /// or the reply does not fit in `output`, and `output` is kept. Either
    /// way the count moves on to the next exchange.
    pub fn replay(&mut self, output: &mut [u8], input: &[u8]) -> (r: Option<usize>)
        ensures
            final(self).spec_responses() == old(self).spec_responses(),
            final(self).spec_step() == (old(self).spec_step() + 1) % 0x1_0000_0000,
            replay_outcome(old(self).spec_responses(), old(self).spec_step() as int, input@, old(output)@, final(output)@, r),
    {
        let step = self.next_step();
        self.replay_at(step, output, input)
    }

    /// Replay recorded exchange number `step` ([replay_outcome]).
    pub fn replay_at(&self, step: u32, output: &mut [u8], input: &[u8]) -> (r: Option<usize>)
        ensures
            replay_outcome(self.spec_responses(), step as int, input@, old(output)@, final(output)@, r),
    {
        let n = step as usize;
        if n >= self.responses.len() {
            return None;
        }
        let (expected, response) = self.responses[n];
        assert(self.spec_responses()[n as int] == (expected, response));
        if !crate::keying::bytes_eq(expected, input) {
            return None;
        }
        if response.len() > output.len() {
            return None;
        }
        let mut i: usize = 0;
        while i < response.len()
            invariant
                0 <= i <= response@.len(),
                response@.len() <= output@.len(),
                output@.len() == old(output)@.len(),
                forall|j: int| 0 <= j < i ==> output@[j] == response@[j],
                forall|j: int| i <= j < output@.len() ==> output@[j] == old(output)@[j],
            decreases response@.len() - i,
        {
            output[i] = response[i];
            i = i + 1;
        }
        assert(output@ =~= response@ + old(output)@.skip(response@.len() as int));
        Some(response.len())
    }
}

/// The outcome of replaying recorded exchange number `step` for the request
/// `input`, with `before` and `after` the output buffer before and after:
/// where that exchange exists, was recorded for this very request, and its
/// reply fits, the reply is copied to the front of the buffer (the rest is
/// kept) and its length returned; otherwise `None`, and the buffer is kept.
pub open spec fn replay_outcome(responses: Seq<(&[u8], &[u8])>, step: int, input: Seq<u8>, before: Seq<u8>, after: Seq<u8>, r: Option<usize>) -> bool {
    if 0 <= step < responses.len() && responses[step].0@ == input && responses[step].1@.len() <= before.len() {
        &&& r == Some(responses[step].1@.len() as usize)
        &&& after == responses[step].1@ + before.skip(responses[step].1@.len() as int)
    } else {
        &&& r is None
        &&& after == before
    }
}

} // verus!
