//! Uniform selection: pick one line from the corpus with a fresh,
//! non-cryptographic random index. An empty corpus is a distinct error,
//! never a silent empty-string success.

use vstd::prelude::*;

use crate::errors::PipelineError;

verus! {

/// Relies on rand::Rng::gen_range over rand::thread_rng: a value drawn
/// uniformly from `[0, n)` by the thread-local generator, which is seeded
/// from system entropy, never from a fixed seed. gen_range panics only on an
/// empty range, which the precondition excludes; nothing more can be
/// promised of a random value than its bound.
#[verifier::external_body]
fn random_below(n: usize) -> (r: usize)
    requires
        n > 0,
    ensures
        r < n,
{
    rand::Rng::gen_range(&mut rand::thread_rng(), 0..n)
}

/// Deterministic selection at a given index: the injectable heart of the
/// selector, so that a controlled index can be supplied under test.
pub fn select_line(text: &Vec<String>, idx: usize) -> (r: String)
    requires
        idx < text@.len(),
    ensures
        r@ == text@[idx as int]@,
{
    text[idx].clone()
}

/// Choose one line uniformly from the corpus. The result is always a member
/// of the given sequence; a corpus of zero lines is rejected as an
/// empty-corpus error.
pub fn get_random_line(text: Vec<String>) -> (r: Result<String, PipelineError>)
    ensures
        r is Ok <==> text@.len() > 0,
        text@.len() == 0 ==> (r matches Err(PipelineError::EmptyCorpus)),
        r matches Ok(line) ==> exists|i: int| 0 <= i < text@.len() && line@ == text@[i]@,
{
    if text.len() == 0 {
        return Err(PipelineError::EmptyCorpus);
    }
    let idx: usize = random_below(text.len());
    let line = select_line(&text, idx);
    proof {
        assert(0 <= (idx as int) && (idx as int) < text@.len() && line@ == text@[idx as int]@);
    }
    Ok(line)
}

} // verus!
