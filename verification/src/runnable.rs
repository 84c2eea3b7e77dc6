//! Keyed fan-out: gathering the outputs of named branches into one object.
//!
//! The branches themselves run concurrently around this module; what is decided
//! here is how their `(key, JSON text)` outputs are gathered, and that a key
//! used twice is refused.

use vstd::prelude::*;
use vstd::string::*;

use crate::error::{Error, ErrorView};
use crate::request::{find_entry, find_key, lemma_find_key, ExtraEntry};

verus! {

broadcast use vstd::string::group_string_axioms;

/// The position of the first output whose key was already used by an earlier
/// output.
pub open spec fn first_repeat(outputs: Seq<ExtraEntry>) -> Option<int>
    decreases outputs.len(),
{
    if outputs.len() == 0 {
        None
    } else {
        match first_repeat(outputs.drop_last()) {
            Some(j) => Some(j),
            None => if find_key(outputs.drop_last(), outputs.last().0) is Some {
                Some(outputs.len() - 1)
            } else {
                None
            },
        }
    }
}

/// The message for a branch key used twice.
pub open spec fn duplicate_key_message(key: Seq<char>) -> Seq<char> {
    "duplicate parallel_map branch key `"@ + key + "`"@
}

/// What gathering answers: the outputs in branch order when no key repeats,
/// otherwise the error naming the first repeated key.
pub open spec fn gather_outcome(outputs: Seq<ExtraEntry>) -> Result<Seq<ExtraEntry>, ErrorView> {
    match first_repeat(outputs) {
        Some(j) => Err(ErrorView::InvalidRequest(duplicate_key_message(outputs[j].0))),
        None => Ok(outputs),
    }
}

/// A repeat found in a prefix is the first repeat of the whole sequence.
pub proof fn lemma_first_repeat_prefix(outputs: Seq<ExtraEntry>, n: int)
    requires
        0 <= n <= outputs.len(),
        first_repeat(outputs.take(n)) is Some,
    ensures
        first_repeat(outputs) == first_repeat(outputs.take(n)),
    decreases outputs.len() - n,
{
    if n < outputs.len() {
        assert(outputs.take(n + 1).drop_last() =~= outputs.take(n));
        lemma_first_repeat_prefix(outputs, n + 1);
    } else {
        assert(outputs.take(n) =~= outputs);
    }
}

/// When no key repeats, every key occurs once.
proof fn lemma_no_repeat_unique(outputs: Seq<ExtraEntry>)
    requires
        first_repeat(outputs) is None,
    ensures
        forall|i: int, j: int|
            0 <= i < j < outputs.len() ==> (#[trigger] outputs[i]).0 != (#[trigger] outputs[j]).0,
    decreases outputs.len(),
{
    if outputs.len() > 0 {
        let init = outputs.drop_last();
        lemma_no_repeat_unique(init);
        lemma_find_key(init, outputs.last().0);
        assert forall|i: int, j: int| 0 <= i < j < outputs.len() implies (
        #[trigger] outputs[i]).0 != (#[trigger] outputs[j]).0 by {
            assert(outputs[i] == init[i]);
            if j < init.len() {
                assert(outputs[j] == init[j]);
            }
        }
    }
}

/// Gathering either refuses the outputs or answers an object in which every
/// key occurs once.
pub proof fn law_gathered_keys_unique(outputs: Seq<ExtraEntry>)
    ensures
        gather_outcome(outputs) matches Ok(v) ==> forall|i: int, j: int|
            0 <= i < j < v.len() ==> (#[trigger] v[i]).0 != (#[trigger] v[j]).0,
{
    if first_repeat(outputs) is None {
        lemma_no_repeat_unique(outputs);
    }
}

/// Gathers branch outputs `(key, JSON text)` in branch order, refusing a key
/// that an earlier branch already used.
pub fn gather_outputs(outputs: Vec<(String, String)>) -> (r: Result<Vec<(String, String)>, Error>)
    ensures
        match (r, gather_outcome(outputs.deep_view())) {
            (Ok(v), Ok(w)) => v.deep_view() == w,
            (Err(e), Err(f)) => e@ == f,
            _ => false,
        },
{
    let ghost s = outputs.deep_view();
    let mut out: Vec<(String, String)> = Vec::new();
    assert(out.deep_view() =~= s.take(0));
    let mut i: usize = 0;
    while i < outputs.len()
        invariant
            i <= outputs.len(),
            s == outputs.deep_view(),
            out.deep_view() == s.take(i as int),
            first_repeat(s.take(i as int)) is None,
        decreases outputs.len() - i,
    {
        proof {
            assert(s.take(i + 1).drop_last() =~= s.take(i as int));
        }
        let key = outputs[i].0.as_str();
        assert(s[i as int].0 == key@);
        match find_entry(&out, key) {
            Some(_) => {
                proof {
                    assert(first_repeat(s.take(i + 1)) == Some(i as int));
                    lemma_first_repeat_prefix(s, i + 1);
                }
                let msg = String::from_str("duplicate parallel_map branch key `").concat(key).concat(
                    "`",
                );
                return Err(Error::invalid_request(msg.as_str()));
            },
            None => {
                out.push((outputs[i].0.clone(), outputs[i].1.clone()));
                assert(out.deep_view() =~= s.take(i + 1));
            },
        }
        i = i + 1;
    }
    assert(s.take(outputs.len() as int) =~= s);
    Ok(out)
}

/// What a keyed fan-out answers once its branches have run: a failed fan-out
/// answers the error it failed with; otherwise its outputs are gathered (see
/// [`gather_outcome`]).
pub open spec fn fan_out_outcome(
    joined: Result<Seq<ExtraEntry>, ErrorView>,
) -> Result<Seq<ExtraEntry>, ErrorView> {
    match joined {
        Err(e) => Err(e),
        Ok(outputs) => gather_outcome(outputs),
    }
}

/// Finishes a keyed fan-out from what running its branches gave: the first
/// failure, or every `(key, JSON text)` output in branch order.
pub fn finish_fan_out(joined: Result<Vec<(String, String)>, Error>) -> (r: Result<
    Vec<(String, String)>,
    Error,
>)
    ensures
        match (
            r,
            fan_out_outcome(
                match joined {
                    Ok(outputs) => Ok(outputs.deep_view()),
                    Err(e) => Err(e@),
                },
            ),
        ) {
            (Ok(v), Ok(w)) => v.deep_view() == w,
            (Err(e), Err(f)) => e@ == f,
            _ => false,
        },
{
    match joined {
        Err(e) => Err(e),
        Ok(outputs) => gather_outputs(outputs),
    }
}

} // verus!
