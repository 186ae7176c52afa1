//! Laws of the update cycle, stated over the abstract state the stores and
//! the bridge expose.

use vstd::prelude::*;
use crate::bridge::{response_results, EngineResponse};
use crate::scalar::Scalar;

verus! {

/// Round trip: after a value is stored under a name, looking that name up
/// yields exactly that value — whatever the store held before, and so
/// regardless of how the engine later answers the alteration, which never
/// touches the parameter store.
pub proof fn lemma_set_then_get(
    params: Map<Seq<char>, Seq<char>>,
    name: Seq<char>,
    value: Seq<char>,
)
    ensures
        params.insert(name, value).contains_key(name),
        params.insert(name, value)[name] == value,
{
}

/// Idempotence of a parameter-change event: taking the same typed value
/// into the store twice, and applying the same engine answer twice, leave
/// exactly the state that one application leaves — the store because a
/// repeated overwrite changes nothing, the results because a successful
/// solve replaces them with a function of the response alone and a failure
/// keeps them.
pub proof fn lemma_param_change_idempotent(
    params: Map<Seq<char>, Seq<char>>,
    results: Map<Seq<char>, Scalar>,
    name: Seq<char>,
    value: Seq<char>,
    resp: EngineResponse,
)
    ensures
        params.insert(name, value).insert(name, value) == params.insert(name, value),
        response_results(response_results(results, resp), resp) == response_results(results, resp),
{
    assert(params.insert(name, value).insert(name, value) =~= params.insert(name, value));
}

} // verus!
