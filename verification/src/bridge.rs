//! The simulation bridge: the state the display owns (parameter store,
//! result set, phase), and the strictly serial update cycle. A parameter
//! edit first takes the typed text into the store and yields the alteration
//! directive; the engine's answer then either replaces the whole result set
//! (successful solve) or changes nothing (rejected alteration or failed
//! solve), and only a replacement asks for a re-render.

use vstd::prelude::*;
use crate::circuit::{alter_directive, default_params, default_params_map, make_alter_directive};
use crate::kv::map_of;
use crate::params::ParamStore;
use crate::results::{projected, RawEntry, ResultSet};
use crate::scalar::Scalar;

verus! {

/// Where the bridge stands: the initial operating point has been computed,
/// or at least one alter-and-resolve cycle has succeeded since.
#[derive(Clone, Copy, PartialEq, Eq, Structural, Debug)]
pub enum Phase {
    Initialized,
    Updated,
}

/// What the engine answered to one parameter edit: the alteration was
/// rejected, or the fresh solve failed, or the solve succeeded with a raw
/// operating-point response.
pub enum EngineResponse {
    AlterFailed,
    SolveFailed,
    SolveOk(Vec<(String, RawEntry)>),
}

/// The result set after an engine response: replaced wholesale by a
/// successful solve, kept unchanged otherwise.
pub open spec fn response_results(
    prior: Map<Seq<char>, Scalar>,
    resp: EngineResponse,
) -> Map<Seq<char>, Scalar> {
    match resp {
        EngineResponse::SolveOk(raw) => map_of(projected(raw@)),
        _ => prior,
    }
}

/// Whether an engine response asks for a re-render: only a successful
/// solve does.
pub open spec fn response_renders(resp: EngineResponse) -> bool {
    resp is SolveOk
}

/// The parameter store always holds the five fixed names.
pub open spec fn has_schema(params: Map<Seq<char>, Seq<char>>) -> bool {
    &&& params.contains_key("v1 dc"@)
    &&& params.contains_key("v2 dc"@)
    &&& params.contains_key("r1"@)
    &&& params.contains_key("m1 w"@)
    &&& params.contains_key("m1 l"@)
}

/// The bridge's state: the editable parameters, the scalars of the last
/// successful solve, and the phase.
pub struct Bridge {
    pub phase: Phase,
    pub params: ParamStore,
    pub results: ResultSet,
}

impl Bridge {
    /// Well-formed: both stores are, and the five fixed parameters are
    /// present (they are created at startup and never removed).
    pub open spec fn wf(self) -> bool {
        &&& self.params.wf()
        &&& self.results.wf()
        &&& has_schema(self.params@)
    }

    /// Builds the bridge from the engine's initial operating-point
    /// response: default parameters, the response's projected scalars.
    pub fn new(initial: &Vec<(String, RawEntry)>) -> (r: Bridge)
        ensures
            r.wf(),
            r.phase == Phase::Initialized,
            r.params@ == default_params_map(),
            r.results@ == map_of(projected(initial@)),
    {
        Bridge {
            phase: Phase::Initialized,
            params: default_params(),
            results: ResultSet::from_raw(initial),
        }
    }

    /// Takes one parameter edit: stores the typed text unconditionally —
    /// it is kept even if the engine later rejects it — and yields the
    /// alteration directive to submit. Results and phase are untouched.
    pub fn begin_param_change(&mut self, name: String, value: String) -> (directive: String)
        requires
            old(self).wf(),
        ensures
            final(self).wf(),
            final(self).params@ == old(self).params@.insert(name@, value@),
            final(self).results == old(self).results,
            final(self).phase == old(self).phase,
            directive@ == alter_directive(name@, value@),
    {
        let directive = make_alter_directive(&name, &value);
        self.params.set(name, value);
        directive
    }

    /// Applies the engine's answer to a submitted alteration. A rejected
    /// alteration or a failed solve changes nothing and asks for no
    /// re-render; a successful solve replaces the whole result set and asks
    /// for one.
    pub fn apply_engine_response(&mut self, resp: EngineResponse) -> (render: bool)
        requires
            old(self).wf(),
        ensures
            final(self).wf(),
            final(self).params == old(self).params,
            final(self).results@ == response_results(old(self).results@, resp),
            render == response_renders(resp),
            !render ==> *final(self) == *old(self),
            render ==> final(self).phase == Phase::Updated,
    {
        match resp {
            EngineResponse::AlterFailed => false,
            EngineResponse::SolveFailed => false,
            EngineResponse::SolveOk(raw) => {
                self.results = ResultSet::from_raw(&raw);
                self.phase = Phase::Updated;
                true
            },
        }
    }
}

} // verus!
