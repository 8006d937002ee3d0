use vstd::prelude::*;

use crate::msg::{GetMetadataResponse, GetPhaseResponse};
use crate::state::State;

verus! {

/// What the metadata query answers on `state`: the description of the
/// collection, its phases, and the number of tokens sold as `minted`.
pub open spec fn metadata_of(state: State) -> GetMetadataResponse {
    GetMetadataResponse {
        collection: state.collection,
        symbol: state.symbol,
        description: state.description,
        logo_uri: state.logo_uri,
        banner_uri: state.banner_uri,
        minted: state.last_minted,
        supply: state.supply,
        contract: state.contract,
        phases: state.phases,
    }
}

/// What `get_metadata(state)` answers.
pub open spec fn get_metadata_post(state: State, res: GetMetadataResponse) -> bool {
    res == metadata_of(state)
}

/// Answers the metadata of the collection.
pub fn get_metadata(state: State) -> (res: GetMetadataResponse)
    ensures
        get_metadata_post(state, res),
{
    GetMetadataResponse {
        collection: state.collection,
        symbol: state.symbol,
        description: state.description,
        logo_uri: state.logo_uri,
        banner_uri: state.banner_uri,
        minted: state.last_minted,
        supply: state.supply,
        contract: state.contract,
        phases: state.phases,
    }
}

/// The current phase has ended strictly before `now`.
pub open spec fn current_phase_over(state: State, now: u64) -> bool {
    state.phases@[state.current_phase as int].ends < now
}

/// The index of the phase that the phase query shows at `now`: the current
/// one, or the next one once the current one has ended strictly before `now`.
pub open spec fn shown_phase_index(state: State, now: u64) -> int {
    if current_phase_over(state, now) {
        state.current_phase + 1
    } else {
        state.current_phase as int
    }
}

/// The inputs on which the phase query answers: the current phase exists,
/// and so does the next one if the current one is over.
pub open spec fn phase_query_defined(state: State, now: u64) -> bool {
    &&& 0 <= state.current_phase < state.phases@.len()
    &&& current_phase_over(state, now) ==> state.current_phase + 1 < state.phases@.len()
}

/// Tells whether the phase query is answered (`phase_query_defined`) rather
/// than aborted.
pub fn phase_query_answerable(state: &State, now: u64) -> (b: bool)
    ensures
        b == phase_query_defined(*state, now),
{
    if state.current_phase < 0 || state.current_phase as usize >= state.phases.len() {
        return false;
    }
    let current: usize = state.current_phase as usize;
    !(state.phases[current].ends < now as u128) || current + 1 < state.phases.len()
}

/// `x` as an `i128`, or `i128::MAX` when it does not fit.
pub open spec fn saturating_i128(x: u128) -> i128 {
    if x > i128::MAX {
        i128::MAX
    } else {
        x as i128
    }
}

/// `x` as an `i8`, or `i8::MAX` when it is larger.
pub open spec fn saturating_i8(x: int) -> i8 {
    if x > i8::MAX {
        i8::MAX
    } else {
        x as i8
    }
}

/// What the phase query answers at `now`: the index, price, times,
/// allowlist and name of the phase it shows. Times beyond `i128::MAX`
/// seconds are reported as `i128::MAX`, and an index beyond `i8::MAX` as
/// `i8::MAX`.
pub open spec fn phase_response(state: State, now: u64) -> GetPhaseResponse {
    let phase = state.phases@[shown_phase_index(state, now)];
    GetPhaseResponse {
        current: saturating_i8(shown_phase_index(state, now)),
        price: phase.price,
        ends: saturating_i128(phase.ends),
        started: saturating_i128(phase.starts),
        allowlist: phase.allowed,
        name: phase.name,
    }
}

fn to_i128_saturating(x: u128) -> (r: i128)
    ensures
        r == saturating_i128(x),
{
    if x > i128::MAX as u128 {
        i128::MAX
    } else {
        x as i128
    }
}

/// What `get_phase(state, now)` answers.
pub open spec fn get_phase_post(state: State, now: u64, res: GetPhaseResponse) -> bool {
    res == phase_response(state, now)
}

/// Answers the phase that is selling at `now` (in seconds).
pub fn get_phase(state: State, now: u64) -> (res: GetPhaseResponse)
    requires
        phase_query_defined(state, now),
    ensures
        get_phase_post(state, now, res),
{
    let current: usize = state.current_phase as usize;
    let mut phases = state.phases;
    let index: usize = if phases[current].ends < now as u128 {
        current + 1
    } else {
        current
    };
    let phase = phases.remove(index);
    let shown: i8 = if index > i8::MAX as usize {
        i8::MAX
    } else {
        index as i8
    };
    GetPhaseResponse {
        current: shown,
        price: phase.price,
        ends: to_i128_saturating(phase.ends),
        started: to_i128_saturating(phase.starts),
        allowlist: phase.allowed,
        name: phase.name,
    }
}

} // verus!
