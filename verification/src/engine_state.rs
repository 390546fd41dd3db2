use vstd::prelude::*;

verus! {

/// Lifecycle state of the live audio engine.
#[derive(Clone, Copy, Debug, PartialEq, Eq, Structural)]
pub enum EngineState {
    Stopped,
    Starting,
    Running,
    Degraded,
    Recovering,
    Stopping,
    Error,
}

/// The numeric code under which a state is published to other threads.
pub open spec fn state_code(state: EngineState) -> u8 {
    match state {
        EngineState::Stopped => 0,
        EngineState::Starting => 1,
        EngineState::Running => 2,
        EngineState::Degraded => 3,
        EngineState::Recovering => 4,
        EngineState::Stopping => 5,
        EngineState::Error => 6,
    }
}

/// The lifecycle edges the engine may follow (besides staying where it is).
pub open spec fn lifecycle_edge(from: EngineState, to: EngineState) -> bool {
    match (from, to) {
        (EngineState::Stopped, EngineState::Starting) => true,
        (EngineState::Starting, EngineState::Running) => true,
        (EngineState::Starting, EngineState::Error) => true,
        (EngineState::Starting, EngineState::Stopped) => true,
        (EngineState::Running, EngineState::Degraded) => true,
        (EngineState::Running, EngineState::Recovering) => true,
        (EngineState::Running, EngineState::Stopping) => true,
        (EngineState::Running, EngineState::Error) => true,
        (EngineState::Degraded, EngineState::Running) => true,
        (EngineState::Degraded, EngineState::Recovering) => true,
        (EngineState::Degraded, EngineState::Stopping) => true,
        (EngineState::Degraded, EngineState::Error) => true,
        (EngineState::Recovering, EngineState::Running) => true,
        (EngineState::Recovering, EngineState::Stopping) => true,
        (EngineState::Recovering, EngineState::Error) => true,
        (EngineState::Stopping, EngineState::Stopped) => true,
        (EngineState::Stopping, EngineState::Error) => true,
        (EngineState::Error, EngineState::Starting) => true,
        (EngineState::Error, EngineState::Stopped) => true,
        _ => false,
    }
}

/// Whether the engine may move from `from` to `to`.
pub open spec fn transition_allowed(from: EngineState, to: EngineState) -> bool {
    lifecycle_edge(from, to) || from == to
}

impl Default for EngineState {
    fn default() -> (state: Self)
        ensures
            state == EngineState::Stopped,
    {
        EngineState::Stopped
    }
}

impl EngineState {
    /// Decodes a published state code; unknown codes read as `Stopped`.
    pub fn from_u8(value: u8) -> (state: Self)
        ensures
            value <= 6 ==> state_code(state) == value,
            value > 6 ==> state == EngineState::Stopped,
    {
        match value {
            1 => EngineState::Starting,
            2 => EngineState::Running,
            3 => EngineState::Degraded,
            4 => EngineState::Recovering,
            5 => EngineState::Stopping,
            6 => EngineState::Error,
            _ => EngineState::Stopped,
        }
    }

    /// The code under which this state is published.
    pub fn to_u8(self) -> (code: u8)
        ensures
            code == state_code(self),
    {
        match self {
            EngineState::Stopped => 0,
            EngineState::Starting => 1,
            EngineState::Running => 2,
            EngineState::Degraded => 3,
            EngineState::Recovering => 4,
            EngineState::Stopping => 5,
            EngineState::Error => 6,
        }
    }

    pub fn can_transition_to(self, next: Self) -> (allowed: bool)
        ensures
            allowed == transition_allowed(self, next),
    {
        let edge = match (self, next) {
            (EngineState::Stopped, EngineState::Starting) => true,
            (EngineState::Starting, EngineState::Running)
            | (EngineState::Starting, EngineState::Error)
            | (EngineState::Starting, EngineState::Stopped) => true,
            (EngineState::Running, EngineState::Degraded)
            | (EngineState::Running, EngineState::Recovering)
            | (EngineState::Running, EngineState::Stopping)
            | (EngineState::Running, EngineState::Error) => true,
            (EngineState::Degraded, EngineState::Running)
            | (EngineState::Degraded, EngineState::Recovering)
            | (EngineState::Degraded, EngineState::Stopping)
            | (EngineState::Degraded, EngineState::Error) => true,
            (EngineState::Recovering, EngineState::Running)
            | (EngineState::Recovering, EngineState::Stopping)
            | (EngineState::Recovering, EngineState::Error) => true,
            (EngineState::Stopping, EngineState::Stopped)
            | (EngineState::Stopping, EngineState::Error) => true,
            (EngineState::Error, EngineState::Starting)
            | (EngineState::Error, EngineState::Stopped) => true,
            _ => false,
        };
        edge || self == next
    }
}

/// Voice Lab audio work may only run while the live engine is fully stopped.
pub fn live_engine_allows_lab(state: EngineState) -> (allowed: bool)
    ensures
        allowed == (state == EngineState::Stopped),
{
    state == EngineState::Stopped
}

/// Voice Lab recording, rendering and preview need the live route stopped.
pub fn ensure_live_engine_stopped(state: EngineState) -> (result: Result<(), String>)
    ensures
        result is Ok <==> state == EngineState::Stopped,
        result matches Err(m) ==> m@
            == "Stop the live Use/Test route before recording, rendering, or previewing in Voice Lab."@,
{
    if live_engine_allows_lab(state) {
        Ok(())
    } else {
        Err(
            crate::text::from_chars(
                crate::text::to_chars(
                    "Stop the live Use/Test route before recording, rendering, or previewing in Voice Lab.",
                ).as_slice(),
            ),
        )
    }
}

/// A published state code decodes back to the state that produced it.
pub proof fn lemma_state_code_round_trip(state: EngineState)
    ensures
        state_code(state) <= 6,
        forall|decoded: EngineState| state_code(decoded) == state_code(state) ==> decoded == state,
{
}

/// Every state may stay where it is.
pub proof fn lemma_transition_reflexive(state: EngineState)
    ensures
        transition_allowed(state, state),
{
}

/// A stopped engine can only leave `Stopped` by starting.
pub proof fn lemma_stopped_only_starts(next: EngineState)
    ensures
        transition_allowed(EngineState::Stopped, next) <==> (next == EngineState::Stopped || next
            == EngineState::Starting),
{
}

/// From every state the engine can come to rest in `Stopped` in at most two steps.
pub proof fn lemma_every_state_can_reach_stopped(state: EngineState)
    ensures
        transition_allowed(state, EngineState::Stopped) || (transition_allowed(
            state,
            EngineState::Stopping,
        ) && transition_allowed(EngineState::Stopping, EngineState::Stopped)),
{
}

/// Every state can enter `Error`, and `Error` can always be left by starting again.
pub proof fn lemma_error_is_recoverable(state: EngineState)
    ensures
        state != EngineState::Stopped ==> transition_allowed(state, EngineState::Error),
        transition_allowed(EngineState::Error, EngineState::Starting),
{
}

/// Where one requested move ends: at `to` when the lifecycle allows it, else where it was.
pub open spec fn step_to(state: EngineState, to: EngineState) -> EngineState {
    if transition_allowed(state, to) {
        to
    } else {
        state
    }
}

/// The state after asking for each of `targets` in turn; a move the lifecycle does not
/// allow leaves the state as it was.
pub open spec fn after_moves(state: EngineState, targets: Seq<EngineState>) -> EngineState
    decreases targets.len(),
{
    if targets.len() == 0 {
        state
    } else {
        step_to(after_moves(state, targets.drop_last()), targets.last())
    }
}

/// The states the engine is in while the moves are asked for: where it starts, then
/// each state it moves to.
pub open spec fn states_passed(state: EngineState, targets: Seq<EngineState>) -> Seq<EngineState>
    decreases targets.len(),
{
    if targets.len() == 0 {
        seq![state]
    } else {
        let before = states_passed(state, targets.drop_last());
        if transition_allowed(before.last(), targets.last()) {
            before.push(targets.last())
        } else {
            before
        }
    }
}

/// One more requested move.
pub proof fn lemma_after_moves_push(state: EngineState, targets: Seq<EngineState>, to: EngineState)
    ensures
        after_moves(state, targets.push(to)) == step_to(after_moves(state, targets), to),
{
    assert(targets.push(to).drop_last() =~= targets);
}

/// Whatever moves are asked for, in any number of runs, the engine only ever passes
/// from one state to the next along an allowed transition, starting where it was and
/// ending where the moves leave it.
pub proof fn lemma_moves_follow_the_lifecycle(state: EngineState, targets: Seq<EngineState>)
    ensures
        states_passed(state, targets).len() >= 1,
        states_passed(state, targets)[0] == state,
        states_passed(state, targets).last() == after_moves(state, targets),
        forall|i: int|
            0 <= i < states_passed(state, targets).len() - 1 ==> transition_allowed(
                #[trigger] states_passed(state, targets)[i],
                states_passed(state, targets)[i + 1],
            ),
    decreases targets.len(),
{
    if targets.len() > 0 {
        let rest = targets.drop_last();
        lemma_moves_follow_the_lifecycle(state, rest);
        let before = states_passed(state, rest);
        if transition_allowed(before.last(), targets.last()) {
            let after = before.push(targets.last());
            assert forall|i: int| 0 <= i < after.len() - 1 implies transition_allowed(
                #[trigger] after[i],
                after[i + 1],
            ) by {
                if i < before.len() - 1 {
                    assert(after[i] == before[i]);
                    assert(after[i + 1] == before[i + 1]);
                } else {
                    assert(after[i] == before.last());
                }
            }
        }
    }
}

/// Asking for moves in two runs ends where asking for all of them in one run ends.
pub proof fn lemma_moves_compose(state: EngineState, first: Seq<EngineState>, second: Seq<EngineState>)
    ensures
        after_moves(after_moves(state, first), second) == after_moves(state, first + second),
    decreases second.len(),
{
    if second.len() == 0 {
        assert(first + second =~= first);
    } else {
        lemma_moves_compose(state, first, second.drop_last());
        assert((first + second).drop_last() =~= first + second.drop_last());
        assert((first + second).last() == second.last());
    }
}

/// One, two or three requested moves, one after the other.
pub(crate) proof fn lemma_moves_listed(state: EngineState, a: EngineState, b: EngineState, c: EngineState)
    ensures
        after_moves(state, Seq::<EngineState>::empty()) == state,
        after_moves(state, seq![a]) == step_to(state, a),
        after_moves(state, seq![a, b]) == step_to(step_to(state, a), b),
        after_moves(state, seq![a, b, c]) == step_to(step_to(step_to(state, a), b), c),
{
    lemma_after_moves_push(state, Seq::<EngineState>::empty(), a);
    assert(Seq::<EngineState>::empty().push(a) =~= seq![a]);
    lemma_after_moves_push(state, seq![a], b);
    assert(seq![a].push(b) =~= seq![a, b]);
    lemma_after_moves_push(state, seq![a, b], c);
    assert(seq![a, b].push(c) =~= seq![a, b, c]);
}

} // verus!
