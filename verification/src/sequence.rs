use crate::error::BuildError;
use crate::reward_to_go::{returns_to_go, rewards_to_go};
use crate::window::{masked, window_of, RollingWindow};
use vstd::prelude::*;

verus! {

/// An environment state that can be fed to the model, with the actions that can
/// be taken in it.
///
/// Nothing is assumed of an implementation: whatever vectors and rewards its
/// methods return are the ones the windows are built from.
pub trait DTState<const STATE_SIZE: usize, const ACTION_SIZE: usize>: Sized {
    /// What the agent can do in a state.
    type Action;

    /// The vector that stands for this state.
    fn to_state_vector(&self) -> [i64; STATE_SIZE];

    /// The vector that stands for `action`.
    fn action_to_vector(action: &Self::Action) -> [i64; ACTION_SIZE];

    /// The reward of taking `action` in this state.
    fn get_reward(&self, action: &Self::Action) -> i64;
}

/// The context windows of one timestep, oldest slot first: what the model sees
/// when it is asked for the action of the newest step.  `SV`, `AV` and `R` are
/// what one slot holds of a state, of an action and of a return-to-go.
#[derive(Clone, Debug, PartialEq, Eq)]
pub struct Input<SV, AV, R> {
    /// The last states, the current one included.
    pub states: Vec<SV>,
    /// The last actions; the current one is not known yet and reads as zero.
    pub actions: Vec<AV>,
    /// The last returns-to-go; the current one reads as zero.
    pub returns_to_go: Vec<R>,
    /// The last timesteps, counted from 1; 0 marks padding.
    pub timesteps: Vec<usize>,
}

/// The four windows of an [`Input`] as sequences.
pub ghost struct InputView<SV, AV, R> {
    pub states: Seq<SV>,
    pub actions: Seq<AV>,
    pub returns_to_go: Seq<R>,
    pub timesteps: Seq<usize>,
}

impl<SV, AV, R> View for Input<SV, AV, R> {
    type V = InputView<SV, AV, R>;

    open spec fn view(&self) -> InputView<SV, AV, R> {
        InputView {
            states: self.states@,
            actions: self.actions@,
            returns_to_go: self.returns_to_go@,
            timesteps: self.timesteps@,
        }
    }
}

/// The zero of each stream: what pads a window before the trajectory began and
/// what masks the newest action and return-to-go.
#[derive(Clone, Copy, Debug, PartialEq, Eq)]
pub struct Zeros<SV, AV, R> {
    pub state: SV,
    pub action: AV,
    pub return_to_go: R,
}

/// An input over vectors of `S` and `A` integers, with exact returns-to-go.
pub type ExactInput<const S: usize, const A: usize> = Input<[i64; S], [i64; A], i128>;

/// The vector of `N` zeros.
pub open spec fn zero_vector<const N: usize>() -> [i64; N] {
    vstd::array::spec_array_fill_for_copy_type::<i64, N>(0i64)
}

/// Every entry of the zero vector is 0.
pub proof fn lemma_zero_vector_entries<const N: usize>(i: int)
    requires
        0 <= i < N,
    ensures
        zero_vector::<N>()@.len() == N,
        zero_vector::<N>()@[i] == 0,
{
    broadcast use vstd::array::group_array_axioms;

}

/// The timesteps `1, 2, .., count`.
pub open spec fn timesteps_through(count: nat) -> Seq<usize> {
    Seq::new(count, |k: int| (k + 1) as usize)
}

/// The windows emitted at step `i` of a trajectory: each stream shows its last
/// `window` values up to and including step `i`, zero-padded at the front; the
/// action and return-to-go of step `i` itself are masked.
pub open spec fn input_at<SV, AV, R>(
    states: Seq<SV>,
    actions: Seq<AV>,
    returns_to_go: Seq<R>,
    zeros: Zeros<SV, AV, R>,
    window: nat,
    i: int,
) -> InputView<SV, AV, R> {
    InputView {
        states: window_of(zeros.state, window, states.take(i + 1)),
        actions: masked(window_of(zeros.action, window, actions.take(i + 1)), zeros.action),
        returns_to_go: masked(
            window_of(zeros.return_to_go, window, returns_to_go.take(i + 1)),
            zeros.return_to_go,
        ),
        timesteps: window_of(0usize, window, timesteps_through((i + 1) as nat)),
    }
}

/// The zeros of integer vectors and exact returns-to-go.
pub open spec fn exact_zeros<const S: usize, const A: usize>() -> Zeros<[i64; S], [i64; A], i128> {
    Zeros { state: zero_vector::<S>(), action: zero_vector::<A>(), return_to_go: 0i128 }
}

/// What slot `j` of the windows of step `i` holds.  Slot `j` looks back
/// `window - 1 - j` steps from step `i`, to step `k`.  Where the trajectory had
/// not begun yet (`k < 0`) every stream holds zero.  Else the slot holds the state
/// of step `k` and the timestep `k + 1`, and, unless it is the last slot, the
/// action and the return-to-go of step `k`; the last slot holds the zero action
/// and a return-to-go of 0.
pub proof fn lemma_input_at_slot<SV, AV, R>(
    states: Seq<SV>,
    actions: Seq<AV>,
    returns_to_go: Seq<R>,
    zeros: Zeros<SV, AV, R>,
    window: nat,
    i: int,
    j: int,
)
    requires
        states.len() == actions.len(),
        states.len() == returns_to_go.len(),
        states.len() <= usize::MAX,
        0 <= i < states.len(),
        0 <= j < window,
    ensures
        ({
            let input = input_at(states, actions, returns_to_go, zeros, window, i);
            let k = i - (window - 1 - j);
            &&& input.states.len() == window
            &&& input.actions.len() == window
            &&& input.returns_to_go.len() == window
            &&& input.timesteps.len() == window
            &&& k < 0 ==> {
                &&& input.states[j] == zeros.state
                &&& input.actions[j] == zeros.action
                &&& input.returns_to_go[j] == zeros.return_to_go
                &&& input.timesteps[j] == 0
            }
            &&& k >= 0 ==> {
                &&& input.states[j] == states[k]
                &&& input.timesteps[j] == k + 1
            }
            &&& k >= 0 && j < window - 1 ==> {
                &&& input.actions[j] == actions[k]
                &&& input.returns_to_go[j] == returns_to_go[k]
            }
            &&& j == window - 1 ==> {
                &&& input.actions[j] == zeros.action
                &&& input.returns_to_go[j] == zeros.return_to_go
            }
        }),
{
}

/// `inputs` holds, for every step of the streams in order, the windows of that
/// step.
pub open spec fn inputs_of_streams<SV, AV, R>(
    inputs: Seq<Input<SV, AV, R>>,
    states: Seq<SV>,
    actions: Seq<AV>,
    returns_to_go: Seq<R>,
    zeros: Zeros<SV, AV, R>,
    window: nat,
) -> bool {
    &&& inputs.len() == states.len()
    &&& forall|i: int|
        0 <= i < inputs.len() ==> (#[trigger] inputs[i])@ == input_at(
            states,
            actions,
            returns_to_go,
            zeros,
            window,
            i,
        )
}

/// `inputs` holds, for every step of a trajectory of integer vectors in order,
/// the windows of that step, with the returns-to-go that `rewards` sum to.
pub open spec fn inputs_of_trajectory<const S: usize, const A: usize>(
    inputs: Seq<ExactInput<S, A>>,
    states: Seq<[i64; S]>,
    actions: Seq<[i64; A]>,
    rewards: Seq<i64>,
    window: nat,
) -> bool {
    inputs_of_streams(
        inputs,
        states,
        actions,
        returns_to_go(rewards),
        exact_zeros::<S, A>(),
        window,
    )
}

/// Builds the windows of every step from the three streams of a trajectory,
/// whatever their slots hold, and counts the timesteps from 1.
///
/// Fails, with nothing built, exactly when there are not as many actions as
/// states.
pub fn windows_of_streams<SV: Copy, AV: Copy, R: Copy>(
    states: &Vec<SV>,
    actions: &Vec<AV>,
    returns_to_go: &Vec<R>,
    zeros: Zeros<SV, AV, R>,
    window: usize,
) -> (out: Result<Vec<Input<SV, AV, R>>, BuildError>)
    requires
        window > 0,
        returns_to_go.len() == states.len(),
    ensures
        out is Err <==> states.len() != actions.len(),
        out is Err ==> out == Err::<Vec<Input<SV, AV, R>>, BuildError>(
            BuildError::InputLengthMismatch { states: states.len(), actions: actions.len() },
        ),
        out is Ok ==> inputs_of_streams(
            out->Ok_0@,
            states@,
            actions@,
            returns_to_go@,
            zeros,
            window as nat,
        ),
{
    if states.len() != actions.len() {
        return Err(
            BuildError::InputLengthMismatch { states: states.len(), actions: actions.len() },
        );
    }
    let n: usize = states.len();
    let mut actions_in_seq: RollingWindow<AV> = RollingWindow::new(window, zeros.action);
    let mut states_in_seq: RollingWindow<SV> = RollingWindow::new(window, zeros.state);
    let mut rtg_in_seq: RollingWindow<R> = RollingWindow::new(window, zeros.return_to_go);
    let mut timesteps_in_seq: RollingWindow<usize> = RollingWindow::new(window, 0usize);
    let mut inputs: Vec<Input<SV, AV, R>> = Vec::new();
    let mut i: usize = 0;
    proof {
        assert(states@.take(0) =~= Seq::empty());
        assert(actions@.take(0) =~= Seq::empty());
        assert(returns_to_go@.take(0) =~= Seq::empty());
        assert(timesteps_through(0) =~= Seq::empty());
    }
    while i < n
        invariant
            i <= n,
            n == states.len(),
            n == actions.len(),
            n == returns_to_go.len(),
            window > 0,
            states_in_seq.wf(),
            actions_in_seq.wf(),
            rtg_in_seq.wf(),
            timesteps_in_seq.wf(),
            states_in_seq@.len() == window,
            actions_in_seq@.len() == window,
            rtg_in_seq@.len() == window,
            timesteps_in_seq@.len() == window,
            states_in_seq.zero() == zeros.state,
            actions_in_seq.zero() == zeros.action,
            rtg_in_seq.zero() == zeros.return_to_go,
            timesteps_in_seq.zero() == 0usize,
            states_in_seq.pushed() == states@.take(i as int),
            actions_in_seq.pushed() == actions@.take(i as int),
            rtg_in_seq.pushed() == returns_to_go@.take(i as int),
            timesteps_in_seq.pushed() == timesteps_through(i as nat),
            inputs.len() == i,
            forall|j: int|
                0 <= j < i ==> (#[trigger] inputs[j])@ == input_at(
                    states@,
                    actions@,
                    returns_to_go@,
                    zeros,
                    window as nat,
                    j,
                ),
        decreases n - i,
    {
        actions_in_seq.push(actions[i]);
        states_in_seq.push(states[i]);
        rtg_in_seq.push(returns_to_go[i]);
        timesteps_in_seq.push(i + 1);
        proof {
            assert(states@.take(i as int).push(states[i as int]) =~= states@.take(i + 1));
            assert(actions@.take(i as int).push(actions[i as int]) =~= actions@.take(i + 1));
            assert(returns_to_go@.take(i as int).push(returns_to_go[i as int])
                =~= returns_to_go@.take(i + 1));
            assert(timesteps_through(i as nat).push((i + 1) as usize) =~= timesteps_through(
                (i + 1) as nat,
            ));
        }
        let input: Input<SV, AV, R> = Input {
            states: states_in_seq.snapshot(),
            actions: actions_in_seq.masked_snapshot(),
            returns_to_go: rtg_in_seq.masked_snapshot(),
            timesteps: timesteps_in_seq.snapshot(),
        };
        assert(input@ == input_at(
            states@,
            actions@,
            returns_to_go@,
            zeros,
            window as nat,
            i as int,
        ));
        inputs.push(input);
        i = i + 1;
    }
    Ok(inputs)
}

/// Builds the windows of every step of a trajectory given as integer vectors
/// and per-step rewards: the returns-to-go are the exact sums of the rewards,
/// and the zeros are the zero vectors and 0.
///
/// Fails, with nothing built, exactly when there are not as many actions as
/// states.
pub fn build_windows<const S: usize, const A: usize>(
    states: &Vec<[i64; S]>,
    actions: &Vec<[i64; A]>,
    rewards: &Vec<i64>,
    window: usize,
) -> (out: Result<Vec<ExactInput<S, A>>, BuildError>)
    requires
        window > 0,
        rewards.len() == states.len(),
    ensures
        out is Err <==> states.len() != actions.len(),
        out is Err ==> out == Err::<Vec<ExactInput<S, A>>, BuildError>(
            BuildError::InputLengthMismatch { states: states.len(), actions: actions.len() },
        ),
        out is Ok ==> inputs_of_trajectory(
            out->Ok_0@,
            states@,
            actions@,
            rewards@,
            window as nat,
        ),
{
    let rtg: Vec<i128> = rewards_to_go(rewards);
    let zeros: Zeros<[i64; S], [i64; A], i128> = Zeros {
        state: [0i64;S],
        action: [0i64;A],
        return_to_go: 0i128,
    };
    windows_of_streams(states, actions, &rtg, zeros, window)
}

/// `inputs` holds the windows of every step of some trajectory of `steps`
/// steps: there are vectors and rewards, one of each per step, that `inputs` was
/// built from.
pub open spec fn inputs_of_steps<const S: usize, const A: usize>(
    inputs: Seq<ExactInput<S, A>>,
    steps: nat,
    window: nat,
) -> bool {
    exists|states: Seq<[i64; S]>, actions: Seq<[i64; A]>, rewards: Seq<i64>|
        {
            &&& #[trigger] inputs_of_trajectory(inputs, states, actions, rewards, window)
            &&& states.len() == steps
            &&& actions.len() == steps
            &&& rewards.len() == steps
        }
}

/// `out` is the return-to-go sequence of some `steps` rewards.
pub open spec fn returns_of_steps(out: Seq<i128>, steps: nat) -> bool {
    exists|rewards: Seq<i64>| out == #[trigger] returns_to_go(rewards) && rewards.len() == steps
}

/// Asks the environment for the reward of every step of an aligned trajectory.
fn collect_rewards<const S: usize, const A: usize, G: DTState<S, A>>(
    states: &Vec<G>,
    actions: &Vec<G::Action>,
) -> (rewards: Vec<i64>)
    requires
        states.len() == actions.len(),
    ensures
        rewards.len() == states.len(),
{
    let mut rewards: Vec<i64> = Vec::new();
    let mut i: usize = 0;
    while i < states.len()
        invariant
            i <= states.len(),
            states.len() == actions.len(),
            rewards.len() == i,
        decreases states.len() - i,
    {
        let reward: i64 = states[i].get_reward(&actions[i]);
        rewards.push(reward);
        i = i + 1;
    }
    rewards
}

/// Computes the return-to-go of every step of a trajectory: the sum of the
/// rewards, as the environment gives them, from that step to the end.
///
/// Fails exactly when there are not as many actions as states.  What is returned
/// for given rewards is stated by [`rewards_to_go`].
pub fn get_rewards_to_go<const S: usize, const A: usize, G: DTState<S, A>>(
    states: &Vec<G>,
    actions: &Vec<G::Action>,
) -> (out: Result<Vec<i128>, BuildError>)
    ensures
        out is Err <==> states.len() != actions.len(),
        out is Err ==> out == Err::<Vec<i128>, BuildError>(
            BuildError::InputLengthMismatch { states: states.len(), actions: actions.len() },
        ),
        out is Ok ==> out->Ok_0.len() == states.len(),
        out is Ok ==> returns_of_steps(out->Ok_0@, states.len() as nat),
{
    if states.len() != actions.len() {
        return Err(
            BuildError::InputLengthMismatch { states: states.len(), actions: actions.len() },
        );
    }
    let rewards: Vec<i64> = collect_rewards::<S, A, G>(states, actions);
    Ok(rewards_to_go(&rewards))
}

/// Turns a trajectory into the model's inputs: for every step, in order, the
/// windows of the last `window` states, actions, returns-to-go and timesteps.
///
/// Fails, with nothing built, exactly when there are not as many actions as
/// states.  The vectors and rewards come from the environment; what is built
/// from given ones is stated by [`build_windows`].
pub fn game_to_inputs<const S: usize, const A: usize, G: DTState<S, A>>(
    states: Vec<G>,
    actions: Vec<G::Action>,
    window: usize,
) -> (out: Result<Vec<ExactInput<S, A>>, BuildError>)
    requires
        window > 0,
    ensures
        out is Err <==> states.len() != actions.len(),
        out is Err ==> out == Err::<Vec<ExactInput<S, A>>, BuildError>(
            BuildError::InputLengthMismatch { states: states.len(), actions: actions.len() },
        ),
        out is Ok ==> out->Ok_0.len() == states.len(),
        out is Ok ==> inputs_of_steps(out->Ok_0@, states.len() as nat, window as nat),
{
    if states.len() != actions.len() {
        return Err(
            BuildError::InputLengthMismatch { states: states.len(), actions: actions.len() },
        );
    }
    let rewards: Vec<i64> = collect_rewards::<S, A, G>(&states, &actions);
    let mut state_slots: Vec<[i64; S]> = Vec::new();
    let mut action_slots: Vec<[i64; A]> = Vec::new();
    let mut i: usize = 0;
    while i < states.len()
        invariant
            i <= states.len(),
            states.len() == actions.len(),
            state_slots.len() == i,
            action_slots.len() == i,
        decreases states.len() - i,
    {
        action_slots.push(G::action_to_vector(&actions[i]));
        state_slots.push(states[i].to_state_vector());
        i = i + 1;
    }
    let out = build_windows(&state_slots, &action_slots, &rewards, window);
    proof {
        assert(inputs_of_trajectory(
            out->Ok_0@,
            state_slots@,
            action_slots@,
            rewards@,
            window as nat,
        ));
    }
    out
}

} // verus!
