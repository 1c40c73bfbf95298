use crate::sequence::{Input, InputView};
use crate::window::copy_slots;
use vstd::prelude::*;

verus! {

/// The windows of several timesteps stacked along a new leading axis: entry `b`
/// of each stream is that stream's window of the `b`-th input.
#[derive(Clone, Debug, PartialEq, Eq)]
pub struct BatchedInput<SV: Copy, AV: Copy, R: Copy> {
    pub states: Vec<Vec<SV>>,
    pub actions: Vec<Vec<AV>>,
    pub returns_to_go: Vec<Vec<R>>,
    pub timesteps: Vec<Vec<usize>>,
}

impl<SV: Copy, AV: Copy, R: Copy> View for BatchedInput<SV, AV, R> {
    type V = Seq<InputView<SV, AV, R>>;

    /// The entries of the batch in order.
    open spec fn view(&self) -> Seq<InputView<SV, AV, R>> {
        Seq::new(self.states.len() as nat, |b: int| self.entry(b))
    }
}

/// What stacking `inputs` gives: entry `b` is `inputs[b]`.
pub open spec fn stacked<SV: Copy, AV: Copy, R: Copy>(inputs: Seq<Input<SV, AV, R>>) -> Seq<
    InputView<SV, AV, R>,
> {
    Seq::new(inputs.len(), |b: int| inputs[b]@)
}

impl<SV: Copy, AV: Copy, R: Copy> BatchedInput<SV, AV, R> {
    /// All four streams hold the same number of windows.
    pub open spec fn wf(&self) -> bool {
        &&& self.actions.len() == self.states.len()
        &&& self.returns_to_go.len() == self.states.len()
        &&& self.timesteps.len() == self.states.len()
    }

    /// The number of stacked inputs.
    pub open spec fn spec_batch_size(&self) -> nat {
        self.states.len() as nat
    }

    /// The four windows at batch index `b`.
    pub open spec fn entry(&self, b: int) -> InputView<SV, AV, R> {
        InputView {
            states: self.states[b]@,
            actions: self.actions[b]@,
            returns_to_go: self.returns_to_go[b]@,
            timesteps: self.timesteps[b]@,
        }
    }

    /// The number of stacked inputs.
    pub fn batch_size(&self) -> (size: usize)
        ensures
            size == self.spec_batch_size(),
    {
        self.states.len()
    }

    /// The input at batch index `b`, rebuilt from the four streams.
    pub fn get(&self, b: usize) -> (input: Input<SV, AV, R>)
        requires
            self.wf(),
            b < self.spec_batch_size(),
        ensures
            input@ == self@[b as int],
            input@ == self.entry(b as int),
    {
        Input {
            states: copy_slots(&self.states[b]),
            actions: copy_slots(&self.actions[b]),
            returns_to_go: copy_slots(&self.returns_to_go[b]),
            timesteps: copy_slots(&self.timesteps[b]),
        }
    }
}

/// Stacks `B` inputs, stream by stream, in the order given: batch index `b`
/// holds exactly the windows of `inputs[b]`.
pub fn batch_inputs<const B: usize, SV: Copy, AV: Copy, R: Copy>(
    inputs: [Input<SV, AV, R>; B],
) -> (out: BatchedInput<SV, AV, R>)
    ensures
        out.wf(),
        out.spec_batch_size() == B,
        out@ == stacked(inputs@),
        forall|b: int| 0 <= b < B ==> out.entry(b) == (#[trigger] inputs@[b])@,
{
    let mut states: Vec<Vec<SV>> = Vec::new();
    let mut actions: Vec<Vec<AV>> = Vec::new();
    let mut returns_to_go: Vec<Vec<R>> = Vec::new();
    let mut timesteps: Vec<Vec<usize>> = Vec::new();
    let mut i: usize = 0;
    while i < B
        invariant
            i <= B,
            inputs@.len() == B,
            states.len() == i,
            actions.len() == i,
            returns_to_go.len() == i,
            timesteps.len() == i,
            forall|b: int|
                0 <= b < i ==> {
                    &&& states[b]@ == (#[trigger] inputs@[b]).states@
                    &&& actions[b]@ == inputs@[b].actions@
                    &&& returns_to_go[b]@ == inputs@[b].returns_to_go@
                    &&& timesteps[b]@ == inputs@[b].timesteps@
                },
        decreases B - i,
    {
        states.push(copy_slots(&inputs[i].states));
        actions.push(copy_slots(&inputs[i].actions));
        returns_to_go.push(copy_slots(&inputs[i].returns_to_go));
        timesteps.push(copy_slots(&inputs[i].timesteps));
        i = i + 1;
    }
    let out = BatchedInput { states, actions, returns_to_go, timesteps };
    assert(out@ =~= stacked(inputs@));
    out
}

/// Stacking keeps the order and the content: a batch has one entry per input,
/// and entry `b` is input `b` in every stream.
pub proof fn lemma_stacked_keeps_inputs<SV: Copy, AV: Copy, R: Copy>(
    inputs: Seq<Input<SV, AV, R>>,
    b: int,
)
    requires
        0 <= b < inputs.len(),
    ensures
        stacked(inputs).len() == inputs.len(),
        stacked(inputs)[b] == inputs[b]@,
        stacked(inputs)[b].states == inputs[b].states@,
        stacked(inputs)[b].actions == inputs[b].actions@,
        stacked(inputs)[b].returns_to_go == inputs[b].returns_to_go@,
        stacked(inputs)[b].timesteps == inputs[b].timesteps@,
{
}

} // verus!
