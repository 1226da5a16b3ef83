//! Outputs, as far as the control plane reads them.

use vstd::prelude::*;
use crate::state::{Pinnacle, WithState};
use crate::tag::TagId;

verus! {

/// The state that the compositor keeps for an output.
#[derive(Debug)]
pub struct OutputState {
    pub tags: Vec<TagId>,
}

impl Default for OutputState {
    fn default() -> (r: Self)
        ensures
            r.tags@.len() == 0,
    {
        OutputState { tags: Vec::new() }
    }
}

/// An output.
#[derive(Debug)]
pub struct Output {
    pub name: String,
    pub state: OutputState,
}

impl Output {
    /// An output without tags.
    pub fn new(name: String) -> (r: Self)
        ensures
            r.name == name,
            r.state.tags@.len() == 0,
    {
        Output { name, state: OutputState::default() }
    }
}

impl WithState for Output {
    type State = OutputState;

    open spec fn state(&self) -> OutputState {
        self.state
    }

    open spec fn replaced(&self, state: OutputState) -> Self {
        Output { name: self.name, state }
    }

    fn with_state<F, T>(&mut self, mut func: F) -> (r: T) where
        F: FnMut(&mut Self::State) -> T,
     {
        func(&mut self.state)
    }
}

/// The name of an output.
#[derive(Debug)]
pub struct OutputName(pub String);

/// Whether an output with this name is among `outputs`.
pub open spec fn has_output(outputs: Seq<Output>, name: Seq<char>) -> bool {
    exists|i: int| 0 <= i < outputs.len() && (#[trigger] outputs[i]).name@ == name
}

/// Whether `i` is the place of the first output with this name.
pub open spec fn first_named(outputs: Seq<Output>, name: Seq<char>, i: int) -> bool {
    &&& 0 <= i < outputs.len()
    &&& outputs[i].name@ == name
    &&& forall|j: int| 0 <= j < i ==> (#[trigger] outputs[j]).name@ != name
}

impl OutputName {
    /// Finds the output with this name: the place of the first one among the
    /// compositor's outputs, `None` where there is none.
    pub fn output(&self, pinnacle: &Pinnacle) -> (r: Option<usize>)
        ensures
            match r {
                Some(i) => first_named(pinnacle.outputs@, self.0@, i as int),
                None => !has_output(pinnacle.outputs@, self.0@),
            },
    {
        let mut i: usize = 0;
        while i < pinnacle.outputs.len()
            invariant
                i <= pinnacle.outputs.len(),
                forall|j: int| 0 <= j < i ==> (#[trigger] pinnacle.outputs@[j]).name@ != self.0@,
            decreases pinnacle.outputs.len() - i,
        {
            if pinnacle.outputs[i].name == self.0 {
                return Some(i);
            }
            i = i + 1;
        }
        None
    }
}

} // verus!
