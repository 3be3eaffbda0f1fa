//! The talk-script state machine as the extenders read and build it.
//!
//! The game links states, transitions and events through pointers. Here the
//! states of a state group live in one arena (`EzStateStateGroup::states`): the
//! group's own states come first, and every state that the extenders allocate
//! is appended after them. A transition names its target state by its index in
//! that arena.
use crate::stl_partial_copy::DynamicSizeSpan;
use vstd::prelude::*;

verus! {

/// A command of a talk-script event: the command bank and the command's id in it.
#[derive(Clone, Copy, PartialEq, Eq, Structural, Debug)]
pub struct EzStateEventCommand {
    pub bank: i32,
    pub id: i32,
}

/// A compiled talk-script expression: its bytecode.
pub struct EzStateExpression {
    pub bytes: DynamicSizeSpan<u8>,
}

impl View for EzStateExpression {
    type V = Seq<u8>;

    open spec fn view(&self) -> Seq<u8> {
        self.bytes@
    }
}

impl EzStateExpression {
    /// An expression with the given bytecode.
    pub fn from_static_slice(bytes: Vec<u8>) -> (r: Self)
        ensures
            r@ == bytes@,
    {
        EzStateExpression { bytes: DynamicSizeSpan::from_static_slice(bytes) }
    }

    /// The bytecode of the expression.
    pub fn as_slice(&self) -> (r: &[u8])
        ensures
            r@ == self@,
    {
        self.bytes.as_slice()
    }
}

/// What an event is, as a value: its command and the bytecode of each argument.
#[verifier::ext_equal]
pub struct EzStateEventView {
    pub command: EzStateEventCommand,
    pub arguments: Seq<Seq<u8>>,
}

/// A talk-script event: a command with its argument expressions.
pub struct EzStateEvent {
    pub command: EzStateEventCommand,
    pub arguments: DynamicSizeSpan<EzStateExpression>,
}

/// The bytecode of each expression of a sequence.
pub open spec fn expressions_view(s: Seq<EzStateExpression>) -> Seq<Seq<u8>> {
    s.map_values(|e: EzStateExpression| e@)
}

impl View for EzStateEvent {
    type V = EzStateEventView;

    open spec fn view(&self) -> EzStateEventView {
        EzStateEventView { command: self.command, arguments: expressions_view(self.arguments@) }
    }
}

/// The view of each event of a sequence.
pub open spec fn events_view(s: Seq<EzStateEvent>) -> Seq<EzStateEventView> {
    s.map_values(|e: EzStateEvent| e@)
}

/// What a transition is, as a value.
#[verifier::ext_equal]
pub struct EzStateTransitionView {
    pub target_state: Option<usize>,
    pub pass_events: Seq<EzStateEventView>,
    pub evaluator: Seq<u8>,
}

/// A transition: when its evaluator holds, the machine runs the pass events
/// and moves to the target state (an index in the state arena).
pub struct EzStateTransition {
    pub target_state: Option<usize>,
    pub pass_events: DynamicSizeSpan<EzStateEvent>,
    pub evaluator: EzStateExpression,
}

impl View for EzStateTransition {
    type V = EzStateTransitionView;

    open spec fn view(&self) -> EzStateTransitionView {
        EzStateTransitionView {
            target_state: self.target_state,
            pass_events: events_view(self.pass_events@),
            evaluator: self.evaluator@,
        }
    }
}

/// The view of each transition of a sequence.
pub open spec fn transitions_view(s: Seq<EzStateTransition>) -> Seq<EzStateTransitionView> {
    s.map_values(|t: EzStateTransition| t@)
}

/// What a state is, as a value.
#[verifier::ext_equal]
pub struct EzStateStateView {
    pub id: i32,
    pub transitions: Seq<EzStateTransitionView>,
    pub entry_events: Seq<EzStateEventView>,
    pub exit_events: Seq<EzStateEventView>,
    pub while_events: Seq<EzStateEventView>,
}

/// A state of a talk script: its id, its outgoing transitions (tried in
/// order) and the events it runs on entry, on exit and while in it.
pub struct EzStateState {
    pub id: i32,
    pub transitions: DynamicSizeSpan<EzStateTransition>,
    pub entry_events: DynamicSizeSpan<EzStateEvent>,
    pub exit_events: DynamicSizeSpan<EzStateEvent>,
    pub while_events: DynamicSizeSpan<EzStateEvent>,
}

impl View for EzStateState {
    type V = EzStateStateView;

    open spec fn view(&self) -> EzStateStateView {
        EzStateStateView {
            id: self.id,
            transitions: transitions_view(self.transitions@),
            entry_events: events_view(self.entry_events@),
            exit_events: events_view(self.exit_events@),
            while_events: events_view(self.while_events@),
        }
    }
}

/// The view of each state of a sequence.
pub open spec fn states_view(s: Seq<EzStateState>) -> Seq<EzStateStateView> {
    s.map_values(|st: EzStateState| st@)
}

/// A state group: the arena of states, of which the first
/// `group_state_count` are the group's own states and the rest were
/// allocated by the extenders, and the index of the group's initial state.
pub struct EzStateStateGroup {
    pub states: Vec<EzStateState>,
    pub group_state_count: usize,
    pub initial_state: usize,
}

/// What a state group is, as a value.
#[verifier::ext_equal]
pub struct EzStateStateGroupView {
    pub states: Seq<EzStateStateView>,
    pub group_state_count: nat,
    pub initial_state: nat,
}

impl View for EzStateStateGroup {
    type V = EzStateStateGroupView;

    open spec fn view(&self) -> EzStateStateGroupView {
        EzStateStateGroupView {
            states: states_view(self.states@),
            group_state_count: self.group_state_count as nat,
            initial_state: self.initial_state as nat,
        }
    }
}

impl EzStateStateGroupView {
    /// The initial state is one of the group's own states, which all stand
    /// in the arena.
    pub open spec fn well_formed(self) -> bool {
        &&& self.initial_state < self.group_state_count
        &&& self.group_state_count <= self.states.len()
    }
}

/// The machine that runs a state group: the group it is in.
pub struct EzStateMachineImpl {
    pub state_group: EzStateStateGroup,
}

} // verus!
