//! A three-state machine in the typestate style.
//!
//! Each state of the machine is its own opaque capsule type (`First`,
//! `Second`, `Third`) holding a single private payload, and the only way to
//! obtain a capsule is to start a machine with [`state::StateMachine::new`]
//! or to call a transition operation on a capsule one already owns. Illegal
//! state sequences are therefore unrepresentable: cross-transitions consume
//! their capsule by move, and a failed transition hands the original capsule
//! back so the machine is never stranded.
//!
//! The [`driver`] module gives the decision logic of a loop that walks the
//! machine: from the current state and an injected boolean choice it says
//! which transition to take and whether the loop is to stop.

pub mod driver;
pub mod state;
