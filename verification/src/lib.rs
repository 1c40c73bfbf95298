//! Sliding-window training sequences for a return-conditioned sequence model.
//!
//! A trajectory of states and actions is turned into one fixed-length context
//! window per timestep (states, actions, returns-to-go, timesteps), and windows
//! are stacked into batches.  Rewards are exact integers; every function here is
//! verified against a mathematical model of what it returns.  The timesteps of
//! a batch can be handed on as a dfdx tensor.

pub mod batch;
pub mod error;
pub mod reward_to_go;
pub mod sequence;
pub mod tensor;
pub mod window;
