//! Model-based testing of Rust code against TLA+ specifications, through
//! Apalache and `tla_connect`.
pub mod bindings;
pub mod model_check;

pub use model_check::{
    total_states, ApalacheMBT, ApalacheModel, ApalacheSetting, InteractiveMBT, InteractiveModel,
    InteractiveSetting,
};
