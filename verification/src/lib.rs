//! Verified decision logic for a set of engine plugins: a cursor-grab state
//! machine, a keybinding remapper that turns raw device inputs into debounced
//! semantic action state, free-fly movement controls driven by those actions,
//! a fixed-timestep clock, and a window-mode toggle.
//!
//! The host engine's side effects (moving the OS cursor, rotating transforms,
//! scheduling systems) live outside this crate; what stands here is every
//! decision those systems make, each with a contract.

pub mod action_state;
pub mod cursor_grab;
pub mod fixed_time;
pub mod free_control;
pub mod free_controllable;
pub mod keybind;
pub mod window_mode;
