//! One place for all commands of the interface, whether they are typed, chosen from
//! the dropdown or from the command palette.
pub mod approvals;
pub mod execute;
pub mod laws;
pub mod laws_prompts;
pub mod laws_screen;
pub mod laws_state;
pub mod palette;
pub mod prompts;
pub mod registry;
pub mod sessions;
pub mod summary;
