//! A runtime kernel that keeps a long-lived simulation world and a bag of
//! typed global state alive across in-process reloads of the native code
//! that mutates them.
//!
//! The kernel has three parts: a type-erased state store keyed by runtime
//! type identity, a tick scheduler that invokes named system functions each
//! frame and drains their deferred world commands afterwards, and a module
//! loader state machine that detects stale on-disk artifacts and swaps the
//! live code handle without losing accumulated state.

mod digits;
mod ecs;
mod errors;
mod ids;
mod loader;
mod scheduler;
mod state_store;

pub use digits::u64_to_dec;
pub use errors::EngineError;
pub use errors::LoadError;
pub use errors::SystemError;
pub use ids::EditorPlayMode;
pub use ids::IdAllocator;
pub use ids::InstanceID;
pub use ids::NodeID;
pub use loader::GameplayLib;
pub use loader::artifact_filename;
pub use loader::check_build_id;
pub use loader::versioned_filename;
pub use scheduler::Engine;
pub use scheduler::PendingCommands;
pub use scheduler::SystemFailure;
pub use scheduler::SystemFn;
pub use scheduler::TickData;
pub use scheduler::TickReport;
pub use scheduler::lemma_failed_tick_skips_later_systems;
pub use scheduler::lemma_reload_preserves_state;
pub use scheduler::lemma_reregistration_replaces;
pub use scheduler::register_effect;
pub use scheduler::report_matches;
pub use state_store::AnyValue;
pub use state_store::StateManager;
pub use state_store::lemma_empty_store_has_no_state;
pub use state_store::lemma_state_last_write_wins;
