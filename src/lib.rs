//! Transit schedule dataset lifecycle: a store holding the current dataset
//! snapshot, a scheduled reloader deciding when to rebuild and what to do with
//! the outcome, and the stop-point discovery query served from the store.
pub mod period;
pub mod dataset;
pub mod store;
pub mod reloader;
pub mod stoppoints_discovery;
