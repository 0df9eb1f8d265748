//! A reactive-value core: observable computation graphs in which values can
//! be read, combined, transformed, and watched for changes, with two-way
//! bindings whose mutations propagate to dependents.
//!
//! Every node owns its state; notification delivery is an explicit value: a
//! mutation returns a [`watcher::Notification`] recording the snapshot of
//! watcher identifiers taken at that moment and the context each of them
//! receives. The host that owns the actual callbacks dispatches those
//! deliveries in the recorded order, so a single-threaded driver loop around
//! this crate reproduces the synchronous notify-on-set discipline.

pub mod binding;
pub mod cache;
pub mod collection;
pub mod computed;
pub mod constant;
pub mod debounce;
pub mod debug;
pub mod distinct;
pub mod format;
pub mod mapped;
pub mod mapping;
pub mod project;
pub mod signal;
pub mod throttle;
pub mod utils;
pub mod watcher;
pub mod zip;

pub use binding::{binding, Binding, Container};
pub use cache::{cached, Cached};
pub use collection::{AnyCollection, Collection, List};
pub use computed::Computed;
pub use constant::{constant, Constant};
pub use debounce::Debounce;
pub use distinct::Distinct;
pub use format::{analyze_format_string, FormatSignal, Template};
pub use mapped::Mapped;
pub use project::Project;
pub use signal::{CustomBinding, Signal, WithMetadata};
pub use throttle::Throttle;
pub use zip::{zip, Zip};
