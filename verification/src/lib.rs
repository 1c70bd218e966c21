//! A minimal logging backend: records forwarded by the logging facade have
//! their rendered message written to standard output, one line each, and a
//! process-wide severity threshold decides which records are forwarded.

use vstd::prelude::*;

mod facade;
mod level;
mod sink;

pub use facade::Facade;
pub use facade::Filter;
pub use facade::RegistrationError;
pub use facade::filter_allows;
pub use facade::filter_allows_level;
pub use facade::lemma_forwarded_iff_at_or_above;
pub use facade::lemma_init_at_info_filters;
pub use facade::lemma_init_forwards_every_level;
pub use facade::lemma_set_max_governs;
pub use level::Level;
pub use level::level_passes;
pub use level::passes;
pub use level::severity;
pub use level::severity_index;
pub use sink::Sink;
pub use sink::lemma_rendered_exact;
pub use sink::render_line;
pub use sink::rendered;

verus! {

/// Relies on `log::set_max_level`: stores the given filter in the facade's
/// process-wide threshold; it returns nothing and does not panic.
#[verifier::external_body]
fn log_set_max(level: Level) {
    let filter = match level {
        Level::Error => log::LevelFilter::Error,
        Level::Warn => log::LevelFilter::Warn,
        Level::Info => log::LevelFilter::Info,
        Level::Debug => log::LevelFilter::Debug,
        Level::Trace => log::LevelFilter::Trace,
    };
    log::set_max_level(filter);
}

/// Sets the facade's process-wide severity threshold: from now on exactly
/// the records at `level` or a more severe level are forwarded to the
/// registered backend. Callable at any time and any number of times; the
/// most recent value wins. Registration is untouched, and nothing is
/// forwarded while no backend is registered. `Facade::set_max` states what
/// this does to the facade's state.
pub fn set_max(level: Level) {
    log_set_max(level);
}

/// Sets the facade's process-wide threshold to `level`, as the first half of
/// initialization. The other half, registering the sink, is the host's: the
/// facade's set-once registration slot takes an impl of the facade's backend
/// trait, an outside trait that only the host crate can implement around
/// `Sink`; a second registration is fatal there. `Facade::init_with_level`
/// states what the two halves together do to the facade's state.
pub fn init_with_level(level: Level) {
    set_max(level);
}

/// Initialization at the most permissive threshold, so every record is
/// forwarded: the same as `init_with_level` at `Trace`.
pub fn init() {
    init_with_level(Level::Trace);
}

} // verus!
