//! The entry points against the real facade. These asserts read the global
//! threshold back through the facade, so they sit in one test function of
//! their own file: the global is process-wide.

use dumb_logger::Level;

#[test]
fn entry_points_set_the_facade_threshold() {
    dumb_logger::set_max(Level::Info);
    assert_eq!(log::max_level(), log::LevelFilter::Info);

    dumb_logger::set_max(Level::Error);
    dumb_logger::set_max(Level::Warn);
    assert_eq!(log::max_level(), log::LevelFilter::Warn);

    dumb_logger::init_with_level(Level::Debug);
    assert_eq!(log::max_level(), log::LevelFilter::Debug);

    dumb_logger::init();
    assert_eq!(log::max_level(), log::LevelFilter::Trace);
}
