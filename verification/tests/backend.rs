use dumb_logger::Level;
use dumb_logger::Sink;
use dumb_logger::render_line;

#[test]
fn smoke_test() {
    dumb_logger::init();
    // A debug-level logging call written out as plain calls: the facade's
    // threshold check, then the record's message handed to the sink.
    if log::Level::Debug <= log::max_level() {
        Sink.log("hello world");
    }
}

#[test]
fn trace_is_filtered_at_info_threshold() {
    dumb_logger::init_with_level(Level::Info);
    assert!(log::Level::Trace > log::max_level());
    if log::Level::Trace <= log::max_level() {
        Sink.log("this won't print");
    }
}

#[test]
fn raising_the_threshold_lets_trace_print() {
    dumb_logger::init_with_level(Level::Info);
    dumb_logger::set_max(Level::Trace);
    assert!(log::Level::Trace <= log::max_level());
    if log::Level::Trace <= log::max_level() {
        Sink.log("this will print");
    }
}

#[test]
fn rendered_line_is_message_plus_newline() {
    assert_eq!(render_line("hello world"), "hello world\n");
    assert_eq!(render_line(""), "\n");
    assert_eq!(render_line("no label, no timestamp"), "no label, no timestamp\n");
}

#[test]
fn sink_is_always_enabled_and_flush_is_a_no_op() {
    let sink = Sink;
    assert!(sink.enabled());
    sink.log("this will print");
    sink.flush();
}
