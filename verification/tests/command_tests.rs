use crossterm::command::execute_fmt;
use crossterm::command::write_command_ansi;
use crossterm::command::Capabilities;
use crossterm::command::ExecutableCommand;
use crossterm::command::QueueableCommand;
use crossterm::command::SynchronizedUpdate;
use crossterm::console::MemoryConsole;
use crossterm::console::ScreenInfo;
use crossterm::error::Error;
use crossterm::sink::BufferSink;
use crossterm::sink::FailingSink;
use crossterm::sink::Sink;
use crossterm::terminal::BeginSynchronizedUpdate;
use crossterm::terminal::EndSynchronizedUpdate;

const BEGIN_SYNC: &[u8] = b"\x1B[?2026h";
const END_SYNC: &[u8] = b"\x1B[?2026l";

fn plain_console() -> MemoryConsole {
    MemoryConsole::new(
        ScreenInfo {
            buffer_width: 80,
            buffer_height: 25,
            window_left: 0,
            window_top: 0,
            window_right: 79,
            window_bottom: 24,
            cursor_x: 0,
            cursor_y: 0,
            attribute: 7,
        },
        7,
        500,
        500,
    )
}

#[test]
fn queue_appends_ansi_bytes_without_flushing() {
    let mut console = plain_console();
    let caps = Capabilities::new(true);
    let mut sink = BufferSink::new();

    sink.queue(&mut console, &caps, BeginSynchronizedUpdate).unwrap();
    sink.queue(&mut console, &caps, EndSynchronizedUpdate).unwrap();

    let mut expected = BEGIN_SYNC.to_vec();
    expected.extend_from_slice(END_SYNC);
    assert_eq!(sink.data, expected);
    assert_eq!(sink.flush_count, 0);
}

#[test]
fn queue_on_a_legacy_terminal_flushes_pending_bytes_first() {
    let mut console = plain_console();
    let caps = Capabilities::new(false);
    let mut sink = BufferSink::new();
    sink.write_all(b"pending").unwrap();

    sink.queue(&mut console, &caps, BeginSynchronizedUpdate).unwrap();

    // nothing appended: the command took the native path, and the bytes
    // already queued were flushed first to preserve program order
    assert_eq!(sink.data, b"pending");
    assert_eq!(sink.flush_count, 1);
}

#[test]
fn execute_flushes_once_on_the_ansi_path() {
    let mut console = plain_console();
    let caps = Capabilities::new(true);
    let mut sink = BufferSink::new();

    sink.execute(&mut console, &caps, BeginSynchronizedUpdate).unwrap();

    assert_eq!(sink.data, BEGIN_SYNC);
    assert_eq!(sink.flush_count, 1);
}

#[test]
fn execute_flushes_once_more_than_the_native_fallbacks_taken() {
    let mut console = plain_console();
    let caps = Capabilities::new(false);
    let mut sink = BufferSink::new();

    // one native fallback is taken, so two flushes happen in all
    sink.execute(&mut console, &caps, BeginSynchronizedUpdate).unwrap();

    assert_eq!(sink.data, b"");
    assert_eq!(sink.flush_count, 2);
}

#[test]
fn sync_update_brackets_the_work_and_flushes() {
    let mut console = plain_console();
    let caps = Capabilities::new(true);
    let sink = BufferSink::new();

    let (sink, result) = sink.sync_update(&mut console, &caps, |mut s: BufferSink| {
        let write_result = s.write_all(b"body bytes");
        (s, write_result)
    });
    result.unwrap().unwrap();

    let mut expected = BEGIN_SYNC.to_vec();
    expected.extend_from_slice(b"body bytes");
    expected.extend_from_slice(END_SYNC);
    assert_eq!(sink.data, expected);
    assert_eq!(sink.flush_count, 1);
}

#[test]
fn sync_update_passes_the_work_result_through() {
    let mut console = plain_console();
    let caps = Capabilities::new(true);
    let sink = BufferSink::new();

    let (sink, result) = sink.sync_update(&mut console, &caps, |s: BufferSink| (s, 42usize));

    assert_eq!(result.unwrap(), 42);
    let mut expected = BEGIN_SYNC.to_vec();
    expected.extend_from_slice(END_SYNC);
    assert_eq!(sink.data, expected);
}

#[test]
fn sync_update_still_ends_the_window_when_the_work_fails() {
    let mut console = plain_console();
    let caps = Capabilities::new(true);
    let sink = BufferSink::new();

    let (sink, result) = sink.sync_update(&mut console, &caps, |s: BufferSink| {
        // the work decides to fail without writing anything
        (s, Err::<(), Error>(Error::Test))
    });

    // the failure is passed through, and the end marker with its flush
    // still went out after the work
    assert_eq!(result.unwrap(), Err(Error::Test));
    let mut expected = BEGIN_SYNC.to_vec();
    expected.extend_from_slice(END_SYNC);
    assert_eq!(sink.data, expected);
    assert_eq!(sink.flush_count, 1);
}

#[test]
fn sync_update_attempts_the_end_marker_on_a_sink_that_fails_mid_way() {
    let mut console = plain_console();
    let caps = Capabilities::new(true);
    // enough budget for the begin marker and the work, nothing more
    let sink = FailingSink::new(2);

    let (sink, result) = sink.sync_update(&mut console, &caps, |mut s: FailingSink| {
        let write_result = s.write_all(b"mid");
        (s, write_result)
    });

    // the end marker's own failure is what comes back
    assert_eq!(result, Err(Error::Io));

    // delivered: begin marker and the work's bytes
    let mut delivered = BEGIN_SYNC.to_vec();
    delivered.extend_from_slice(b"mid");
    assert_eq!(sink.data, delivered);

    // but the end marker was still attempted, after everything else
    let mut attempted = delivered.clone();
    attempted.extend_from_slice(END_SYNC);
    assert_eq!(sink.attempt_log, attempted);
}

#[test]
fn write_command_ansi_renders_without_flushing() {
    let mut sink = BufferSink::new();
    write_command_ansi(&mut sink, EndSynchronizedUpdate).unwrap();
    assert_eq!(sink.data, END_SYNC);
    assert_eq!(sink.flush_count, 0);
}

#[test]
fn execute_fmt_renders_into_the_buffer_when_ansi_is_viable() {
    let mut console = plain_console();
    let caps = Capabilities::new(true);
    let mut buffer: Vec<u8> = Vec::new();
    execute_fmt(&mut buffer, &mut console, &caps, BeginSynchronizedUpdate).unwrap();
    assert_eq!(buffer, BEGIN_SYNC);
}

#[test]
fn execute_fmt_takes_the_native_path_on_a_legacy_terminal() {
    let mut console = plain_console();
    let caps = Capabilities::new(false);
    let mut buffer: Vec<u8> = Vec::new();
    execute_fmt(&mut buffer, &mut console, &caps, BeginSynchronizedUpdate).unwrap();
    // the synchronized-update markers have no native effect: a graceful no-op
    assert_eq!(buffer, b"");
    assert!(console.fills().is_empty());
}

#[test]
fn commands_can_be_dispatched_by_reference() {
    let mut console = plain_console();
    let caps = Capabilities::new(true);
    let mut sink = BufferSink::new();
    let command = BeginSynchronizedUpdate;
    sink.queue(&mut console, &caps, &command).unwrap();
    assert_eq!(sink.data, BEGIN_SYNC);
}
