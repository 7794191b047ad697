use crossterm::error::decimal_string;
use crossterm::error::Error;

#[test]
fn decimal_rendering_is_exact() {
    assert_eq!(decimal_string(0), "0");
    assert_eq!(decimal_string(7), "7");
    assert_eq!(decimal_string(10), "10");
    assert_eq!(decimal_string(907), "907");
    assert_eq!(decimal_string(123456789), "123456789");
}

#[test]
fn messages_name_each_failure() {
    assert_eq!(Error::Io.message(), "input/output error");
    assert_eq!(Error::CouldNotParseEvent.message(), "could not parse event");
    assert_eq!(
        Error::KeyboardEnhancementStatusTimeout.message(),
        "the keyboard enhancement status could not be read within a normal duration"
    );
    assert_eq!(
        Error::CursorPositionTimeout.message(),
        "the cursor position could not be read within a normal duration"
    );
    assert_eq!(Error::InputReader.message(), "failed to initialize input reader");
    assert_eq!(Error::TerminalWidthTooSmall.message(), "terminal width must be at least 1");
    assert_eq!(Error::TerminalHeightTooSmall.message(), "terminal height must be at least 1");
    assert_eq!(Error::TerminalWidthTooLarge.message(), "terminal width too large");
    assert_eq!(Error::TerminalHeightTooLarge.message(), "terminal height too large");
    assert_eq!(
        Error::SetUnderlineColorUnsupported.message(),
        "setting the underline color is not supported"
    );
    assert_eq!(Error::BracketedPasteUnsupported.message(), "bracketed paste is not supported");
    assert_eq!(
        Error::KeyboardProgressiveEnhancementUnsupported.message(),
        "keyboard progressive enhancement is not supported"
    );
    assert_eq!(Error::Test.message(), "test");
}

#[test]
fn out_of_range_messages_carry_the_coordinate() {
    assert_eq!(Error::CursorXOutOfRange(42).message(), "cursor position X 42 is out of range");
    assert_eq!(Error::CursorYOutOfRange(0).message(), "cursor position Y 0 is out of range");
    assert_eq!(
        Error::CursorXOutOfRange(65535).message(),
        "cursor position X 65535 is out of range"
    );
}

#[test]
fn errors_compare_by_variant_and_payload() {
    assert_eq!(Error::CursorXOutOfRange(3), Error::CursorXOutOfRange(3));
    assert_ne!(Error::CursorXOutOfRange(3), Error::CursorXOutOfRange(4));
    assert_ne!(Error::TerminalWidthTooSmall, Error::TerminalHeightTooSmall);
}
