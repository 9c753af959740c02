use tracing_wasm::recorder::StringRecorder;
use tracing_wasm::text::u64_to_dec;
use tracing_wasm::text::u64_to_hex;

#[test]
fn fields_without_message_in_order() {
    let mut rec = StringRecorder::new();
    rec.record_debug("a", "1");
    assert_eq!(rec.text, " a = 1;");
    rec.record_debug("b", "2");
    assert_eq!(rec.text, " a = 1;\nb = 2;");
    rec.record_debug("c", "3");
    assert_eq!(rec.text, " a = 1;\nb = 2;\nc = 3;");
}

#[test]
fn message_hoisted_to_front() {
    let mut rec = StringRecorder::new();
    rec.record_debug("a", "1");
    rec.record_debug("message", "\"hi\"");
    rec.record_debug("b", "2");
    assert_eq!(rec.text, "\"hi\"\n a = 1;\nb = 2;");
}

#[test]
fn message_only() {
    let mut rec = StringRecorder::new();
    rec.record_debug("message", "\"hello\"");
    assert_eq!(rec.text, "\"hello\"");
    assert_eq!(rec.formatted_text(), " \"hello\"");
}

#[test]
fn message_first_then_fields() {
    let mut rec = StringRecorder::new();
    rec.record_debug("message", "\"go\"");
    rec.record_debug("a", "1");
    assert_eq!(rec.text, "\"go\" a = 1;");
}

#[test]
fn empty_recorder_formats_to_empty() {
    let rec = StringRecorder::new();
    assert_eq!(rec.formatted_text(), "");
}

#[test]
fn nonempty_recorder_formats_with_leading_space() {
    let mut rec = StringRecorder::new();
    rec.record_debug("k", "\"v\"");
    assert_eq!(rec.formatted_text(), "  k = \"v\";");
}

#[test]
fn hex_rendering() {
    assert_eq!(u64_to_hex(0), "0");
    assert_eq!(u64_to_hex(10), "a");
    assert_eq!(u64_to_hex(255), "ff");
    assert_eq!(u64_to_hex(0xdeadbeef), "deadbeef");
    assert_eq!(u64_to_hex(u64::MAX), "ffffffffffffffff");
}

#[test]
fn dec_rendering() {
    assert_eq!(u64_to_dec(0), "0");
    assert_eq!(u64_to_dec(7), "7");
    assert_eq!(u64_to_dec(12345), "12345");
    assert_eq!(u64_to_dec(1000000), "1000000");
}
