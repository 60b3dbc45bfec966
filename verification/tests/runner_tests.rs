use m3u8dl_gui::app::LogEvent;
use m3u8dl_gui::runner::{
    decode_bytes, done_event, done_message, launch_failure_events, read_step, send_chunk,
    strip_ansi,
};

#[test]
fn utf8_chinese_passes_through() {
    let bytes = "下载URL".as_bytes();
    assert_eq!(decode_bytes(bytes), "下载URL");
}

#[test]
fn gbk_chinese_decoded_via_fallback() {
    let (gbk, _, _) = encoding_rs::GBK.encode("下载URL");
    assert_eq!(decode_bytes(&gbk), "下载URL");
}

#[test]
fn strip_ansi_keeps_chinese_and_drops_escape() {
    let input = "\u{1B}[32m下载\u{1B}[0m完成";
    assert_eq!(strip_ansi(input), "下载完成");
}

#[test]
fn strip_ansi_leaves_plain_text_alone() {
    assert_eq!(strip_ansi("plain 文本 [1m"), "plain 文本 [1m");
}

#[test]
fn strip_ansi_drops_lone_escape_and_unterminated_sequence() {
    assert_eq!(strip_ansi("a\u{1B}b"), "ab");
    assert_eq!(strip_ansi("a\u{1B}[12;3"), "a");
}

#[test]
fn strip_ansi_twice_is_strip_once() {
    let s = "\u{1B}[1;31mred\u{1B}[0m \u{1B}x";
    let once = strip_ansi(s);
    assert_eq!(strip_ansi(&once), once);
    assert!(!once.contains('\u{1B}'));
}

#[test]
fn undecodable_utf8_falls_back_to_gbk() {
    // 0xC4 0xE3 is "你" in GBK and not valid UTF-8
    assert_eq!(decode_bytes(&[0xC4, 0xE3]), "你");
}

#[test]
fn send_chunk_of_empty_buffer_sends_nothing() {
    let mut buf: Vec<u8> = Vec::new();
    assert!(send_chunk(&mut buf, false).is_none());
}

#[test]
fn send_chunk_makes_a_line_and_empties_the_buffer() {
    let mut buf: Vec<u8> = b"\x1b[32mdone\r\n".to_vec();
    match send_chunk(&mut buf, false) {
        Some(LogEvent::Line(s)) => assert_eq!(s, "done"),
        _ => panic!("expected a line"),
    }
    assert!(buf.is_empty());
}

#[test]
fn send_chunk_makes_a_progress_line() {
    let mut buf: Vec<u8> = "进度 50%".as_bytes().to_vec();
    match send_chunk(&mut buf, true) {
        Some(LogEvent::Progress(s)) => assert_eq!(s, "进度 50%"),
        _ => panic!("expected a progress line"),
    }
}

#[test]
fn send_chunk_of_only_escapes_sends_nothing() {
    let mut buf: Vec<u8> = b"\x1b[0m".to_vec();
    assert!(send_chunk(&mut buf, false).is_none());
    assert!(buf.is_empty());
}

#[test]
fn read_step_buffers_until_line_feed() {
    let mut buf: Vec<u8> = Vec::new();
    assert!(read_step(&mut buf, Some(b'o')).is_none());
    assert!(read_step(&mut buf, Some(b'k')).is_none());
    assert_eq!(buf, b"ok".to_vec());
    match read_step(&mut buf, Some(b'\n')) {
        Some(LogEvent::Line(s)) => assert_eq!(s, "ok"),
        _ => panic!("expected a line"),
    }
    assert!(buf.is_empty());
}

#[test]
fn read_step_carriage_return_ends_progress_line() {
    let mut buf: Vec<u8> = b"10%".to_vec();
    match read_step(&mut buf, Some(b'\r')) {
        Some(LogEvent::Progress(s)) => assert_eq!(s, "10%"),
        _ => panic!("expected a progress line"),
    }
}

#[test]
fn read_step_end_flushes_what_is_left() {
    let mut buf: Vec<u8> = b"tail".to_vec();
    match read_step(&mut buf, None) {
        Some(LogEvent::Line(s)) => assert_eq!(s, "tail"),
        _ => panic!("expected a line"),
    }
    assert!(read_step(&mut buf, None).is_none());
}

#[test]
fn done_event_takes_exit_code() {
    assert!(matches!(done_event(Ok(Some(3))), LogEvent::Done(Ok(3))));
    assert!(matches!(done_event(Ok(None)), LogEvent::Done(Ok(0))));
    assert!(matches!(done_event(Ok(Some(-1))), LogEvent::Done(Ok(4294967295))));
    match done_event(Err("boom".to_string())) {
        LogEvent::Done(Err(e)) => assert_eq!(e, "boom"),
        _ => panic!("expected an error"),
    }
}

#[test]
fn launch_failure_sends_line_then_done() {
    let evs = launch_failure_events("not found".to_string());
    assert_eq!(evs.len(), 2);
    match &evs[0] {
        LogEvent::Line(s) => assert_eq!(s, "启动失败：not found"),
        _ => panic!("expected a line"),
    }
    match &evs[1] {
        LogEvent::Done(Err(e)) => assert_eq!(e, "not found"),
        _ => panic!("expected the end"),
    }
}

#[test]
fn done_message_texts() {
    assert_eq!(done_message(&Ok(0)), "进程结束，退出码 0\n");
    assert_eq!(done_message(&Ok(4294967295)), "进程结束，退出码 4294967295\n");
    assert_eq!(done_message(&Err("x".to_string())), "进程异常：x\n");
}
