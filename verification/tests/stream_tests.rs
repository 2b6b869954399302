use fyla::config::Provider;
use fyla::events::{NamingSession, StreamEvent};
use fyla::stream::{NdjsonStream, SseStream};

fn thinking(file: &str) -> StreamEvent {
    StreamEvent::Thinking { file_name: file.to_string() }
}

fn partial(file: &str, text: &str) -> StreamEvent {
    StreamEvent::Partial { file_name: file.to_string(), partial: text.to_string() }
}

#[test]
fn pieces_of_the_local_stream_add_up() {
    let mut stream = NdjsonStream::new();
    assert_eq!(stream.feed(b"{\"message\":{\"content\":\"A\"}}\n"), vec!["A".to_string()]);
    assert_eq!(stream.feed(b"{\"message\":{\"content\":\"B\"}}\n"), vec!["AB".to_string()]);
    assert_eq!(stream.finish(), "AB");
}

#[test]
fn lines_of_the_local_stream_may_span_chunks() {
    let mut stream = NdjsonStream::new();
    assert_eq!(stream.feed(b"{\"message\":{\"con"), Vec::<String>::new());
    assert_eq!(stream.feed(b"tent\":\"inv\"}}\n{\"message\":{\"content\":\"oice\"}}\n\n{\"done\":true}\n{\"mess"), vec!["inv".to_string(), "invoice".to_string()]);
    assert_eq!(stream.feed(b"age\":{\"content\":\"-\xe4\xb8"), Vec::<String>::new());
    assert_eq!(stream.feed(b"\xad\"}}\r\n"), vec!["invoice-中".to_string()]);
    assert_eq!(stream.finish(), "invoice-中");
}

#[test]
fn the_last_line_of_the_local_stream_needs_no_line_feed() {
    let mut stream = NdjsonStream::new();
    assert_eq!(stream.feed(b"{\"message\":{\"content\":\"a\"}}\n{\"message\":{\"content\":\"b\"}}"), vec!["a".to_string()]);
    assert_eq!(stream.finish(), "ab");
    let mut junk = NdjsonStream::new();
    assert_eq!(junk.feed(b"garbage\n  \n{\"message\":{}}\nx"), Vec::<String>::new());
    assert_eq!(junk.finish(), "");
    assert_eq!(NdjsonStream::new().finish(), "");
}

#[test]
fn events_of_the_hosted_stream_add_up() {
    let mut stream = SseStream::new();
    let got = stream.feed(
        b"data: {\"choices\":[{\"delta\":{\"role\":\"assistant\"}}]}\n\ndata: {\"choices\":[{\"delta\":{\"content\":\"He\"}}]}\n\ndata: {\"choices\":[{\"delta\":{\"content\":\"llo\"}}]}\n\n",
    );
    assert_eq!(got, vec!["He".to_string(), "Hello".to_string()]);
    assert_eq!(stream.feed(b": comment\nevent: x\ndata: [DONE]\n\n"), Vec::<String>::new());
    assert_eq!(stream.finish(), "Hello");
}

fn delta(piece: &str) -> String {
    format!("data: {{\"choices\":[{{\"delta\":{{\"content\":\"{}\"}}}}]}}\n", piece)
}

#[test]
fn the_hosted_stream_ends_at_its_end_mark() {
    let lines = [delta("A"), delta("B"), "data: [DONE]\n".to_string(), delta("C")];
    let mut stream = SseStream::new();
    assert!(!stream.is_done());
    assert_eq!(stream.feed(lines[0].as_bytes()), vec!["A".to_string()]);
    assert_eq!(stream.feed(lines[1].as_bytes()), vec!["AB".to_string()]);
    assert!(!stream.is_done());
    assert_eq!(stream.feed(lines[2].as_bytes()), Vec::<String>::new());
    assert!(stream.is_done());
    assert_eq!(stream.feed(lines[3].as_bytes()), Vec::<String>::new());
    assert_eq!(stream.feed(b""), Vec::<String>::new());
    assert!(stream.is_done());
    assert_eq!(stream.finish(), "AB");
}

#[test]
fn the_hosted_stream_ends_at_its_end_mark_however_it_is_cut() {
    let whole: String = [delta("A"), "\n".to_string(), delta("B"), "event: x\n".to_string(), "data: [DONE]\n".to_string(), delta("C"), "data: [DONE]\n".to_string(), delta("D")].concat();
    let bytes = whole.as_bytes();
    for size in 1..=bytes.len() {
        let mut stream = SseStream::new();
        let mut partials = Vec::new();
        for chunk in bytes.chunks(size) {
            partials.extend(stream.feed(chunk));
        }
        assert_eq!(partials, vec!["A".to_string(), "AB".to_string()], "chunks of {}", size);
        assert!(stream.is_done());
        assert_eq!(stream.finish(), "AB", "chunks of {}", size);
    }
}

#[test]
fn a_hosted_stream_without_an_end_mark_is_not_done() {
    let mut stream = SseStream::new();
    assert_eq!(stream.feed(delta("A").as_bytes()), vec!["A".to_string()]);
    assert_eq!(stream.feed(b"data: [DONE]"), Vec::<String>::new());
    assert!(!stream.is_done());
    assert_eq!(stream.feed(b"\r\n"), Vec::<String>::new());
    assert!(stream.is_done());
    assert_eq!(stream.finish(), "A");
}

#[test]
fn an_unfinished_line_of_the_hosted_stream_is_not_read() {
    let mut stream = SseStream::new();
    assert_eq!(stream.feed(b"data: {\"choices\":[{\"delta\":{\"content\":\"a\"}}]}"), Vec::<String>::new());
    assert_eq!(stream.finish(), "");
    let mut split = SseStream::new();
    assert_eq!(split.feed(b"data: {\"choices\":[{\"delta\":{\"con"), Vec::<String>::new());
    assert_eq!(split.feed(b"tent\":\"ok\"}}]}\r\n"), vec!["ok".to_string()]);
    assert_eq!(split.finish(), "ok");
}

#[test]
fn a_session_reports_thinking_partials_and_one_end() {
    let (session, first) = NamingSession::open("scan.pdf", Provider::Local);
    assert_eq!(first, thinking("scan.pdf"));
    let (session, events) = session.feed(b"{\"message\":{\"content\":\"Acme-\"}}\n{\"message\":{\"content\":\"Invoice.pdf\"}}\n");
    assert_eq!(events, vec![partial("scan.pdf", "Acme-"), partial("scan.pdf", "Acme-Invoice.pdf")]);
    let (session, events) = session.feed(b"\n");
    assert_eq!(events, vec![]);
    let last = session.close(None);
    assert_eq!(last, StreamEvent::Done { file_name: "scan.pdf".to_string(), suggested: "Acme-Invoice".to_string() });
}

#[test]
fn a_hosted_session_decodes_events() {
    let (session, first) = NamingSession::open("photo.JPG", Provider::Hosted);
    assert_eq!(first, thinking("photo.JPG"));
    assert!(!session.is_done());
    let (session, events) = session.feed(b"data: {\"choices\":[{\"delta\":{\"content\":\"\\\"Sunset/Beach\\\"\"}}]}\n\ndata: [DONE]\n");
    assert_eq!(events, vec![partial("photo.JPG", "\"Sunset/Beach\"")]);
    assert!(session.is_done());
    let (session, events) = session.feed(b"data: {\"choices\":[{\"delta\":{\"content\":\"more\"}}]}\n");
    assert_eq!(events, vec![]);
    assert_eq!(
        session.close(None),
        StreamEvent::Done { file_name: "photo.JPG".to_string(), suggested: "Sunset-Beach".to_string() }
    );
}

#[test]
fn a_session_that_fails_ends_in_an_error() {
    let (session, _) = NamingSession::open("a.docx", Provider::Local);
    assert_eq!(
        session.close(Some("不支持的文件格式: .xyz")),
        StreamEvent::Error { file_name: "a.docx".to_string(), message: "不支持的文件格式: .xyz".to_string() }
    );
    let (streaming, _) = NamingSession::open("a.docx", Provider::Local);
    let (streaming, events) = streaming.feed(b"{\"message\":{\"content\":\"half\"}}\n");
    assert_eq!(events.len(), 1);
    assert_eq!(
        streaming.close(Some("流读取错误: reset")),
        StreamEvent::Error { file_name: "a.docx".to_string(), message: "流读取错误: reset".to_string() }
    );
}

#[test]
fn a_session_without_a_name_ends_in_an_error() {
    let (session, _) = NamingSession::open("a.docx", Provider::Local);
    let (session, events) = session.feed(b"{\"message\":{\"content\":\" .docx \"}}\n");
    assert_eq!(events, vec![partial("a.docx", " .docx ")]);
    assert_eq!(
        session.close(None),
        StreamEvent::Error { file_name: "a.docx".to_string(), message: "AI 返回了空文件名".to_string() }
    );
}

#[test]
fn bytes_that_are_no_text_do_not_stop_a_stream() {
    let mut local = NdjsonStream::new();
    assert_eq!(local.feed(b"\xff\xfe\n{\"message\":{\"content\":\"ok\"}}\n"), vec!["ok".to_string()]);
    assert_eq!(local.finish(), "ok");
    let mut hosted = SseStream::new();
    assert_eq!(hosted.feed(b"data: \xff\n"), Vec::<String>::new());
    assert_eq!(hosted.feed(b"data: {\"choices\":[{\"delta\":{\"content\":\"\xe4\xb8\xad\"}}]}\n"), vec!["中".to_string()]);
    assert_eq!(hosted.feed(b"data: {\"choices\":[{\"delta\":{\"content\":\"\xe4"), Vec::<String>::new());
    assert_eq!(hosted.feed(b"\xb8\xad\"}}]}\n"), vec!["中\u{fffd}\u{fffd}\u{fffd}".to_string()]);
    assert_eq!(hosted.finish(), "中\u{fffd}\u{fffd}\u{fffd}");
}

#[test]
fn the_local_stream_does_not_depend_on_where_it_is_cut() {
    let whole: &[u8] = b"{\"message\":{\"content\":\"in\"}}\n\n{\"x\":1}\n{\"message\":{\"content\":\"voice-\xe4\xb8\xad\"}}\r\n{\"message\":{\"content\":\"!\"}}";
    let mut at_once = NdjsonStream::new();
    let expected = at_once.feed(whole);
    assert_eq!(expected, vec!["in".to_string(), "invoice-中".to_string()]);
    let expected_end = at_once.finish();
    assert_eq!(expected_end, "invoice-中!");
    for size in 1..=whole.len() {
        let mut stream = NdjsonStream::new();
        let mut partials = Vec::new();
        for chunk in whole.chunks(size) {
            partials.extend(stream.feed(chunk));
        }
        assert_eq!(partials, expected, "chunks of {}", size);
        assert_eq!(stream.finish(), expected_end, "chunks of {}", size);
    }
}
