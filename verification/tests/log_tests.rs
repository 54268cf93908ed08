use bran::log::{Log, Output, ReadEvent, Stream};

const BOLD: &str = "\u{1b}[1m";
const GREEN_BOLD: &str = "\u{1b}[1;32m";
const RED_BOLD: &str = "\u{1b}[1;31m";
const RESET: &str = "\u{1b}[0m";

#[test]
fn redirected_output_is_plain_bytes() {
    let output = Output::buffered(false, false);
    let log = Log::new("host1", &output);

    let written = log.line(Stream::StdOut, "hello world\n");
    assert_eq!(written, "[host1] hello world", "the emitted line comes back verbatim");
    log.cmd("make");
    log.error("boom");
    log.success("done");

    let lines = output.captured();
    assert_eq!(lines.len(), 4);
    assert_eq!(lines[0], (Stream::StdOut, "[host1] hello world".to_string()));
    assert_eq!(lines[1], (Stream::StdOut, "[host1] $ make".to_string()));
    assert_eq!(lines[2], (Stream::StdErr, "[host1] boom".to_string()));
    assert_eq!(lines[3], (Stream::StdOut, "[host1] done".to_string()));
    for (_, line) in &lines {
        assert!(!line.contains('\u{1b}'), "redirected output must carry no escape: {:?}", line);
    }
}

#[test]
fn interactive_output_is_styled() {
    let output = Output::buffered(true, true);
    let log = Log::new("host1", &output);

    log.line(Stream::StdOut, "hello\n");
    log.cmd("make");
    log.error("boom");
    log.success("done");

    let lines = output.captured();
    assert_eq!(lines.len(), 4);
    assert_eq!(lines[0].1, format!("{}[host1]{} hello", BOLD, RESET));
    assert_eq!(lines[1].1, format!("{}[host1]{} {}$ make{}", BOLD, RESET, GREEN_BOLD, RESET));
    assert_eq!(lines[2].1, format!("{}[host1]{} {}boom{}", BOLD, RESET, RED_BOLD, RESET));
    assert_eq!(lines[3].1, format!("{}[host1]{} {}done{}", BOLD, RESET, GREEN_BOLD, RESET));
}

#[test]
fn styling_follows_each_streams_interactivity() {
    let output = Output::buffered(true, false);
    let log = Log::new("h", &output);

    log.success("ok");
    log.error("bad");

    let lines = output.captured();
    assert_eq!(lines[0], (Stream::StdOut, format!("{}[h]{} {}ok{}", BOLD, RESET, GREEN_BOLD, RESET)));
    assert_eq!(lines[1], (Stream::StdErr, "[h] bad".to_string()));
}

#[test]
fn trailing_whitespace_is_trimmed() {
    let output = Output::buffered(false, false);
    let log = Log::new("h", &output);

    log.line(Stream::StdOut, "text \t\r\n");
    log.cmd("build ");

    let lines = output.captured();
    assert_eq!(lines[0].1, "[h] text");
    assert_eq!(lines[1].1, "[h] $ build");
}

#[test]
fn interleaved_emissions_stay_whole_lines() {
    let output = Output::buffered(false, false);
    let alpha = Log::new("alpha", &output);
    let beta = Log::new("beta", &output);

    let mut expected: Vec<String> = Vec::new();
    for i in 0..50usize {
        let short = format!("s{}", i);
        let long = format!("{} long line with plenty of text to interleave {}", i, "x".repeat(i));
        alpha.line(Stream::StdOut, &short);
        expected.push(format!("[alpha] {}", short));
        beta.line(Stream::StdOut, &long);
        expected.push(format!("[beta] {}", long.trim_end()));
    }

    let lines = output.captured();
    assert_eq!(lines.len(), expected.len());
    for (got, want) in lines.iter().zip(expected.iter()) {
        assert_eq!(&got.1, want, "each rendered line matches exactly one call's text");
    }
}

#[test]
fn stream_emits_lines_until_source_ends() {
    let output = Output::buffered(false, false);
    let log = Log::new("h", &output);

    let (more, emitted) = log.stream(&ReadEvent::Line("first\n".to_string()), Stream::StdOut);
    assert!(more);
    assert_eq!(emitted, Some("[h] first".to_string()));
    assert!(log.stream(&ReadEvent::Line("second\n".to_string()), Stream::StdOut).0);
    let (more, emitted) = log.stream(&ReadEvent::Eof, Stream::StdOut);
    assert!(!more);
    assert_eq!(emitted, None);

    let lines = output.captured();
    assert_eq!(lines.len(), 2);
    assert_eq!(lines[0].1, "[h] first");
    assert_eq!(lines[1].1, "[h] second");
}

#[test]
fn stream_reports_read_errors_as_final_line() {
    let output = Output::buffered(false, false);
    let log = Log::new("h", &output);

    assert!(log.stream(&ReadEvent::Line("partial\n".to_string()), Stream::StdErr).0);
    let (more, emitted) = log.stream(&ReadEvent::Failed("broken pipe".to_string()), Stream::StdErr);
    assert!(!more);
    assert_eq!(emitted, Some("[h] broken pipe".to_string()));

    let lines = output.captured();
    assert_eq!(lines.len(), 2);
    assert_eq!(lines[1], (Stream::StdErr, "[h] broken pipe".to_string()));
}

#[test]
fn use_color_reflects_interactivity_flags() {
    let output = Output::new(true, false);
    assert!(output.use_color(Stream::StdOut));
    assert!(!output.use_color(Stream::StdErr));

    let output = Output::buffered(false, true);
    assert!(!output.use_color(Stream::StdOut));
    assert!(output.use_color(Stream::StdErr));
}
