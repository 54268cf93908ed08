//! The shared console sink: it accepts lines tagged with a caller's header,
//! renders them with the exact styling the destination stream calls for, and
//! serializes all writes through one lock so that concurrent callers never
//! interleave partial lines.
//!
//! Rendering is pure and fully specified here; only the final write to the
//! real console, and the escape-sequence styling taken from `ansi_term`, are
//! trusted.

use std::io::Write;
use std::sync::Arc;
use vstd::prelude::*;
use vstd::rwlock::{RwLock, RwLockPredicate};

verus! {

/// Which real output stream a line is destined for.
#[derive(Copy, Clone, PartialEq, Eq, Structural, Debug)]
pub enum Stream {
    StdOut,
    StdErr,
}

/// The characters with the Unicode `White_Space` property, as documented for
/// `str::trim_end`.
pub open spec fn is_unicode_whitespace(c: char) -> bool {
    let u = c as u32;
    (0x9 <= u && u <= 0xD) || u == 0x20 || u == 0x85 || u == 0xA0 || u == 0x1680 || (0x2000 <= u
        && u <= 0x200A) || u == 0x2028 || u == 0x2029 || u == 0x202F || u == 0x205F || u == 0x3000
}

/// `s` with every trailing whitespace character removed.
pub open spec fn spec_trim_end(s: Seq<char>) -> Seq<char>
    decreases s.len(),
{
    if s.len() > 0 && is_unicode_whitespace(s.last()) {
        spec_trim_end(s.drop_last())
    } else {
        s
    }
}

/// `s` wrapped in the bold and reset escape sequences.
pub open spec fn bold_wrapped(s: Seq<char>) -> Seq<char> {
    "\u{1b}[1m"@ + s + "\u{1b}[0m"@
}

/// `s` wrapped in the bold-green and reset escape sequences.
pub open spec fn green_bold_wrapped(s: Seq<char>) -> Seq<char> {
    "\u{1b}[1;32m"@ + s + "\u{1b}[0m"@
}

/// `s` wrapped in the bold-red and reset escape sequences.
pub open spec fn red_bold_wrapped(s: Seq<char>) -> Seq<char> {
    "\u{1b}[1;31m"@ + s + "\u{1b}[0m"@
}

/// The rendered `[header]` prefix: bold when the stream is interactive,
/// plain otherwise.
pub open spec fn spec_format_header(use_color: bool, header: Seq<char>) -> Seq<char> {
    let plain = "["@ + header + "]"@;
    if use_color {
        bold_wrapped(plain)
    } else {
        plain
    }
}

/// The rendered command echo `$ cmd`: green bold when interactive.
pub open spec fn spec_format_cmd(use_color: bool, cmd: Seq<char>) -> Seq<char> {
    let plain = "$ "@ + cmd;
    if use_color {
        green_bold_wrapped(plain)
    } else {
        plain
    }
}

/// The rendered error body: red bold when interactive, the text itself
/// otherwise.
pub open spec fn spec_format_error(use_color: bool, msg: Seq<char>) -> Seq<char> {
    if use_color {
        red_bold_wrapped(msg)
    } else {
        msg
    }
}

/// The rendered success body: green bold when interactive, the text itself
/// otherwise.
pub open spec fn spec_format_success(use_color: bool, msg: Seq<char>) -> Seq<char> {
    if use_color {
        green_bold_wrapped(msg)
    } else {
        msg
    }
}

/// One full rendered line: the header prefix, one space, and the body with
/// trailing whitespace removed.
pub open spec fn spec_line(use_color: bool, header: Seq<char>, msg: Seq<char>) -> Seq<char> {
    spec_format_header(use_color, header) + " "@ + spec_trim_end(msg)
}

/// Relies on `str::trim_end`: returns the string with every trailing
/// character having the Unicode `White_Space` property removed.
pub assume_specification[ str::trim_end ](s: &str) -> (r: &str)
    ensures
        r@ == spec_trim_end(s@),
;

/// Relies on `ansi_term::Style::paint` for a bold style: the output is the
/// body wrapped in the bold and reset escape sequences.
#[verifier::external_body]
fn paint_bold(s: String) -> (r: String)
    ensures
        r@ == bold_wrapped(s@),
{
    ansi_term::Style::new().bold().paint(s).to_string()
}

/// Relies on `ansi_term::Style::paint` for a bold green style: the output is
/// the body wrapped in the bold-green and reset escape sequences.
#[verifier::external_body]
fn paint_green_bold(s: String) -> (r: String)
    ensures
        r@ == green_bold_wrapped(s@),
{
    ansi_term::Colour::Green.bold().paint(s).to_string()
}

/// Relies on `ansi_term::Style::paint` for a bold red style: the output is
/// the body wrapped in the bold-red and reset escape sequences.
#[verifier::external_body]
fn paint_red_bold(s: String) -> (r: String)
    ensures
        r@ == red_bold_wrapped(s@),
{
    ansi_term::Colour::Red.bold().paint(s).to_string()
}

/// The rendered `[header]` prefix as an owned string.
pub fn format_header(use_color: bool, header: &str) -> (r: String)
    ensures
        r@ == spec_format_header(use_color, header@),
{
    let mut plain = String::from_str("[");
    plain.append(header);
    plain.append("]");
    if use_color {
        paint_bold(plain)
    } else {
        plain
    }
}

/// The rendered command echo `$ cmd` as an owned string.
pub fn format_cmd(use_color: bool, cmd: &str) -> (r: String)
    ensures
        r@ == spec_format_cmd(use_color, cmd@),
{
    let mut plain = String::from_str("$ ");
    plain.append(cmd);
    if use_color {
        paint_green_bold(plain)
    } else {
        plain
    }
}

/// The rendered error body as an owned string.
pub fn format_error(use_color: bool, msg: &str) -> (r: String)
    ensures
        r@ == spec_format_error(use_color, msg@),
{
    if use_color {
        paint_red_bold(String::from_str(msg))
    } else {
        String::from_str(msg)
    }
}

/// The rendered success body as an owned string.
pub fn format_success(use_color: bool, msg: &str) -> (r: String)
    ensures
        r@ == spec_format_success(use_color, msg@),
{
    if use_color {
        paint_green_bold(String::from_str(msg))
    } else {
        String::from_str(msg)
    }
}

/// One full rendered line, exactly as it reaches the stream (without the
/// terminating newline, which the sink appends).
pub fn render_line(use_color: bool, header: &str, msg: &str) -> (r: String)
    ensures
        r@ == spec_line(use_color, header@, msg@),
{
    let mut line = format_header(use_color, header);
    line.append(" ");
    line.append(msg.trim_end());
    line
}

/// Whether `s` is free of the character `c`.
pub open spec fn free_of(s: Seq<char>, c: char) -> bool {
    forall|i: int| 0 <= i < s.len() ==> s[i] != c
}

/// Whether `s` is free of the escape character that starts every ANSI
/// styling sequence.
pub open spec fn no_escape(s: Seq<char>) -> bool {
    free_of(s, '\u{1b}')
}

/// Whether `s` is free of newlines.
pub open spec fn no_newline(s: Seq<char>) -> bool {
    free_of(s, '\n')
}

/// Concatenation introduces no new character.
proof fn lemma_free_of_concat(a: Seq<char>, b: Seq<char>, c: char)
    requires
        free_of(a, c),
        free_of(b, c),
    ensures
        free_of(a + b, c),
{
    assert forall|i: int| 0 <= i < (a + b).len() implies (a + b)[i] != c by {
        if i < a.len() {
            assert((a + b)[i] == a[i]);
        } else {
            assert((a + b)[i] == b[i - a.len()]);
        }
    }
}

/// Trimming only ever removes characters from the end: the result is a
/// prefix of the input.
proof fn lemma_trim_end_prefix(s: Seq<char>)
    ensures
        spec_trim_end(s).len() <= s.len(),
        forall|i: int| 0 <= i < spec_trim_end(s).len() ==> spec_trim_end(s)[i] == s[i],
    decreases s.len(),
{
    if s.len() > 0 && is_unicode_whitespace(s.last()) {
        lemma_trim_end_prefix(s.drop_last());
        assert(forall|i: int| 0 <= i < s.len() - 1 ==> s.drop_last()[i] == s[i]);
    }
}

/// Trimming introduces no new character either.
proof fn lemma_free_of_trim(s: Seq<char>, c: char)
    requires
        free_of(s, c),
    ensures
        free_of(spec_trim_end(s), c),
{
    lemma_trim_end_prefix(s);
    assert forall|i: int| 0 <= i < spec_trim_end(s).len() implies spec_trim_end(s)[i] != c by {
        assert(spec_trim_end(s)[i] == s[i]);
    }
}

/// LAW (redirected output is plain): a line rendered for a non-interactive
/// stream is byte-for-byte the plain `[header] text` with the text trimmed,
/// and carries no escape sequence when header and text carry none.
pub proof fn lemma_plain_when_not_interactive(header: Seq<char>, msg: Seq<char>)
    ensures
        spec_line(false, header, msg) =~= "["@ + header + "]"@ + " "@ + spec_trim_end(msg),
        no_escape(header) && no_escape(msg) ==> no_escape(spec_line(false, header, msg)),
{
    reveal_strlit("[");
    reveal_strlit("]");
    reveal_strlit(" ");
    if no_escape(header) && no_escape(msg) {
        let esc = '\u{1b}';
        lemma_free_of_trim(msg, esc);
        lemma_free_of_concat("["@, header, esc);
        lemma_free_of_concat("["@ + header, "]"@, esc);
        lemma_free_of_concat("["@ + header + "]"@, " "@, esc);
        lemma_free_of_concat("["@ + header + "]"@ + " "@, spec_trim_end(msg), esc);
        assert(spec_line(false, header, msg) =~= "["@ + header + "]"@ + " "@
            + spec_trim_end(msg));
    }
}

/// LAW (styling only when interactive): a line rendered for an interactive
/// stream opens with the bold escape sequence around its header; the body
/// follows after a space, trimmed.
pub proof fn lemma_styled_when_interactive(header: Seq<char>, msg: Seq<char>)
    ensures
        spec_line(true, header, msg) =~= "\u{1b}[1m"@ + "["@ + header + "]"@ + "\u{1b}[0m"@
            + " "@ + spec_trim_end(msg),
        spec_line(true, header, msg)[0] == '\u{1b}',
{
    reveal_strlit("\u{1b}[1m");
    assert(spec_line(true, header, msg) =~= "\u{1b}[1m"@ + "["@ + header + "]"@ + "\u{1b}[0m"@
        + " "@ + spec_trim_end(msg));
    assert(spec_line(true, header, msg)[0] == "\u{1b}[1m"@[0]);
}

/// LAW (line integrity): a rendered line holds no newline when its header
/// and text hold none — so each emission reaches the stream as exactly one
/// console line, whatever styling applies.
pub proof fn lemma_line_integrity(use_color: bool, header: Seq<char>, msg: Seq<char>)
    requires
        no_newline(header),
        no_newline(msg),
    ensures
        no_newline(spec_line(use_color, header, msg)),
{
    reveal_strlit("[");
    reveal_strlit("]");
    reveal_strlit(" ");
    reveal_strlit("\u{1b}[1m");
    reveal_strlit("\u{1b}[0m");
    let nl = '\n';
    lemma_free_of_trim(msg, nl);
    let plain = "["@ + header + "]"@;
    lemma_free_of_concat("["@, header, nl);
    lemma_free_of_concat("["@ + header, "]"@, nl);
    if use_color {
        lemma_free_of_concat("\u{1b}[1m"@, plain, nl);
        lemma_free_of_concat("\u{1b}[1m"@ + plain, "\u{1b}[0m"@, nl);
        lemma_free_of_concat("\u{1b}[1m"@ + plain + "\u{1b}[0m"@, " "@, nl);
        lemma_free_of_concat(
            "\u{1b}[1m"@ + plain + "\u{1b}[0m"@ + " "@,
            spec_trim_end(msg),
            nl,
        );
        assert(spec_line(use_color, header, msg) =~= "\u{1b}[1m"@ + plain + "\u{1b}[0m"@ + " "@
            + spec_trim_end(msg));
    } else {
        lemma_free_of_concat(plain, " "@, nl);
        lemma_free_of_concat(plain + " "@, spec_trim_end(msg), nl);
        assert(spec_line(use_color, header, msg) =~= plain + " "@ + spec_trim_end(msg));
    }
}

/// What the sink holds behind its lock: either a pass-through to the real
/// console, or (for tests) a buffer of every line emitted.
pub struct SinkState {
    /// True when lines go to the real streams; false when they are captured.
    pub console: bool,
    /// The captured lines, in emission order, each without its terminating
    /// newline. Empty in console mode.
    pub captured: Vec<(Stream, String)>,
}

/// The (trivial) lock invariant for the sink.
pub struct SinkPred {}

impl RwLockPredicate<SinkState> for SinkPred {
    open spec fn inv(self, v: SinkState) -> bool {
        true
    }
}

/// Relies on `std::io::stdout` and the `writeln` macro: appends one line,
/// with its terminating newline, to real standard output in a single call,
/// and panics if the console cannot be written — there is no fallback sink to
/// report to, so the failure ends the calling task (and with it the whole
/// run, when it reaches the main thread). Callers hold the sink lock across
/// this call, so lines from concurrent emitters are never interleaved.
#[verifier::external_body]
fn write_stdout_line(line: &str) {
    writeln!(std::io::stdout(), "{}", line).expect("failed to write stdout");
}

/// Relies on `std::io::stderr` and the `writeln` macro: as
/// [`write_stdout_line`], for real standard error.
#[verifier::external_body]
fn write_stderr_line(line: &str) {
    writeln!(std::io::stderr(), "{}", line).expect("failed to write stderr");
}

/// Relies on `std::sync::Arc::clone`: the result is a handle to the very
/// same sink.
#[verifier::external_body]
fn clone_sink(sink: &Arc<RwLock<SinkState, SinkPred>>) -> (r: Arc<RwLock<SinkState, SinkPred>>)
    ensures
        r == *sink,
{
    Arc::clone(sink)
}

/// The process-wide output sink: the two real streams behind one lock,
/// together with the (immutable) record of whether each stream is attached
/// to an interactive display. Cloned into every execution unit; all clones
/// share the same lock.
pub struct Output {
    stdout_tty: bool,
    stderr_tty: bool,
    sink: Arc<RwLock<SinkState, SinkPred>>,
}

impl Clone for Output {
    fn clone(&self) -> (r: Self)
        ensures
            r == *self,
    {
        Output {
            stdout_tty: self.stdout_tty,
            stderr_tty: self.stderr_tty,
            sink: clone_sink(&self.sink),
        }
    }
}

impl Output {
    /// Whether the given stream was marked as attached to an interactive
    /// display when this sink was built.
    pub closed spec fn interactive(&self, stream: Stream) -> bool {
        match stream {
            Stream::StdOut => self.stdout_tty,
            Stream::StdErr => self.stderr_tty,
        }
    }

    /// A sink over the real console streams. The two flags say whether
    /// standard output and standard error are attached to an interactive
    /// display; they decide styling for the whole run.
    pub fn new(stdout_tty: bool, stderr_tty: bool) -> (r: Output)
        ensures
            r.interactive(Stream::StdOut) == stdout_tty,
            r.interactive(Stream::StdErr) == stderr_tty,
    {
        let state = SinkState { console: true, captured: Vec::new() };
        Output {
            stdout_tty,
            stderr_tty,
            sink: Arc::new(RwLock::new(state, Ghost(SinkPred {  }))),
        }
    }

    /// A sink that captures every emitted line instead of writing to the
    /// console, for observing exactly what would have been written.
    pub fn buffered(stdout_tty: bool, stderr_tty: bool) -> (r: Output)
        ensures
            r.interactive(Stream::StdOut) == stdout_tty,
            r.interactive(Stream::StdErr) == stderr_tty,
    {
        let state = SinkState { console: false, captured: Vec::new() };
        Output {
            stdout_tty,
            stderr_tty,
            sink: Arc::new(RwLock::new(state, Ghost(SinkPred {  }))),
        }
    }

    /// Whether styling is applied for lines sent to `stream`.
    pub fn use_color(&self, stream: Stream) -> (b: bool)
        ensures
            b == self.interactive(stream),
    {
        match stream {
            Stream::StdOut => self.stdout_tty,
            Stream::StdErr => self.stderr_tty,
        }
    }

    /// Emits one already-rendered line: writes it to the real stream, or
    /// captures it, holding the sink lock for the whole step so concurrent
    /// emissions never interleave.
    pub(crate) fn emit(&self, stream: Stream, line: String) {
        let (mut state, handle) = self.sink.acquire_write();
        if state.console {
            match stream {
                Stream::StdOut => write_stdout_line(line.as_str()),
                Stream::StdErr => write_stderr_line(line.as_str()),
            }
        } else {
            state.captured.push((stream, line));
        }
        handle.release_write(state);
    }

    /// A snapshot of the lines captured so far by a buffered sink (empty for
    /// a console sink), in emission order.
    pub fn captured(&self) -> Vec<(Stream, String)> {
        let read_handle = self.sink.acquire_read();
        let state = read_handle.borrow();
        let mut lines: Vec<(Stream, String)> = Vec::new();
        let mut i: usize = 0;
        while i < state.captured.len()
            invariant
                i <= state.captured.len(),
            decreases state.captured.len() - i,
        {
            let entry = &state.captured[i];
            lines.push((entry.0, entry.1.clone()));
            i = i + 1;
        }
        read_handle.release_read();
        lines
    }
}

/// A handle for one caller of the sink: carries the caller's header and a
/// clone of the shared output.
pub struct Log {
    header: String,
    output: Output,
}

/// One read from a live byte source that feeds the sink line by line.
pub enum ReadEvent {
    /// One newline-delimited line of text became available.
    Line(String),
    /// The source is exhausted.
    Eof,
    /// Reading failed; the text describes the error.
    Failed(String),
}

/// The one line that a plain emission through `output` puts on `stream`:
/// rendered with the header, styled exactly when that stream is
/// interactive.
pub open spec fn spec_log_line(o: Output, stream: Stream, header: Seq<char>, msg: Seq<char>) -> Seq<
    char,
> {
    spec_line(o.interactive(stream), header, msg)
}

/// The one line that a command echo through `output` puts on standard
/// output.
pub open spec fn spec_cmd_line(o: Output, header: Seq<char>, cmd: Seq<char>) -> Seq<char> {
    spec_log_line(
        o,
        Stream::StdOut,
        header,
        spec_format_cmd(o.interactive(Stream::StdOut), cmd),
    )
}

/// The one line that an error emission through `output` puts on standard
/// error.
pub open spec fn spec_error_line(o: Output, header: Seq<char>, msg: Seq<char>) -> Seq<char> {
    spec_log_line(
        o,
        Stream::StdErr,
        header,
        spec_format_error(o.interactive(Stream::StdErr), msg),
    )
}

/// The one line that a success emission through `output` puts on standard
/// output.
pub open spec fn spec_success_line(o: Output, header: Seq<char>, msg: Seq<char>) -> Seq<char> {
    spec_log_line(
        o,
        Stream::StdOut,
        header,
        spec_format_success(o.interactive(Stream::StdOut), msg),
    )
}

/// The lines that handling one read emits: one rendered line for a line of
/// text, one final rendered line holding the error text for a failed read,
/// nothing at the end of the source.
pub open spec fn spec_stream_text(
    o: Output,
    header: Seq<char>,
    event: ReadEvent,
    stream: Stream,
) -> Option<Seq<char>> {
    match event {
        ReadEvent::Line(text) => Some(spec_log_line(o, stream, header, text@)),
        ReadEvent::Eof => None,
        ReadEvent::Failed(msg) => Some(spec_log_line(o, stream, header, msg@)),
    }
}

/// Whether an emitted transcript matches its specified lines, stream tags
/// and text both, element by element.
pub open spec fn lines_match(
    emitted: Seq<(Stream, String)>,
    expected: Seq<(Stream, Seq<char>)>,
) -> bool {
    emitted.len() == expected.len() && forall|i: int|
        0 <= i < emitted.len() ==> #[trigger] emitted[i].0 == expected[i].0 && emitted[i].1@
            == expected[i].1
}

impl Log {
    /// The header every line from this handle is tagged with.
    pub closed spec fn header_spec(&self) -> Seq<char> {
        self.header@
    }

    /// The output sink this handle writes through.
    pub closed spec fn output_spec(&self) -> Output {
        self.output
    }

    /// A logging handle tagged with `header`, sharing `output`'s sink.
    pub fn new(header: &str, output: &Output) -> (r: Log)
        ensures
            r.header_spec() == header@,
            r.output_spec() == *output,
    {
        Log { header: String::from_str(header), output: output.clone() }
    }

    /// Emits one plain line: `[header] msg`, with the header bold when the
    /// stream is interactive and the body trimmed of trailing whitespace.
    /// The emitted line comes back to the caller, exactly as written.
    pub fn line(&self, stream: Stream, msg: &str) -> (emitted: String)
        ensures
            emitted@ == spec_log_line(self.output_spec(), stream, self.header_spec(), msg@),
    {
        let use_color = self.output.use_color(stream);
        let rendered = render_line(use_color, self.header.as_str(), msg);
        self.output.emit(stream, rendered.clone());
        rendered
    }

    /// Echoes a command on standard output: `[header] $ cmd`, green bold
    /// when interactive. The emitted line comes back to the caller.
    pub fn cmd(&self, cmd: &str) -> (emitted: String)
        ensures
            emitted@ == spec_cmd_line(self.output_spec(), self.header_spec(), cmd@),
    {
        let use_color = self.output.use_color(Stream::StdOut);
        let body = format_cmd(use_color, cmd);
        self.line(Stream::StdOut, body.as_str())
    }

    /// Emits an error line on standard error: red bold when interactive.
    /// The emitted line comes back to the caller.
    pub fn error(&self, msg: &str) -> (emitted: String)
        ensures
            emitted@ == spec_error_line(self.output_spec(), self.header_spec(), msg@),
    {
        let use_color = self.output.use_color(Stream::StdErr);
        let body = format_error(use_color, msg);
        self.line(Stream::StdErr, body.as_str())
    }

    /// Emits a success line on standard output: green bold when
    /// interactive. The emitted line comes back to the caller.
    pub fn success(&self, msg: &str) -> (emitted: String)
        ensures
            emitted@ == spec_success_line(self.output_spec(), self.header_spec(), msg@),
    {
        let use_color = self.output.use_color(Stream::StdOut);
        let body = format_success(use_color, msg);
        self.line(Stream::StdOut, body.as_str())
    }

    /// Handles one read from a live source feeding this sink: a line of
    /// text is emitted as it arrives, a read error is emitted as one final
    /// line, the end of the source emits nothing. Returns whether the
    /// caller should keep reading, and the one line emitted, if any,
    /// exactly as written.
    pub fn stream(&self, event: &ReadEvent, stream: Stream) -> (r: (bool, Option<String>))
        ensures
            r.0 == (event matches ReadEvent::Line(_)),
            match (r.1, spec_stream_text(self.output_spec(), self.header_spec(), *event, stream)) {
                (Some(s), Some(t)) => s@ == t,
                (None, None) => true,
                _ => false,
            },
    {
        match event {
            ReadEvent::Line(text) => {
                let emitted = self.line(stream, text.as_str());
                (true, Some(emitted))
            },
            ReadEvent::Eof => (false, None),
            ReadEvent::Failed(msg) => {
                let emitted = self.line(stream, msg.as_str());
                (false, Some(emitted))
            },
        }
    }
}

} // verus!
