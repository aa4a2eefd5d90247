//! The input adapters: the data each one is configured with, and the pure
//! decisions their read loops make. The loops themselves — sockets,
//! files, child processes, the races against the cancellation signal —
//! belong to the embedding program, which feeds every read through the
//! step functions here.
use crate::config::InputConfig;
use crate::text::{chars_vec, crlf_start, push_char, strip_crlf, trim_bounds, trim_spaces};
use vstd::prelude::*;

verus! {

/// Trims trailing CR/LF and discards the line if nothing is left: the
/// shared boundary rule of every line-oriented adapter.
pub fn clean_line(raw: &str) -> (r: Option<String>)
    ensures
        r is Some <==> strip_crlf(raw@).len() > 0,
        r matches Some(l) ==> l@ == strip_crlf(raw@),
{
    let v = chars_vec(raw);
    let k = crlf_start(&v);
    if k == 0 {
        None
    } else {
        Some(raw.substring_char(0, k).to_owned())
    }
}

/// What a line-oriented adapter does with one read: end on end-of-input,
/// skip an empty line, or emit the cleaned line.
#[derive(Debug, PartialEq, Eq)]
pub enum ReadStep {
    /// Zero bytes read: the source is exhausted.
    Stop,
    /// The line is empty after trimming: drop it and read on.
    Skip,
    /// Emit an event carrying this cleaned line.
    Emit(String),
}

/// The decision for one `read_line` outcome, shared by the stdin, TCP
/// connection, child-process and event-log readers.
pub fn line_read_step(read_len: usize, raw: &str) -> (r: ReadStep)
    ensures
        read_len == 0 ==> r == ReadStep::Stop,
        read_len > 0 && strip_crlf(raw@).len() == 0 ==> r == ReadStep::Skip,
        read_len > 0 ==> (r matches ReadStep::Emit(l) ==> l@ == strip_crlf(raw@)),
        read_len > 0 && strip_crlf(raw@).len() > 0 ==> r is Emit,
{
    if read_len == 0 {
        return ReadStep::Stop;
    }
    match clean_line(raw) {
        Some(l) => ReadStep::Emit(l),
        None => ReadStep::Skip,
    }
}

/// What the file tail does with one read: on temporary end-of-file it
/// waits one poll interval and reads again from the same handle.
#[derive(Debug, PartialEq, Eq)]
pub enum TailStep {
    /// Zero bytes read: sleep for the poll interval, then try again.
    PollWait,
    /// The line is empty after trimming: drop it and read on.
    Skip,
    /// Emit an event carrying this cleaned line.
    Emit(String),
}

/// The decision for one file-tail `read_line` outcome.
pub fn tail_read_step(read_len: usize, raw: &str) -> (r: TailStep)
    ensures
        read_len == 0 ==> r == TailStep::PollWait,
        read_len > 0 && strip_crlf(raw@).len() == 0 ==> r == TailStep::Skip,
        read_len > 0 ==> (r matches TailStep::Emit(l) ==> l@ == strip_crlf(raw@)),
        read_len > 0 && strip_crlf(raw@).len() > 0 ==> r is Emit,
{
    if read_len == 0 {
        return TailStep::PollWait;
    }
    match clean_line(raw) {
        Some(l) => TailStep::Emit(l),
        None => TailStep::Skip,
    }
}

/// What the characters of a datagram decode to, as
/// `String::from_utf8_lossy` reads them. A function of the bytes alone.
pub uninterp spec fn utf8_lossy_of(bs: Seq<u8>) -> Seq<char>;

/// Relies on `String::from_utf8_lossy`: decodes the first `len` bytes,
/// substituting the replacement character for invalid UTF-8.
#[verifier::external_body]
fn utf8_lossy_prefix(buf: &Vec<u8>, len: usize) -> (r: String)
    requires
        len <= buf@.len(),
    ensures
        r@ == utf8_lossy_of(buf@.take(len as int)),
{
    String::from_utf8_lossy(&buf[..len]).into_owned()
}

/// The text one datagram contributes: its bytes decoded lossily, with
/// surrounding white space trimmed.
pub open spec fn udp_payload_spec(bytes: Seq<u8>, len: int) -> Seq<char> {
    trim_spaces(utf8_lossy_of(bytes.take(len)))
}

/// Turns the first `len` bytes of a received datagram into at most one
/// event payload: decode lossily, trim, and drop an empty result. No
/// line splitting — one datagram is one event.
pub fn udp_payload(buf: &Vec<u8>, len: usize) -> (r: Option<String>)
    requires
        len <= buf@.len(),
    ensures
        r is Some <==> udp_payload_spec(buf@, len as int).len() > 0,
        r matches Some(p) ==> p@ == udp_payload_spec(buf@, len as int),
{
    let s = utf8_lossy_prefix(buf, len);
    let v = chars_vec(s.as_str());
    let (a, b) = trim_bounds(&v);
    if a == b {
        None
    } else {
        Some(s.as_str().substring_char(a, b).to_owned())
    }
}

/// `{base}:{peer}` — the source tag of one accepted connection or one
/// received datagram.
pub fn peer_source(base: &str, peer: &str) -> (r: String)
    ensures
        r@ == base@ + ":"@ + peer@,
{
    let mut out = String::from_str(base);
    out.append(":");
    out.append(peer);
    proof {
        assert(out@ =~= base@ + ":"@ + peer@);
    }
    out
}

/// `{base}:stdout` or `{base}:stderr` — the source tag of one child
/// process stream.
pub fn stream_source(base: &str, stderr: bool) -> (r: String)
    ensures
        !stderr ==> r@ == base@ + ":stdout"@,
        stderr ==> r@ == base@ + ":stderr"@,
{
    let mut out = String::from_str(base);
    if stderr {
        out.append(":stderr");
    } else {
        out.append(":stdout");
    }
    out
}

/// The source name an input reports when none is configured.
pub open spec fn default_source_name(c: InputConfig) -> Seq<char> {
    match c {
        InputConfig::Stdin { name } => spec_or_name(name, "stdin"@),
        InputConfig::FileTail { path, name, .. } => spec_or_name(name, path@),
        InputConfig::TcpListener { name, .. } => spec_or_name(name, "tcp"@),
        InputConfig::UdpListener { name, .. } => spec_or_name(name, "udp"@),
        InputConfig::Process { program, name, .. } => spec_or_name(name, program@),
        InputConfig::Journald { name, .. } => spec_or_name(name, "journald"@),
        InputConfig::WindowsEventLog { log, name } => spec_or_name(name, "windows-"@ + log@),
    }
}

pub open spec fn spec_or_name(name: Option<String>, d: Seq<char>) -> Seq<char> {
    match name {
        Some(n) => n@,
        None => d,
    }
}

/// The source tag events from this input will carry: the configured name
/// where one is set, else a kind-specific default.
pub fn input_source_name(c: &InputConfig) -> (r: String)
    ensures
        r@ == default_source_name(*c),
{
    match c {
        InputConfig::Stdin { name } => or_name(name, "stdin"),
        InputConfig::FileTail { path, name, .. } => match name {
            Some(n) => n.clone(),
            None => path.clone(),
        },
        InputConfig::TcpListener { name, .. } => or_name(name, "tcp"),
        InputConfig::UdpListener { name, .. } => or_name(name, "udp"),
        InputConfig::Process { program, name, .. } => match name {
            Some(n) => n.clone(),
            None => program.clone(),
        },
        InputConfig::Journald { name, .. } => or_name(name, "journald"),
        InputConfig::WindowsEventLog { log, name } => match name {
            Some(n) => n.clone(),
            None => {
                let mut out = String::from_str("windows-");
                out.append(log.as_str());
                out
            },
        },
    }
}

fn or_name(name: &Option<String>, d: &str) -> (r: String)
    ensures
        r@ == spec_or_name(*name, d@),
{
    match name {
        Some(n) => n.clone(),
        None => String::from_str(d),
    }
}

/// Reads standard input line by line until end-of-input or shutdown.
pub struct StdinInput {
    pub source: String,
}

impl StdinInput {
    pub fn new(source: String) -> (r: StdinInput)
        ensures
            r.source == source,
    {
        StdinInput { source }
    }
}

/// Follows one file, polling on temporary end-of-file. The file is
/// opened once and never reopened or re-examined, so truncation,
/// rotation and inode replacement go undetected; this keeps the follower
/// free of re-open races and is the documented trade-off here.
pub struct FileTailInput {
    pub path: String,
    pub source: String,
    pub read_from_beginning: bool,
    pub poll_interval_ms: u64,
}

impl FileTailInput {
    /// The poll interval is floored at 100 ms.
    pub fn new(path: String, source: String, read_from_beginning: bool, poll_interval_ms: u64) -> (r:
        FileTailInput)
        ensures
            r.path == path,
            r.source == source,
            r.read_from_beginning == read_from_beginning,
            r.poll_interval_ms == (if poll_interval_ms >= 100 {
                poll_interval_ms as int
            } else {
                100
            }),
    {
        let ms = if poll_interval_ms >= 100 {
            poll_interval_ms
        } else {
            100
        };
        FileTailInput { path, source, read_from_beginning, poll_interval_ms: ms }
    }
}

/// Accepts TCP connections and reads newline-delimited text from each.
pub struct TcpListenerInput {
    pub bind: String,
    pub source: String,
}

impl TcpListenerInput {
    pub fn new(bind: String, source: String) -> (r: TcpListenerInput)
        ensures
            r.bind == bind,
            r.source == source,
    {
        TcpListenerInput { bind, source }
    }
}

/// Receives datagrams; each one becomes at most one event.
pub struct UdpListenerInput {
    pub bind: String,
    pub source: String,
}

impl UdpListenerInput {
    pub fn new(bind: String, source: String) -> (r: UdpListenerInput)
        ensures
            r.bind == bind,
            r.source == source,
    {
        UdpListenerInput { bind, source }
    }
}

/// Spawns a child process and reads its standard output and standard
/// error as two independent line streams.
pub struct ProcessInput {
    pub program: String,
    pub args: Vec<String>,
    pub source: String,
}

impl ProcessInput {
    pub fn new(program: String, args: Vec<String>, source: String) -> (r: ProcessInput)
        ensures
            r.program == program,
            r.args == args,
            r.source == source,
    {
        ProcessInput { program, args, source }
    }
}

/// Follows a named platform event log through a spawned shell that emits
/// one compact JSON line per event.
pub struct WindowsEventLogInput {
    pub log: String,
    pub source: String,
}

impl WindowsEventLogInput {
    pub fn new(log: String, source: String) -> (r: WindowsEventLogInput)
        ensures
            r.log == log,
            r.source == source,
    {
        WindowsEventLogInput { log, source }
    }
}

/// The argument list of the journal-follow command: follow, plain output,
/// and a unit filter for each configured unit.
pub open spec fn unit_args(us: Seq<Seq<char>>, k: int) -> Seq<Seq<char>>
    decreases us.len() - k,
        when 0 <= k
{
    if k >= us.len() {
        Seq::empty()
    } else {
        seq!["-u"@, us[k]] + unit_args(us, k + 1)
    }
}

pub open spec fn journald_args_spec(units: Option<Vec<String>>) -> Seq<Seq<char>> {
    seq!["-f"@, "-o"@, "cat"@] + (match units {
        Some(u) => unit_args(u@.map_values(|x: String| x@), 0),
        None => Seq::empty(),
    })
}

/// Builds the journal-follow arguments for an optional unit filter list.
pub fn journald_args(units: &Option<Vec<String>>) -> (r: Vec<String>)
    ensures
        r@.map_values(|x: String| x@) == journald_args_spec(*units),
{
    let mut out: Vec<String> = Vec::new();
    out.push(String::from_str("-f"));
    out.push(String::from_str("-o"));
    out.push(String::from_str("cat"));
    proof {
        assert(out@.map_values(|x: String| x@) =~= seq!["-f"@, "-o"@, "cat"@]);
    }
    match units {
        Some(u) => {
            let ghost us = u@.map_values(|x: String| x@);
            proof {
                lemma_unit_args_len(us, 0);
            }
            let mut k: usize = 0;
            while k < u.len()
                invariant
                    k <= u@.len(),
                    us == u@.map_values(|x: String| x@),
                    us.len() == u@.len(),
                    out@.map_values(|x: String| x@) =~= seq!["-f"@, "-o"@, "cat"@] + (unit_args(
                        us,
                        0,
                    ).take(2 * k)),
                    unit_args(us, 0).len() == 2 * us.len(),
                    unit_args(us, 0) == unit_args(us, 0).take(2 * k) + unit_args(us, k as int),
                decreases u@.len() - k,
            {
                let ghost out0 = out@;
                out.push(String::from_str("-u"));
                out.push(u[k].clone());
                proof {
                    assert(unit_args(us, k as int) =~= seq!["-u"@, us[k as int]] + unit_args(
                        us,
                        k + 1 as int,
                    ));
                    lemma_unit_args_len(us, k + 1 as int);
                    assert(unit_args(us, 0).take(2 * (k + 1)) =~~= unit_args(us, 0).take(2 * k)
                        + seq!["-u"@, us[k as int]]);
                    assert(out@[out0.len() as int]@ == "-u"@);
                    assert(out@[out0.len() as int + 1]@ == us[k as int]);
                    assert(out@.map_values(|x: String| x@) =~~= out0.map_values(|x: String| x@)
                        + seq!["-u"@, us[k as int]]);
                    assert(out@.map_values(|x: String| x@) =~~= seq!["-f"@, "-o"@, "cat"@]
                        + unit_args(us, 0).take(2 * (k + 1)));
                    assert(unit_args(us, 0) =~~= unit_args(us, 0).take(2 * (k + 1)) + unit_args(
                        us,
                        k + 1 as int,
                    ));
                }
                k = k + 1;
            }
            proof {
                assert(unit_args(us, k as int) =~= Seq::<Seq<char>>::empty());
                assert(unit_args(us, 0).take(2 * k) =~= unit_args(us, 0));
                assert(out@.map_values(|x: String| x@) =~= journald_args_spec(*units));
            }
        },
        None => {
            proof {
                assert(out@.map_values(|x: String| x@) =~= journald_args_spec(*units));
            }
        },
    }
    out
}

proof fn lemma_unit_args_len(us: Seq<Seq<char>>, k: int)
    requires
        0 <= k,
    ensures
        unit_args(us, k).len() == 2 * (if k <= us.len() {
            us.len() - k
        } else {
            0
        }),
    decreases us.len() - k,
{
    if k < us.len() {
        lemma_unit_args_len(us, k + 1);
    }
}

/// The escaping the event-log shell script applies to the log name: each
/// single quote doubled, everything else as it stands.
pub open spec fn esc_from(s: Seq<char>, i: int) -> Seq<char>
    decreases s.len() - i,
        when 0 <= i
{
    if i >= s.len() {
        Seq::empty()
    } else {
        (if s[i] == '\'' {
            seq!['\'', '\'']
        } else {
            seq![s[i]]
        }) + esc_from(s, i + 1)
    }
}

/// Doubles every single quote in `s`.
pub fn escape_single_quotes(s: &str) -> (r: String)
    ensures
        r@ == esc_from(s@, 0),
{
    let v = chars_vec(s);
    let mut out = String::new();
    let mut i: usize = 0;
    while i < v.len()
        invariant
            i <= v@.len(),
            v@ == s@,
            esc_from(s@, 0) =~= out@ + esc_from(s@, i as int),
        decreases v@.len() - i,
    {
        let c = v[i];
        if c == '\'' {
            push_char(&mut out, '\'');
            push_char(&mut out, '\'');
        } else {
            push_char(&mut out, c);
        }
        i = i + 1;
    }
    proof {
        assert(esc_from(s@, i as int) =~= Seq::<char>::empty());
        assert(out@ =~= esc_from(s@, 0));
    }
    out
}

/// The shell script that follows a named event log and prints one compact
/// JSON object per event, with the log name quoted safely.
pub fn eventlog_script(log: &str) -> (r: String)
    ensures
        r@ == "$Log = '"@ + esc_from(log@, 0)
            + "'; Get-WinEvent -LogName $Log -Wait | ForEach-Object { $_ | ConvertTo-Json -Compress }"@,
{
    let mut out = String::from_str("$Log = '");
    let escaped = escape_single_quotes(log);
    out.append(escaped.as_str());
    out.append(
        "'; Get-WinEvent -LogName $Log -Wait | ForEach-Object { $_ | ConvertTo-Json -Compress }",
    );
    proof {
        assert(out@ =~= "$Log = '"@ + esc_from(log@, 0)
            + "'; Get-WinEvent -LogName $Log -Wait | ForEach-Object { $_ | ConvertTo-Json -Compress }"@);
    }
    out
}

} // verus!
