//! The syslog sink: RFC 3164 and RFC 5424 message formatting, the PRI
//! computation, and the decision core of the TCP transport's
//! reconnect-and-retry loop.
//!
//! Severity is fixed at informational (6) for every message, regardless of
//! any parsed level metadata; PRI is `facility * 8 + 6`.
use crate::clock::{rfc3339_millis, render_rfc3339_millis, utc_to_local_clock, UtcInstant};
use crate::config::{SyslogFormat, SyslogOutputConfig};
use crate::event::LogEvent;
use crate::text::{dec2, dec_small, digit_char, push_dec2, push_dec_small};
use vstd::prelude::*;

verus! {

/// PRI for a facility, clamped to 23, at fixed informational severity.
pub open spec fn pri_of(facility: u8) -> nat {
    (if facility <= 23 {
        facility as nat
    } else {
        23 as nat
    }) * 8 + 6
}

/// The English month abbreviation RFC 3164 timestamps use.
pub open spec fn month_abbrev(m: nat) -> Seq<char>
    recommends
        1 <= m <= 12,
{
    if m == 1 {
        "Jan"@
    } else if m == 2 {
        "Feb"@
    } else if m == 3 {
        "Mar"@
    } else if m == 4 {
        "Apr"@
    } else if m == 5 {
        "May"@
    } else if m == 6 {
        "Jun"@
    } else if m == 7 {
        "Jul"@
    } else if m == 8 {
        "Aug"@
    } else if m == 9 {
        "Sep"@
    } else if m == 10 {
        "Oct"@
    } else if m == 11 {
        "Nov"@
    } else {
        "Dec"@
    }
}

/// The space-padded day of month of an RFC 3164 timestamp: ` 1` to `31`.
pub open spec fn day_padded(d: nat) -> Seq<char>
    recommends
        1 <= d <= 31,
{
    if d < 10 {
        " "@ + seq![digit_char(d)]
    } else {
        dec2(d)
    }
}

/// One whole RFC 3164 message:
/// `<PRI>Mon  D HH:MM:SS hostname app_name: line`, with the timestamp in
/// the machine's local clock.
pub open spec fn rfc3164_msg(
    pri: nat,
    month: nat,
    day: nat,
    hour: nat,
    minute: nat,
    second: nat,
    host: Seq<char>,
    app: Seq<char>,
    line: Seq<char>,
) -> Seq<char> {
    "<"@ + dec_small(pri) + ">"@ + month_abbrev(month) + " "@ + day_padded(day) + " "@ + dec2(hour)
        + ":"@ + dec2(minute) + ":"@ + dec2(second) + " "@ + host + " "@ + app + ": "@ + line
}

/// One whole RFC 5424 message:
/// `<PRI>1 ts hostname app_name - - line`, with a millisecond-precision
/// UTC timestamp and `-` for procid, msgid and structured data.
pub open spec fn rfc5424_msg(
    pri: nat,
    t: UtcInstant,
    host: Seq<char>,
    app: Seq<char>,
    line: Seq<char>,
) -> Seq<char> {
    "<"@ + dec_small(pri) + ">1 "@ + rfc3339_millis(t) + " "@ + host + " "@ + app + " - - "@ + line
}

fn month_str(m: u32) -> (r: &'static str)
    requires
        1 <= m <= 12,
    ensures
        r@ == month_abbrev(m as nat),
{
    if m == 1 {
        "Jan"
    } else if m == 2 {
        "Feb"
    } else if m == 3 {
        "Mar"
    } else if m == 4 {
        "Apr"
    } else if m == 5 {
        "May"
    } else if m == 6 {
        "Jun"
    } else if m == 7 {
        "Jul"
    } else if m == 8 {
        "Aug"
    } else if m == 9 {
        "Sep"
    } else if m == 10 {
        "Oct"
    } else if m == 11 {
        "Nov"
    } else {
        "Dec"
    }
}

/// Relies on `hostname::get`, with the OS string converted lossily; the
/// outcome depends on the machine, so nothing is claimed of it.
#[verifier::external_body]
fn machine_hostname() -> (r: Option<String>) {
    hostname::get().ok().map(|h| h.to_string_lossy().into_owned())
}

/// The syslog sink: the validated configuration plus the resolved
/// hostname and application name every message carries.
pub struct SyslogSink {
    pub config: SyslogOutputConfig,
    pub hostname: String,
    pub app_name: String,
}

impl SyslogSink {
    /// Resolves the hostname (configured value, else the machine's, else
    /// the fixed agent name) and the application name (configured value,
    /// else the fixed agent name).
    pub fn new(config: SyslogOutputConfig) -> (r: SyslogSink)
        ensures
            r.config == config,
            (match config.app_name {
                Some(a) => r.app_name@ == a@,
                None => r.app_name@ == "softnix-agent"@,
            }),
            (match config.hostname {
                Some(h) => r.hostname@ == h@,
                None => true,
            }),
    {
        let hostname = match &config.hostname {
            Some(h) => h.clone(),
            None => match machine_hostname() {
                Some(h) => h,
                None => String::from_str("softnix-agent"),
            },
        };
        let app_name = match &config.app_name {
            Some(a) => a.clone(),
            None => String::from_str("softnix-agent"),
        };
        SyslogSink { config, hostname, app_name }
    }

    /// PRI with the facility clamped to 23 and severity fixed at 6.
    pub fn pri(&self) -> (r: u8)
        ensures
            r as nat == pri_of(self.config.facility),
            r <= 190,
    {
        let facility = if self.config.facility <= 23 {
            self.config.facility
        } else {
            23
        };
        facility * 8 + 6
    }

    /// Renders `event` as one RFC 5424 message.
    pub fn format_rfc5424(&self, event: &LogEvent) -> (r: String)
        requires
            event.ingested_at.valid(),
        ensures
            r@ == rfc5424_msg(
                pri_of(self.config.facility),
                event.ingested_at,
                self.hostname@,
                self.app_name@,
                event.line@,
            ),
    {
        let mut out = String::from_str("<");
        push_dec_small(&mut out, self.pri() as u32);
        out.append(">1 ");
        let ts = render_rfc3339_millis(&event.ingested_at);
        out.append(ts.as_str());
        out.append(" ");
        out.append(self.hostname.as_str());
        out.append(" ");
        out.append(self.app_name.as_str());
        out.append(" - - ");
        out.append(event.line.as_str());
        proof {
            assert(out@ =~= rfc5424_msg(
                pri_of(self.config.facility),
                event.ingested_at,
                self.hostname@,
                self.app_name@,
                event.line@,
            ));
        }
        out
    }

    /// Renders `event` as one RFC 3164 message on the machine's local
    /// clock; where the local clock cannot be computed, the UTC clock of
    /// the event itself stands in.
    pub fn format_rfc3164(&self, event: &LogEvent) -> (r: String)
        requires
            event.ingested_at.valid(),
        ensures
            exists|mo: nat, d: nat, h: nat, mi: nat, sec: nat|
                1 <= mo <= 12 && 1 <= d <= 31 && h <= 23 && mi <= 59 && sec <= 59 && r@
                    == rfc3164_msg(
                    pri_of(self.config.facility),
                    mo,
                    d,
                    h,
                    mi,
                    sec,
                    self.hostname@,
                    self.app_name@,
                    event.line@,
                ),
    {
        let t = &event.ingested_at;
        let (mo, d, h, mi, sec) = match utc_to_local_clock(t) {
            Some(c) => c,
            None => (t.month, t.day, t.hour, t.minute, t.second),
        };
        self.format_rfc3164_at(event, mo, d, h, mi, sec)
    }

    /// Renders `event` as one RFC 3164 message at the given wall-clock
    /// reading; the pure core of `format_rfc3164`, exact on its inputs.
    pub fn format_rfc3164_at(
        &self,
        event: &LogEvent,
        month: u32,
        day: u32,
        hour: u32,
        minute: u32,
        second: u32,
    ) -> (r: String)
        requires
            1 <= month <= 12,
            1 <= day <= 31,
            hour <= 23,
            minute <= 59,
            second <= 59,
        ensures
            r@ == rfc3164_msg(
                pri_of(self.config.facility),
                month as nat,
                day as nat,
                hour as nat,
                minute as nat,
                second as nat,
                self.hostname@,
                self.app_name@,
                event.line@,
            ),
    {
        let mut out = String::from_str("<");
        push_dec_small(&mut out, self.pri() as u32);
        out.append(">");
        out.append(month_str(month));
        out.append(" ");
        if day < 10 {
            out.append(" ");
            crate::text::push_digit(&mut out, day);
        } else {
            push_dec2(&mut out, day);
        }
        out.append(" ");
        push_dec2(&mut out, hour);
        out.append(":");
        push_dec2(&mut out, minute);
        out.append(":");
        push_dec2(&mut out, second);
        out.append(" ");
        out.append(self.hostname.as_str());
        out.append(" ");
        out.append(self.app_name.as_str());
        out.append(": ");
        out.append(event.line.as_str());
        proof {
            assert(out@ =~= rfc3164_msg(
                pri_of(self.config.facility),
                month as nat,
                day as nat,
                hour as nat,
                minute as nat,
                second as nat,
                self.hostname@,
                self.app_name@,
                event.line@,
            ));
        }
        out
    }

    /// Renders `event` in the configured wire format.
    pub fn format_message(&self, event: &LogEvent) -> (r: String)
        requires
            event.ingested_at.valid(),
        ensures
            self.config.format == SyslogFormat::Rfc5424 ==> r@ == rfc5424_msg(
                pri_of(self.config.facility),
                event.ingested_at,
                self.hostname@,
                self.app_name@,
                event.line@,
            ),
            self.config.format == SyslogFormat::Rfc3164 ==> exists|
                mo: nat,
                d: nat,
                h: nat,
                mi: nat,
                sec: nat,
            |
                1 <= mo <= 12 && 1 <= d <= 31 && h <= 23 && mi <= 59 && sec <= 59 && r@
                    == rfc3164_msg(
                    pri_of(self.config.facility),
                    mo,
                    d,
                    h,
                    mi,
                    sec,
                    self.hostname@,
                    self.app_name@,
                    event.line@,
                ),
    {
        match self.config.format {
            SyslogFormat::Rfc3164 => self.format_rfc3164(event),
            SyslogFormat::Rfc5424 => self.format_rfc5424(event),
        }
    }
}

/// What the TCP transport just observed from the socket.
#[derive(Clone, Copy, Debug, PartialEq, Eq, Structural)]
pub enum TcpIoEvent {
    ConnectOk,
    ConnectFailed,
    WriteOk,
    WriteFailed,
}

/// What the TCP transport must do next.
#[derive(Clone, Copy, Debug, PartialEq, Eq, Structural)]
pub enum TcpSinkAction {
    /// No message is pending: take the next event off the queue.
    AwaitNextEvent,
    /// A message is pending and no connection stands: connect (after the
    /// retry pause, on a failed attempt).
    Connect,
    /// A message is pending on a live connection: write and flush it.
    WritePending,
}

/// The decision core of the TCP syslog transport: whether a connection
/// stands, and the one message currently owed to the wire. The embedding
/// loop performs the I/O and feeds back what happened.
pub struct TcpSinkState {
    pub connected: bool,
    pub pending: Option<String>,
}

/// The successor state for one I/O observation: a connection outcome sets
/// the connection flag; only a successful write discharges the pending
/// message; any failure drops the connection and keeps the message.
pub open spec fn spec_on_io(s: TcpSinkState, ev: TcpIoEvent) -> TcpSinkState {
    match ev {
        TcpIoEvent::ConnectOk => TcpSinkState { connected: true, pending: s.pending },
        TcpIoEvent::ConnectFailed => TcpSinkState { connected: false, pending: s.pending },
        TcpIoEvent::WriteOk => TcpSinkState { connected: s.connected, pending: None },
        TcpIoEvent::WriteFailed => TcpSinkState { connected: false, pending: s.pending },
    }
}

/// The action a state calls for.
pub open spec fn spec_next_action(s: TcpSinkState) -> TcpSinkAction {
    if s.pending is None {
        TcpSinkAction::AwaitNextEvent
    } else if !s.connected {
        TcpSinkAction::Connect
    } else {
        TcpSinkAction::WritePending
    }
}

impl TcpSinkState {
    /// The transport starts unconnected (the connection is opened lazily
    /// on first need) with nothing owed.
    pub fn start() -> (r: TcpSinkState)
        ensures
            !r.connected,
            r.pending is None,
    {
        TcpSinkState { connected: false, pending: None }
    }

    /// Takes on the next queued message. Only legal once the previous one
    /// has been written: the transport never advances past an unwritten
    /// message.
    pub fn accept(&mut self, msg: String)
        requires
            old(self).pending is None,
        ensures
            final(self).pending == Some(msg),
            final(self).connected == old(self).connected,
    {
        self.pending = Some(msg);
    }

    /// Records one I/O observation.
    pub fn on_io(&mut self, ev: TcpIoEvent)
        ensures
            *final(self) == spec_on_io(*old(self), ev),
    {
        match ev {
            TcpIoEvent::ConnectOk => {
                self.connected = true;
            },
            TcpIoEvent::ConnectFailed => {
                self.connected = false;
            },
            TcpIoEvent::WriteOk => {
                self.pending = None;
            },
            TcpIoEvent::WriteFailed => {
                self.connected = false;
            },
        }
    }

    /// What to do next.
    pub fn next_action(&self) -> (r: TcpSinkAction)
        ensures
            r == spec_next_action(*self),
    {
        match &self.pending {
            None => TcpSinkAction::AwaitNextEvent,
            Some(_) => {
                if !self.connected {
                    TcpSinkAction::Connect
                } else {
                    TcpSinkAction::WritePending
                }
            },
        }
    }
}

/// A failed write never loses the in-flight message: after `WriteFailed`
/// the same message is still pending, the connection is discarded, the
/// transport's next step is to reconnect, and once reconnected its next
/// step is to write that same message again.
pub proof fn lemma_write_failure_resends(s: TcpSinkState, m: String)
    requires
        s.pending == Some(m),
    ensures
        spec_on_io(s, TcpIoEvent::WriteFailed).pending == Some(m),
        !spec_on_io(s, TcpIoEvent::WriteFailed).connected,
        spec_next_action(spec_on_io(s, TcpIoEvent::WriteFailed)) == TcpSinkAction::Connect,
        spec_on_io(spec_on_io(s, TcpIoEvent::WriteFailed), TcpIoEvent::ConnectOk).pending == Some(
            m,
        ),
        spec_next_action(spec_on_io(spec_on_io(s, TcpIoEvent::WriteFailed), TcpIoEvent::ConnectOk))
            == TcpSinkAction::WritePending,
{
}

/// Nothing but a successful write discharges a pending message, so a
/// message is neither dropped nor duplicated before its first success.
pub proof fn lemma_only_write_ok_delivers(s: TcpSinkState, ev: TcpIoEvent)
    ensures
        ev != TcpIoEvent::WriteOk ==> spec_on_io(s, ev).pending == s.pending,
        spec_on_io(s, TcpIoEvent::WriteOk).pending is None,
{
}

} // verus!
