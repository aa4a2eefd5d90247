//! The console sink: how one event is laid out as a line of text.
use crate::clock::{render_rfc3339_secs, rfc3339_secs};
use crate::event::{EventView, IocKind, IocView, LogEvent};
use vstd::prelude::*;

verus! {

/// The wire name of an indicator kind.
pub open spec fn kind_name(k: IocKind) -> Seq<char> {
    match k {
        IocKind::Ip => "ip"@,
    }
}

/// One `kind=value` element of the indicator summary.
pub open spec fn summary_item(m: IocView) -> Seq<char> {
    kind_name(m.kind) + "="@ + m.value
}

/// The comma-led tail of the indicator summary, from element `k` on.
pub open spec fn summary_tail(inds: Seq<IocView>, k: int) -> Seq<char>
    decreases inds.len() - k,
        when 0 <= k
{
    if k >= inds.len() {
        Seq::empty()
    } else {
        ","@ + summary_item(inds[k]) + summary_tail(inds, k + 1)
    }
}

/// The comma-separated `kind=value` summary of all indicators.
pub open spec fn ioc_summary(inds: Seq<IocView>) -> Seq<char> {
    if inds.len() == 0 {
        Seq::empty()
    } else {
        summary_item(inds[0]) + summary_tail(inds, 1)
    }
}

/// One console line for an event:
/// `ts [source] line`, and ` [ioc:...]` when any indicator was found.
/// The frame newline is the writer's to add.
pub open spec fn stdout_line(e: EventView) -> Seq<char> {
    rfc3339_secs(e.ingested_at) + " ["@ + e.source + "] "@ + e.line + (if e.indicators.len() > 0 {
        " [ioc:"@ + ioc_summary(e.indicators) + "]"@
    } else {
        Seq::empty()
    })
}

/// The console sink; it keeps no state of its own.
pub struct StdoutSink {
}

impl Default for StdoutSink {
    fn default() -> (r: StdoutSink) {
        StdoutSink {  }
    }
}

impl StdoutSink {
    /// Renders one event as its console line.
    pub fn render_line(&self, event: &LogEvent) -> (r: String)
        requires
            event.ingested_at.valid(),
        ensures
            r@ == stdout_line(event@),
    {
        let mut out = render_rfc3339_secs(&event.ingested_at);
        out.append(" [");
        out.append(event.source.as_str());
        out.append("] ");
        out.append(event.line.as_str());
        let n = event.indicators.len();
        if n > 0 {
            out.append(" [ioc:");
            let ghost inds = event@.indicators;
            let mut j: usize = 0;
            let mut summary = String::new();
            while j < n
                invariant
                    j <= n == event.indicators@.len(),
                    inds == event@.indicators,
                    inds.len() == n,
                    j == 0 ==> summary@ =~= Seq::<char>::empty(),
                    j >= 1 ==> ioc_summary(inds) =~= summary@ + summary_tail(inds, j as int),
                decreases n - j,
            {
                if j > 0 {
                    summary.append(",");
                }
                let m = &event.indicators[j];
                summary.append(m.kind.as_str());
                summary.append("=");
                summary.append(m.value.as_str());
                proof {
                    assert(inds[j as int] == event.indicators@[j as int]@);
                    if j == 0 {
                        assert(summary@ =~= summary_item(inds[0]));
                    } else {
                        assert(summary_tail(inds, j as int) =~= ","@ + summary_item(
                            inds[j as int],
                        ) + summary_tail(inds, j + 1 as int));
                    }
                }
                j = j + 1;
            }
            proof {
                assert(summary_tail(inds, n as int) =~= Seq::<char>::empty());
                assert(ioc_summary(inds) =~= summary@);
            }
            out.append(summary.as_str());
            out.append("]");
        }
        proof {
            assert(out@ =~= stdout_line(event@));
        }
        out
    }
}

} // verus!
