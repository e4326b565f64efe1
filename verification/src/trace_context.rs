//! The trace that the running code belongs to, for use in logs and replies.

use crate::string_map::{pairs_view, Entry};
use opentelemetry::trace::{SpanId, TraceId};
use vstd::prelude::*;
use vstd::string::StringExecFns;

verus! {

/// The lower-case hexadecimal digit of a value below sixteen.
pub open spec fn hex_digit(d: nat) -> char {
    if d < 10 {
        (48 + d) as char
    } else {
        (87 + d) as char
    }
}

/// The last `width` hexadecimal digits of `value`, in lower case, the most
/// significant first: the whole value, padded with zeros, where it is below
/// the `width`-th power of sixteen.
pub open spec fn lower_hex(value: nat, width: nat) -> Seq<char>
    decreases width,
{
    if width == 0 {
        Seq::empty()
    } else {
        lower_hex(value / 16, (width - 1) as nat).push(hex_digit(value % 16))
    }
}

/// `Display` of opentelemetry's `TraceId`, made from its number: the 128
/// bits as 32 hexadecimal digits in lower case, padded with zeros.
#[verifier::external_body]
fn trace_id_hex(id: u128) -> (hex: String)
    ensures
        hex@ == lower_hex(id as nat, 32),
{
    TraceId::from(id).to_string()
}

/// `Display` of opentelemetry's `SpanId`, made from its number: the 64 bits
/// as 16 hexadecimal digits in lower case, padded with zeros.
#[verifier::external_body]
fn span_id_hex(id: u64) -> (hex: String)
    ensures
        hex@ == lower_hex(id as nat, 16),
{
    SpanId::from(id).to_string()
}

/// What identifies a span: the numbers of its trace and of itself, and the
/// flags of the trace.
#[derive(Clone, Copy, Debug, PartialEq, Eq, Structural)]
pub struct SpanSnapshot {
    pub trace_id: u128,
    pub span_id: u64,
    pub trace_flags: u8,
}

impl SpanSnapshot {
    /// The span belongs to a trace: neither number is zero.
    pub open spec fn is_valid(self) -> bool {
        self.trace_id != 0 && self.span_id != 0
    }

    /// The trace is sampled: the lowest flag is set.
    pub open spec fn is_sampled(self) -> bool {
        self.trace_flags % 2 == 1
    }

    /// What is told of the span, if it belongs to a trace.
    pub open spec fn info(self) -> Option<TraceContextInfoView> {
        if self.is_valid() {
            Some(
                TraceContextInfoView {
                    trace_id: lower_hex(self.trace_id as nat, 32),
                    span_id: lower_hex(self.span_id as nat, 16),
                    sampled: self.is_sampled(),
                },
            )
        } else {
            None
        }
    }
}

/// The trace of the running code, as mathematical values.
pub struct TraceContextInfoView {
    pub trace_id: Seq<char>,
    pub span_id: Seq<char>,
    pub sampled: bool,
}

impl TraceContextInfoView {
    /// The three attributes that tell of the trace.
    pub open spec fn attributes(self) -> Seq<Entry> {
        seq![
            ("trace_id"@, self.trace_id),
            ("span_id"@, self.span_id),
            ("trace_sampled"@, if self.sampled {
                "true"@
            } else {
                "false"@
            }),
        ]
    }
}

/// The trace of the running code: the identifiers of the trace and of the
/// span in hexadecimal, and whether the trace is sampled.
#[derive(Debug)]
pub struct TraceContextInfo {
    pub trace_id: String,
    pub span_id: String,
    pub sampled: bool,
}

impl View for TraceContextInfo {
    type V = TraceContextInfoView;

    open spec fn view(&self) -> TraceContextInfoView {
        TraceContextInfoView {
            trace_id: self.trace_id@,
            span_id: self.span_id@,
            sampled: self.sampled,
        }
    }
}

impl Clone for TraceContextInfo {
    fn clone(&self) -> (c: TraceContextInfo)
        ensures
            c@ == self@,
    {
        TraceContextInfo {
            trace_id: self.trace_id.clone(),
            span_id: self.span_id.clone(),
            sampled: self.sampled,
        }
    }
}

impl TraceContextInfo {
    /// The three attributes that tell of the trace: its identifier, the
    /// identifier of the span, and `true` or `false` as the trace is sampled
    /// or not.
    pub fn into_attributes(self) -> (attributes: [(String, String); 3])
        ensures
            pairs_view(attributes@) == self@.attributes(),
    {
        let sampled = if self.sampled {
            "true"
        } else {
            "false"
        };
        let attributes = [
            (String::from_str("trace_id"), self.trace_id),
            (String::from_str("span_id"), self.span_id),
            (String::from_str("trace_sampled"), String::from_str(sampled)),
        ];
        assert(pairs_view(attributes@) =~= self@.attributes());
        attributes
    }
}

/// The trace that the current span belongs to, from the identity of that
/// span as the caller read it. A span whose trace number or own number is
/// zero belongs to no trace.
pub fn current_trace_context(span: &SpanSnapshot) -> (info: Option<TraceContextInfo>)
    ensures
        info.is_some() == span.is_valid(),
        match info {
            Some(i) => span.info() == Some(i@),
            None => span.info() is None,
        },
{
    if span.trace_id == 0 || span.span_id == 0 {
        return None;
    }
    Some(
        TraceContextInfo {
            trace_id: trace_id_hex(span.trace_id),
            span_id: span_id_hex(span.span_id),
            sampled: span.trace_flags % 2 == 1,
        },
    )
}

} // verus!
