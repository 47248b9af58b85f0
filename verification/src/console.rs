//! The lines that the kernel writes while it boots.

use vstd::prelude::*;
use vstd::string::*;
use crate::hex::{hex_literal, to_hex_literal};
use crate::layout::Segment;

verus! {

/// The level at which a line is logged, least severe first.
#[derive(Clone, Copy, Debug, PartialEq, Eq, Structural)]
pub enum Severity {
    Trace,
    Debug,
    Info,
    Warn,
    Error,
}

impl Severity {
    /// Position on the scale from `Trace` (0) to `Error` (4).
    pub open spec fn spec_rank(self) -> u8 {
        match self {
            Severity::Trace => 0,
            Severity::Debug => 1,
            Severity::Info => 2,
            Severity::Warn => 3,
            Severity::Error => 4,
        }
    }

    /// Position on the scale from `Trace` (0) to `Error` (4).
    #[verifier::when_used_as_spec(spec_rank)]
    pub fn rank(self) -> (r: u8)
        ensures
            r == self.spec_rank(),
    {
        match self {
            Severity::Trace => 0,
            Severity::Debug => 1,
            Severity::Info => 2,
            Severity::Warn => 3,
            Severity::Error => 4,
        }
    }
}

/// The line that announces the kernel.
pub open spec fn banner_line() -> Seq<char> {
    "[kernel] Hello, world!"@
}

/// The line that reports a named segment as a half-open interval.
pub open spec fn segment_line(name: Seq<char>, segment: Segment) -> Seq<char> {
    "[kernel] "@ + name + " ["@ + hex_literal(segment.start as nat) + ", "@ + hex_literal(
        segment.end as nat,
    ) + ")"@
}

/// The line that reports the boot stack: its top first, then its lower bound.
pub open spec fn boot_stack_line(stack: Segment) -> Seq<char> {
    "[kernel] boot_stack top=bottom="@ + hex_literal(stack.end as nat) + ", lower_bound="@
        + hex_literal(stack.start as nat)
}

/// Writes out the line that announces the kernel.
pub fn format_banner_line() -> (line: String)
    ensures
        line@ == banner_line(),
{
    String::from_str("[kernel] Hello, world!")
}

/// Writes out the report of a named segment.
pub fn format_segment_line(name: &str, segment: &Segment) -> (line: String)
    ensures
        line@ == segment_line(name@, *segment),
{
    let mut line = String::from_str("[kernel] ");
    line.append(name);
    line.append(" [");
    line.append(to_hex_literal(segment.start).as_str());
    line.append(", ");
    line.append(to_hex_literal(segment.end).as_str());
    line.append(")");
    line
}

/// Writes out the report of the boot stack.
pub fn format_boot_stack_line(stack: &Segment) -> (line: String)
    ensures
        line@ == boot_stack_line(*stack),
{
    let mut line = String::from_str("[kernel] boot_stack top=bottom=");
    line.append(to_hex_literal(stack.end).as_str());
    line.append(", lower_bound=");
    line.append(to_hex_literal(stack.start).as_str());
    line
}

} // verus!
