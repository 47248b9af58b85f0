//! The boot script: what the kernel does between entry and power-off.

use vstd::prelude::*;
use crate::console::{
    banner_line, boot_stack_line, format_banner_line, format_boot_stack_line,
    format_segment_line, segment_line, Severity,
};
use crate::layout::MemoryLayout;
use crate::memory::{clear_bss, clearable, window_covers, word_aligned, zero_filled};

verus! {

/// One request to the machine. Lines carry no line terminator: the console
/// ends each with a newline.
#[derive(Debug, PartialEq, Eq)]
pub enum BootAction {
    /// Bring up the logging facility.
    InitLogging,
    /// Write a line to the console whatever the log level.
    Print(String),
    /// Hand a line to the logger at the given level.
    Log(Severity, String),
    /// Power off; the flag reports failure.
    Shutdown(bool),
}

/// A `BootAction` with its text as a sequence of characters.
pub enum ActionView {
    InitLogging,
    Print(Seq<char>),
    Log(Severity, Seq<char>),
    Shutdown(bool),
}

impl View for BootAction {
    type V = ActionView;

    open spec fn view(&self) -> ActionView {
        match self {
            BootAction::InitLogging => ActionView::InitLogging,
            BootAction::Print(line) => ActionView::Print(line@),
            BootAction::Log(level, line) => ActionView::Log(*level, line@),
            BootAction::Shutdown(failure) => ActionView::Shutdown(*failure),
        }
    }
}

impl DeepView for BootAction {
    type V = ActionView;

    open spec fn deep_view(&self) -> ActionView {
        self@
    }
}

/// Everything the kernel asks of the machine once memory is cleared, in order.
pub open spec fn boot_script(layout: MemoryLayout) -> Seq<ActionView> {
    seq![
        ActionView::InitLogging,
        ActionView::Print(banner_line()),
        ActionView::Log(Severity::Trace, segment_line(".text"@, layout.text)),
        ActionView::Log(Severity::Debug, segment_line(".rodata"@, layout.rodata)),
        ActionView::Log(Severity::Info, segment_line(".data"@, layout.data)),
        ActionView::Log(Severity::Warn, boot_stack_line(layout.boot_stack)),
        ActionView::Log(Severity::Error, segment_line(".bss"@, layout.bss)),
        ActionView::Shutdown(false),
    ]
}

/// A line as the console receives it. Only a logged line has a level; the
/// logger drops it if the configured minimum is higher.
pub struct ConsoleLine {
    pub level: Option<Severity>,
    pub text: Seq<char>,
}

impl ConsoleLine {
    /// A line written whatever the log level.
    pub open spec fn printed(text: Seq<char>) -> ConsoleLine {
        ConsoleLine { level: None, text }
    }

    /// A line handed to the logger at `level`.
    pub open spec fn logged(level: Severity, text: Seq<char>) -> ConsoleLine {
        ConsoleLine { level: Some(level), text }
    }
}

impl ActionView {
    /// The lines that this action sends to the console: one or none.
    pub open spec fn console_lines(self) -> Seq<ConsoleLine> {
        match self {
            ActionView::Print(text) => seq![ConsoleLine::printed(text)],
            ActionView::Log(level, text) => seq![ConsoleLine::logged(level, text)],
            _ => Seq::empty(),
        }
    }
}

/// The lines that a script sends to the console, in the order of the script.
pub open spec fn console_stream(script: Seq<ActionView>) -> Seq<ConsoleLine>
    decreases script.len(),
{
    if script.len() == 0 {
        Seq::empty()
    } else {
        console_stream(script.drop_last()) + script.last().console_lines()
    }
}

/// What the console is to receive during boot: the banner first, then the
/// five reports, one per level from `Trace` up to `Error`: text, read-only
/// data, data, boot stack, uninitialised data.
pub open spec fn boot_console(layout: MemoryLayout) -> Seq<ConsoleLine> {
    seq![
        ConsoleLine::printed(banner_line()),
        ConsoleLine::logged(Severity::Trace, segment_line(".text"@, layout.text)),
        ConsoleLine::logged(Severity::Debug, segment_line(".rodata"@, layout.rodata)),
        ConsoleLine::logged(Severity::Info, segment_line(".data"@, layout.data)),
        ConsoleLine::logged(Severity::Warn, boot_stack_line(layout.boot_stack)),
        ConsoleLine::logged(Severity::Error, segment_line(".bss"@, layout.bss)),
    ]
}

/// Whether each logged line of a stream is more severe than every logged line
/// before it.
pub open spec fn severity_rises(stream: Seq<ConsoleLine>) -> bool {
    forall|i: int, j: int|
        0 <= i < j < stream.len() && stream[i].level is Some && stream[j].level is Some
            ==> stream[i].level->0.spec_rank() < stream[j].level->0.spec_rank()
}

/// Whether a script powers off in its last step and in no step before it.
pub open spec fn halts_at_end(script: Seq<ActionView>) -> bool {
    &&& script.len() > 0
    &&& script.last() is Shutdown
    &&& forall|i: int| 0 <= i < script.len() - 1 ==> !(#[trigger] script[i] is Shutdown)
}

/// Runs the boot path: clears the uninitialised-data segment in `ram`, then
/// returns what is left to do on the machine, in the order in which it is to
/// be done.
pub fn rust_main(ram: &mut [u64], base: usize, layout: &MemoryLayout) -> (script: Vec<BootAction>)
    requires
        clearable(
            old(ram)@.len(),
            base as int,
            layout.bss.start as int,
            layout.bss.end as int,
        ),
    ensures
        final(ram)@ == zero_filled(
            old(ram)@,
            base as int,
            layout.bss.start as int,
            layout.bss.end as int,
        ),
        script.deep_view() == boot_script(*layout),
{
    clear_bss(ram, base, layout.bss.start, layout.bss.end);
    let mut script: Vec<BootAction> = Vec::new();
    script.push(BootAction::InitLogging);
    script.push(BootAction::Print(format_banner_line()));
    script.push(BootAction::Log(Severity::Trace, format_segment_line(".text", &layout.text)));
    script.push(BootAction::Log(Severity::Debug, format_segment_line(".rodata", &layout.rodata)));
    script.push(BootAction::Log(Severity::Info, format_segment_line(".data", &layout.data)));
    script.push(BootAction::Log(Severity::Warn, format_boot_stack_line(&layout.boot_stack)));
    script.push(BootAction::Log(Severity::Error, format_segment_line(".bss", &layout.bss)));
    script.push(BootAction::Shutdown(false));
    script
}

/// A well-formed layout can be booted from any window that starts on a word
/// boundary and holds the uninitialised data, if that data starts on a word
/// boundary too.
pub proof fn lemma_well_formed_layout_boots(layout: MemoryLayout, words: nat, base: int)
    requires
        layout.well_formed(),
        word_aligned(base),
        word_aligned(layout.bss.start as int),
        window_covers(words, base, layout.bss.start as int, layout.bss.end as int),
    ensures
        clearable(words, base, layout.bss.start as int, layout.bss.end as int),
{
}

/// Logging is brought up in the first step and in no other, so before any
/// line is printed or logged.
pub proof fn lemma_logging_ready_first(layout: MemoryLayout)
    ensures
        boot_script(layout)[0] is InitLogging,
        forall|i: int|
            0 < i < boot_script(layout).len() ==> !(#[trigger] boot_script(layout)[i]
                is InitLogging),
{
}

/// The console stream of the first `k + 1` steps is that of the first `k`
/// steps followed by what step `k` sends.
proof fn lemma_console_stream_step(script: Seq<ActionView>, k: int)
    requires
        0 <= k < script.len(),
    ensures
        console_stream(script.take(k + 1)) == console_stream(script.take(k))
            + script[k].console_lines(),
{
    assert(script.take(k + 1).drop_last() =~= script.take(k));
}

/// The boot script sends the console these six lines in this order, and
/// nothing else.
pub proof fn lemma_console_order(layout: MemoryLayout)
    ensures
        console_stream(boot_script(layout)) == boot_console(layout),
{
    let script = boot_script(layout);
    lemma_console_stream_step(script, 0);
    lemma_console_stream_step(script, 1);
    lemma_console_stream_step(script, 2);
    lemma_console_stream_step(script, 3);
    lemma_console_stream_step(script, 4);
    lemma_console_stream_step(script, 5);
    lemma_console_stream_step(script, 6);
    lemma_console_stream_step(script, 7);
}

/// The five reports are logged at five distinct levels, each more severe than
/// the one before.
pub proof fn lemma_severity_rises(layout: MemoryLayout)
    ensures
        severity_rises(console_stream(boot_script(layout))),
{
    lemma_console_order(layout);
}

/// The script ends by powering off with the success flag, and asks for
/// power-off nowhere else.
pub proof fn lemma_halts_at_end(layout: MemoryLayout)
    ensures
        halts_at_end(boot_script(layout)),
        boot_script(layout).last() == ActionView::Shutdown(false),
{
}

} // verus!
