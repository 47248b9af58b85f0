use kernel_boot::boot::BootAction;
use kernel_boot::console::{
    format_banner_line, format_boot_stack_line, format_segment_line, Severity,
};
use kernel_boot::layout::{MemoryLayout, Segment};
use kernel_boot::rust_main;

fn sample_layout() -> MemoryLayout {
    MemoryLayout {
        text: Segment { start: 0x8020_0000, end: 0x8020_2000 },
        rodata: Segment { start: 0x8020_2000, end: 0x8020_3000 },
        data: Segment { start: 0x8020_3000, end: 0x8020_4000 },
        boot_stack: Segment { start: 0x8020_4000, end: 0x8021_4000 },
        bss: Segment { start: 0x8021_4000, end: 0x8021_4020 },
    }
}

fn boot(layout: &MemoryLayout, ram: &mut [u64]) -> Vec<BootAction> {
    rust_main(ram, layout.bss.start, layout)
}

#[test]
fn banner_line_text() {
    assert_eq!(format_banner_line(), "[kernel] Hello, world!");
}

#[test]
fn text_segment_line_reports_the_interval() {
    let text = Segment { start: 0x8020_0000, end: 0x8020_2000 };
    assert_eq!(
        format_segment_line(".text", &text),
        "[kernel] .text [0x80200000, 0x80202000)"
    );
}

#[test]
fn segment_line_of_an_empty_segment_at_zero() {
    let empty = Segment { start: 0, end: 0 };
    assert_eq!(format_segment_line(".bss", &empty), "[kernel] .bss [0x0, 0x0)");
}

#[test]
fn segment_line_agrees_with_the_standard_formatter() {
    let segment = Segment { start: 0xdead_b000, end: 0xdead_beef };
    assert_eq!(
        format_segment_line(".rodata", &segment),
        format!("[kernel] .rodata [{:#x}, {:#x})", segment.start, segment.end)
    );
}

#[test]
fn boot_stack_line_reports_top_then_lower_bound() {
    let stack = Segment { start: 0x8020_4000, end: 0x8021_4000 };
    assert_eq!(
        format_boot_stack_line(&stack),
        "[kernel] boot_stack top=bottom=0x80214000, lower_bound=0x80204000"
    );
}

#[test]
fn severity_ranks_rise_from_trace_to_error() {
    assert_eq!(Severity::Trace.rank(), 0);
    assert_eq!(Severity::Debug.rank(), 1);
    assert_eq!(Severity::Info.rank(), 2);
    assert_eq!(Severity::Warn.rank(), 3);
    assert_eq!(Severity::Error.rank(), 4);
}

#[test]
fn script_is_the_documented_sequence() {
    let layout = sample_layout();
    let mut ram = vec![0xffu64; 4];
    let script = boot(&layout, &mut ram);
    let expected = vec![
        BootAction::InitLogging,
        BootAction::Print(String::from("[kernel] Hello, world!")),
        BootAction::Log(
            Severity::Trace,
            String::from("[kernel] .text [0x80200000, 0x80202000)"),
        ),
        BootAction::Log(
            Severity::Debug,
            String::from("[kernel] .rodata [0x80202000, 0x80203000)"),
        ),
        BootAction::Log(
            Severity::Info,
            String::from("[kernel] .data [0x80203000, 0x80204000)"),
        ),
        BootAction::Log(
            Severity::Warn,
            String::from("[kernel] boot_stack top=bottom=0x80214000, lower_bound=0x80204000"),
        ),
        BootAction::Log(
            Severity::Error,
            String::from("[kernel] .bss [0x80214000, 0x80214020)"),
        ),
        BootAction::Shutdown(false),
    ];
    assert_eq!(script, expected);
}

#[test]
fn boot_clears_the_bss() {
    let layout = sample_layout();
    let mut ram = vec![0x1234_5678_9abc_def0u64; 4];
    boot(&layout, &mut ram);
    assert_eq!(ram, vec![0; 4]);
}

#[test]
fn boot_clears_only_the_bss() {
    let layout = sample_layout();
    let mut ram = vec![1u64, 2, 3, 4, 5, 6, 7];
    let script = rust_main(&mut ram, layout.bss.start - 16, &layout);
    assert_eq!(ram, vec![1, 2, 0, 0, 0, 0, 7]);
    assert_eq!(script.len(), 8);
}

#[test]
fn boot_with_empty_bss_proceeds() {
    let mut layout = sample_layout();
    layout.bss = Segment { start: 0x8021_4000, end: 0x8021_4000 };
    let before = vec![9u64, 8, 7];
    let mut ram = before.clone();
    let script = boot(&layout, &mut ram);
    assert_eq!(ram, before);
    assert_eq!(script.len(), 8);
    assert_eq!(
        script[6],
        BootAction::Log(
            Severity::Error,
            String::from("[kernel] .bss [0x80214000, 0x80214000)")
        )
    );
    assert_eq!(script[7], BootAction::Shutdown(false));
}

#[test]
fn banner_comes_before_every_diagnostic() {
    let layout = sample_layout();
    let mut ram = vec![0u64; 4];
    let script = boot(&layout, &mut ram);
    let banner = script
        .iter()
        .position(|a| *a == BootAction::Print(String::from("[kernel] Hello, world!")))
        .unwrap();
    let logs: Vec<usize> = script
        .iter()
        .enumerate()
        .filter(|(_, a)| matches!(a, BootAction::Log(_, _)))
        .map(|(i, _)| i)
        .collect();
    assert_eq!(logs.len(), 5);
    assert!(logs.iter().all(|&i| banner < i));
    let prints = script.iter().filter(|a| matches!(a, BootAction::Print(_))).count();
    assert_eq!(prints, 1);
}

#[test]
fn logging_is_brought_up_before_any_line() {
    let layout = sample_layout();
    let mut ram = vec![0u64; 4];
    let script = boot(&layout, &mut ram);
    assert_eq!(script[0], BootAction::InitLogging);
}

#[test]
fn diagnostics_name_the_segments_in_order() {
    let layout = sample_layout();
    let mut ram = vec![0u64; 4];
    let script = boot(&layout, &mut ram);
    let prefixes = [
        "[kernel] .text [",
        "[kernel] .rodata [",
        "[kernel] .data [",
        "[kernel] boot_stack top=bottom=",
        "[kernel] .bss [",
    ];
    let lines: Vec<&String> = script
        .iter()
        .filter_map(|a| match a {
            BootAction::Log(_, line) => Some(line),
            _ => None,
        })
        .collect();
    assert_eq!(lines.len(), prefixes.len());
    for (line, prefix) in lines.iter().zip(prefixes.iter()) {
        assert!(line.starts_with(prefix));
    }
}

#[test]
fn diagnostic_levels_strictly_increase() {
    let layout = sample_layout();
    let mut ram = vec![0u64; 4];
    let script = boot(&layout, &mut ram);
    let levels: Vec<Severity> = script
        .iter()
        .filter_map(|a| match a {
            BootAction::Log(level, _) => Some(*level),
            _ => None,
        })
        .collect();
    assert_eq!(
        levels,
        vec![
            Severity::Trace,
            Severity::Debug,
            Severity::Info,
            Severity::Warn,
            Severity::Error
        ]
    );
    for pair in levels.windows(2) {
        assert!(pair[0].rank() < pair[1].rank());
    }
}

#[test]
fn shutdown_is_last_and_reports_success() {
    let layout = sample_layout();
    let mut ram = vec![0u64; 4];
    let script = boot(&layout, &mut ram);
    assert_eq!(script.last(), Some(&BootAction::Shutdown(false)));
    let shutdowns = script.iter().filter(|a| matches!(a, BootAction::Shutdown(_))).count();
    assert_eq!(shutdowns, 1);
}

#[test]
fn lines_carry_no_newline() {
    let layout = sample_layout();
    let mut ram = vec![0u64; 4];
    for action in boot(&layout, &mut ram) {
        match action {
            BootAction::Print(line) | BootAction::Log(_, line) => assert!(!line.contains('\n')),
            _ => {}
        }
    }
}
