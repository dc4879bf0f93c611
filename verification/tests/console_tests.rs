//! The console singleton and the interrupt-safe locking discipline.

use fb_console::console::{Console, GuardedConsole};
use fb_console::font::{CHAR_RASTER_HEIGHT, CHAR_RASTER_WIDTH};
use fb_console::pixel::{FbInfo, PixelFormat};
use fb_console::{BORDER_PADDING, LETTER_SPACING};

const W: usize = 640;
const H: usize = 480;

fn info() -> FbInfo {
    FbInfo {
        width: W,
        height: H,
        stride: W,
        bytes_per_pixel: 4,
        pixel_format: PixelFormat::Rgb,
    }
}

fn initialized_console() -> Console {
    let mut c = Console::new();
    c.init(vec![0u8; W * H * 4], info());
    c
}

fn consoles_equal(a: &Console, b: &Console) -> bool {
    if a.cursor_x() != b.cursor_x() || a.cursor_y() != b.cursor_y() {
        return false;
    }
    if a.buffer_len() != b.buffer_len() {
        return false;
    }
    for i in 0..a.buffer_len() {
        if a.read_byte(i) != b.read_byte(i) {
            return false;
        }
    }
    true
}

#[test]
fn prints_before_initialization_are_dropped() {
    let mut c = Console::new();
    assert!(!c.is_initialized());
    c.print_str("lost");
    assert!(!c.is_initialized());
}

#[test]
fn init_creates_the_console_once_and_ignores_later_calls() {
    let mut c = initialized_console();
    assert!(c.is_initialized());
    c.print_str("Hi");
    let x = c.cursor_x();
    let y = c.cursor_y();
    // a second hand-off must be ignored: the state stays as it was
    c.init(vec![0xffu8; W * H * 4], info());
    assert_eq!(c.cursor_x(), x);
    assert_eq!(c.cursor_y(), y);
    let reference = {
        let mut r = initialized_console();
        r.print_str("Hi");
        r
    };
    assert!(consoles_equal(&c, &reference));
}

#[test]
fn guarded_print_runs_one_critical_section() {
    let mut gc = GuardedConsole::new(initialized_console(), true);
    assert!(!gc.is_locked());
    assert!(gc.interrupts_are_on());
    let printed = gc.print("Ok");
    assert!(printed);
    assert!(!gc.is_locked());
    assert!(gc.interrupts_are_on());
    let step = CHAR_RASTER_WIDTH + LETTER_SPACING;
    assert_eq!(gc.console.cursor_x(), BORDER_PADDING + 2 * step);
    assert_eq!(gc.console.cursor_y(), BORDER_PADDING);
}

#[test]
fn uninitialized_guarded_print_reports_the_drop() {
    let mut gc = GuardedConsole::new(Console::new(), true);
    let printed = gc.print("Ok");
    assert!(!printed);
}

#[test]
fn interrupt_request_is_deferred_while_the_section_runs() {
    let mut gc = GuardedConsole::new(initialized_console(), true);
    let (during, after) = gc.print_with_pending_interrupt("fg", "irq");
    // never delivered inside the critical section: no handler ever spins on
    // the held lock, so the sequence completes instead of deadlocking
    assert!(!during);
    // delivered right after the section re-enabled interrupt delivery
    assert!(after);
    assert!(!gc.is_locked());
    assert!(gc.interrupts_are_on());

    // both fragments land whole, foreground first, never interleaved
    let mut sequential = GuardedConsole::new(initialized_console(), true);
    sequential.print("fg");
    sequential.print("irq");
    assert!(consoles_equal(&gc.console, &sequential.console));
}

#[test]
fn pending_interrupt_stays_pending_with_interrupts_off() {
    let mut gc = GuardedConsole::new(initialized_console(), false);
    let (during, after) = gc.print_with_pending_interrupt("fg", "irq");
    assert!(!during);
    assert!(!after);
    let mut only_fg = GuardedConsole::new(initialized_console(), false);
    only_fg.print("fg");
    assert!(consoles_equal(&gc.console, &only_fg.console));
}

#[test]
fn interrupt_print_delivers_only_when_interrupts_are_on() {
    let mut gc = GuardedConsole::new(initialized_console(), true);
    assert!(gc.interrupt_print("X"));
    let mut off = GuardedConsole::new(initialized_console(), false);
    assert!(!off.interrupt_print("X"));
    let untouched = initialized_console();
    assert!(consoles_equal(&off.console, &untouched));
}

#[test]
fn reaching_the_bottom_through_the_console_clears_the_screen() {
    let mut c = initialized_console();
    // walk the cursor to the bottom margin line by line
    let lines_to_bottom = (H - 2 * BORDER_PADDING) / (CHAR_RASTER_HEIGHT + 2) + 1;
    for _ in 0..lines_to_bottom {
        c.print_str("\n");
    }
    c.print_str("A");
    let mut fresh = initialized_console();
    fresh.print_str("A");
    assert!(consoles_equal(&c, &fresh));
}
