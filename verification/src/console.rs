//! The console singleton and its interrupt-safe locking discipline.
//!
//! One console instance is created at most once; every print goes through a
//! critical section that first suppresses interrupt delivery and only then
//! takes the non-reentrant lock.  An interrupt print request that arrives
//! while the lock is held is therefore never delivered inside the critical
//! section — the handler cannot spin on a lock its own arrival keeps held —
//! and runs right after the section ends.

use vstd::prelude::*;

use crate::font::{covered, fallback_ready, BACKUP_CHAR, CHAR_RASTER_HEIGHT};
use crate::pixel::FbInfo;
use crate::writer::{lemma_write_str_props, wf_info, FrameBufferWriter, ScreenModel};
use crate::{BORDER_PADDING, LINE_SPACING, TAB_SPACING};

verus! {

/// The machine-limit bound under which printing `len` characters cannot
/// overflow the cursor coordinates.
pub open spec fn print_fits(m: ScreenModel, len: nat) -> bool {
    &&& m.x + m.info.width + TAB_SPACING * len + TAB_SPACING <= usize::MAX
    &&& m.y + m.info.height + (CHAR_RASTER_HEIGHT + LINE_SPACING) * len + 2 * CHAR_RASTER_HEIGHT
        + LINE_SPACING + BORDER_PADDING <= usize::MAX
}

/// The machine-limit bound under which two prints of together `len1 + len2`
/// characters, one after the other, cannot overflow the cursor coordinates.
pub open spec fn chain_fits(m: ScreenModel, len1: nat, len2: nat) -> bool {
    &&& m.x + 2 * m.info.width + TAB_SPACING * (len1 + len2) + 2 * TAB_SPACING <= usize::MAX
    &&& m.y + 2 * m.info.height + (CHAR_RASTER_HEIGHT + LINE_SPACING) * (len1 + len2) + 2 * (2
        * CHAR_RASTER_HEIGHT + LINE_SPACING + BORDER_PADDING) <= usize::MAX
}

/// The one console instance, created at most once; a print before it exists
/// is silently dropped.
pub struct Console {
    writer: Option<FrameBufferWriter>,
}

impl Console {
    /// The screen model, or nothing while the console is uninitialized.
    pub closed spec fn model(self) -> Option<ScreenModel> {
        match self.writer {
            Some(w) => Some(w@),
            None => None,
        }
    }

    /// An initialized console holds a well-formed writer over a supported
    /// pixel format.
    pub open spec fn wf(self) -> bool {
        match self.model() {
            Some(m) => m.wf() && m.info.pixel_format.is_supported(),
            None => true,
        }
    }

    /// An empty console slot.
    pub fn new() -> (c: Console)
        ensures
            c.model() is None,
            c.wf(),
    {
        Console { writer: None }
    }

    /// Whether the console has been given its framebuffer.
    pub fn is_initialized(&self) -> (b: bool)
        ensures
            b == (self.model() is Some),
    {
        self.writer.is_some()
    }

    /// Hands the boot-supplied framebuffer to the console.  The first call
    /// creates the writer (clearing the screen); any later call is ignored.
    pub fn init(&mut self, framebuffer: Vec<u8>, info: FbInfo)
        requires
            old(self).wf(),
            wf_info(info, framebuffer@.len()),
            info.pixel_format.is_supported(),
        ensures
            final(self).wf(),
            match old(self).model() {
                None => final(self).model() == Some(
                    (ScreenModel { fb: framebuffer@, info, x: 0, y: 0 }).cleared(),
                ),
                Some(m) => final(self).model() == Some(m),
            },
    {
        if self.writer.is_none() {
            self.writer = Some(FrameBufferWriter::new_(framebuffer, info));
        }
    }

    /// Prints `s` on the console; a print before initialization is silently
    /// dropped.
    pub fn print_str(&mut self, s: &str)
        requires
            old(self).wf(),
            covered(BACKUP_CHAR),
            old(self).model() matches Some(m) ==> print_fits(m, s@.len()),
        ensures
            final(self).wf(),
            match old(self).model() {
                None => final(self).model() is None,
                Some(m) => final(self).model() == Some(m.write_str_model(s@)),
            },
    {
        match &mut self.writer {
            Some(w) => {
                proof {
                    lemma_write_str_props(w@, s@);
                }
                w.write_str(s);
            },
            None => {},
        }
    }

    /// The cursor x position in pixels.
    pub fn cursor_x(&self) -> (x: usize)
        requires
            self.model() is Some,
        ensures
            self.model() matches Some(m) ==> x == m.x,
    {
        match &self.writer {
            Some(w) => w.x_pos(),
            None => vstd::pervasive::unreached(),
        }
    }

    /// The cursor y position in pixels.
    pub fn cursor_y(&self) -> (y: usize)
        requires
            self.model() is Some,
        ensures
            self.model() matches Some(m) ==> y == m.y,
    {
        match &self.writer {
            Some(w) => w.y_pos(),
            None => vstd::pervasive::unreached(),
        }
    }

    /// The byte of framebuffer memory at `index`.
    pub fn read_byte(&self, index: usize) -> (b: u8)
        requires
            self.model() is Some,
            self.model() matches Some(m) ==> index < m.fb.len(),
        ensures
            self.model() matches Some(m) ==> b == m.fb[index as int],
    {
        match &self.writer {
            Some(w) => w.read_byte(index),
            None => vstd::pervasive::unreached(),
        }
    }

    /// The length of the framebuffer memory in bytes.
    pub fn buffer_len(&self) -> (n: usize)
        requires
            self.model() is Some,
        ensures
            self.model() matches Some(m) ==> n == m.fb.len(),
    {
        match &self.writer {
            Some(w) => w.buffer_len(),
            None => vstd::pervasive::unreached(),
        }
    }
}

/// The console behind its non-reentrant lock, together with the processor's
/// interrupt-delivery flag.  The invariant of every critical section: while
/// the lock is held, interrupt delivery is off.
pub struct GuardedConsole {
    /// The shared console instance the lock guards.
    pub console: Console,
    /// Whether the lock is held.
    pub locked: bool,
    /// Whether the processor currently delivers interrupts.
    pub interrupts_enabled: bool,
    /// The interrupt flag saved on entry to the current critical section.
    pub saved_interrupts: bool,
}

impl GuardedConsole {
    /// Whether the lock is held.
    pub open spec fn lock_held(self) -> bool {
        self.locked
    }

    /// Whether the processor currently delivers interrupts.
    pub open spec fn interrupts_on(self) -> bool {
        self.interrupts_enabled
    }

    /// The interrupt flag saved on entry to the current critical section.
    pub open spec fn saved_flag(self) -> bool {
        self.saved_interrupts
    }

    /// The critical-section discipline: a held lock implies suppressed
    /// interrupt delivery, so an interrupt handler can never run — and spin
    /// on the lock — while the lock is held.
    pub open spec fn inv(self) -> bool {
        self.lock_held() ==> !self.interrupts_on()
    }

    /// A guarded console in the unlocked state.
    pub fn new(console: Console, interrupts_enabled: bool) -> (gc: GuardedConsole)
        ensures
            gc.console == console,
            !gc.lock_held(),
            gc.interrupts_on() == interrupts_enabled,
            gc.inv(),
    {
        GuardedConsole { console, locked: false, interrupts_enabled, saved_interrupts: false }
    }

    /// Whether the lock is held.
    pub fn is_locked(&self) -> (b: bool)
        ensures
            b == self.lock_held(),
    {
        self.locked
    }

    /// Whether the processor currently delivers interrupts.
    pub fn interrupts_are_on(&self) -> (b: bool)
        ensures
            b == self.interrupts_on(),
    {
        self.interrupts_enabled
    }

    /// Opens a critical section: saves the interrupt flag, suppresses
    /// interrupt delivery, and only then takes the lock.  On this single
    /// execution context the lock must be free: the one holder is the
    /// current control flow itself.
    pub fn enter_critical(&mut self)
        requires
            !old(self).lock_held(),
        ensures
            final(self).lock_held(),
            !final(self).interrupts_on(),
            final(self).saved_flag() == old(self).interrupts_on(),
            final(self).console == old(self).console,
            final(self).inv(),
    {
        self.saved_interrupts = self.interrupts_enabled;
        self.interrupts_enabled = false;
        self.locked = true;
    }

    /// Closes the critical section: releases the lock, then restores the
    /// saved interrupt flag.
    pub fn exit_critical(&mut self)
        requires
            old(self).lock_held(),
        ensures
            !final(self).lock_held(),
            final(self).interrupts_on() == old(self).saved_flag(),
            final(self).console == old(self).console,
            final(self).inv(),
    {
        self.locked = false;
        self.interrupts_enabled = self.saved_interrupts;
    }

    /// Prints `s` inside one critical section.  Returns whether anything was
    /// printed: nothing is when the console is uninitialized (the request is
    /// dropped, as the singleton discipline demands) or when the font lacks
    /// even its fallback glyph.
    pub fn print(&mut self, s: &str) -> (printed: bool)
        requires
            old(self).inv(),
            !old(self).lock_held(),
            old(self).console.wf(),
            old(self).console.model() matches Some(m) ==> print_fits(m, s@.len()),
        ensures
            final(self).inv(),
            !final(self).lock_held(),
            final(self).interrupts_on() == old(self).interrupts_on(),
            final(self).console.wf(),
            printed == (old(self).console.model() is Some && covered(BACKUP_CHAR)),
            match old(self).console.model() {
                None => final(self).console.model() is None,
                Some(m) => final(self).console.model() == Some(
                    if covered(BACKUP_CHAR) {
                        m.write_str_model(s@)
                    } else {
                        m
                    },
                ),
            },
    {
        self.enter_critical();
        let ready = fallback_ready();
        let initialized = self.console.is_initialized();
        if ready {
            self.console.print_str(s);
        }
        self.exit_critical();
        ready && initialized
    }

    /// An interrupt print request arriving at this instant: when interrupt
    /// delivery is on the handler runs at once (the invariant guarantees the
    /// lock is free, so its own critical section cannot spin); when delivery
    /// is off the hardware holds the request pending and nothing happens
    /// here.
    pub fn interrupt_print(&mut self, s: &str) -> (delivered: bool)
        requires
            old(self).inv(),
            old(self).console.wf(),
            old(self).console.model() matches Some(m) ==> print_fits(m, s@.len()),
        ensures
            delivered == old(self).interrupts_on(),
            final(self).inv(),
            final(self).lock_held() == old(self).lock_held(),
            final(self).interrupts_on() == old(self).interrupts_on(),
            final(self).console.wf(),
            !delivered ==> final(self).console == old(self).console && final(self).saved_flag()
                == old(self).saved_flag(),
            delivered ==> match old(self).console.model() {
                None => final(self).console.model() is None,
                Some(m) => final(self).console.model() == Some(
                    if covered(BACKUP_CHAR) {
                        m.write_str_model(s@)
                    } else {
                        m
                    },
                ),
            },
    {
        if self.interrupts_enabled {
            let _ = self.print(s);
            true
        } else {
            false
        }
    }

    /// One foreground print during which an interrupt print request arrives
    /// in the middle of the critical section.  Interrupt delivery is off for
    /// the whole section, so the request is not delivered inside it — the
    /// handler never spins on the held lock — and is handled directly after
    /// the section ends.  Both texts land whole, the foreground text first,
    /// never interleaved character by character.  Returns whether the
    /// request was delivered inside the section (never) and whether it was
    /// delivered after it (whenever interrupts were on before the call).
    pub fn print_with_pending_interrupt(&mut self, fg: &str, irq: &str) -> (r: (bool, bool))
        requires
            old(self).inv(),
            !old(self).lock_held(),
            old(self).console.wf(),
            old(self).console.model() matches Some(m) ==> chain_fits(m, fg@.len(), irq@.len()),
        ensures
            r.0 == false,
            r.1 == old(self).interrupts_on(),
            final(self).inv(),
            !final(self).lock_held(),
            final(self).interrupts_on() == old(self).interrupts_on(),
            final(self).console.wf(),
            match old(self).console.model() {
                None => final(self).console.model() is None,
                Some(m) => final(self).console.model() == Some(
                    if covered(BACKUP_CHAR) {
                        if old(self).interrupts_on() {
                            m.write_str_model(fg@).write_str_model(irq@)
                        } else {
                            m.write_str_model(fg@)
                        }
                    } else {
                        m
                    },
                ),
            },
    {
        proof {
            match self.console.model() {
                Some(m) => {
                    lemma_write_str_props(m, fg@);
                    lemma_chain_fits_parts(m, fg@.len(), irq@.len());
                },
                None => {},
            }
        }
        self.enter_critical();
        let ready = fallback_ready();
        if ready {
            self.console.print_str(fg);
        }
        let mid = self.interrupt_print(irq);
        self.exit_critical();
        let after = self.interrupt_print(irq);
        (mid, after)
    }
}

/// The two-print bound covers the first print, and still covers the second
/// from wherever the first one left the cursor.
proof fn lemma_chain_fits_parts(m: ScreenModel, len1: nat, len2: nat)
    requires
        m.wf(),
        chain_fits(m, len1, len2),
    ensures
        print_fits(m, len1),
        forall|s: Seq<char>|
            s.len() == len1 ==> print_fits(#[trigger] m.write_str_model(s), len2),
{
    assert(TAB_SPACING * len1 <= TAB_SPACING * (len1 + len2) && TAB_SPACING * len2 <= TAB_SPACING
        * (len1 + len2) && (CHAR_RASTER_HEIGHT + LINE_SPACING) * len1 <= (CHAR_RASTER_HEIGHT
        + LINE_SPACING) * (len1 + len2) && (CHAR_RASTER_HEIGHT + LINE_SPACING) * len2
        <= (CHAR_RASTER_HEIGHT + LINE_SPACING) * (len1 + len2) && TAB_SPACING * (len1 + len2)
        == TAB_SPACING * len1 + TAB_SPACING * len2 && (CHAR_RASTER_HEIGHT + LINE_SPACING) * (len1
        + len2) == (CHAR_RASTER_HEIGHT + LINE_SPACING) * len1 + (CHAR_RASTER_HEIGHT
        + LINE_SPACING) * len2) by (nonlinear_arith);
    assert forall|s: Seq<char>|
        s.len() == len1 implies print_fits(#[trigger] m.write_str_model(s), len2) by {
        lemma_write_str_props(m, s);
    }
}

} // verus!
