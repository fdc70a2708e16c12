//! The visibility rules of the delayed progress indicator.
//!
//! The indicator stays hidden until it has content (a length, a message, or
//! the indeterminate mode) and the configured delay has passed. The drawing
//! itself is done by the caller, which applies the effects each call returns.

use vstd::prelude::*;

verus! {

/// The interval, in milliseconds, at which visibility is re-checked.
pub const VISIBILITY_TICK_MS: u64 = 250;

/// The state that decides when the indicator shows. Times are milliseconds
/// since the reporter was created.
#[derive(Debug, Clone, Copy, PartialEq, Eq, Structural)]
pub struct ProgressReporter {
    pub delay_ms: u64,
    pub visible: bool,
    pub has_content: bool,
    pub is_indeterminate: bool,
}

/// What the caller must do to the drawn indicator after a call.
#[derive(Debug, Clone, Copy, PartialEq, Eq, Structural)]
pub struct ProgressEffects {
    /// Start drawing the indicator.
    pub reveal: bool,
    /// Switch from the spinner back to the bar style.
    pub restore_bar: bool,
}

impl ProgressReporter {
    /// The state after the visibility check at `now`.
    pub open spec fn checked(self, now: u64) -> ProgressReporter {
        if !self.visible && self.has_content && now >= self.delay_ms {
            ProgressReporter { visible: true, ..self }
        } else {
            self
        }
    }

    pub open spec fn reveals(self, now: u64) -> bool {
        !self.visible && self.has_content && now >= self.delay_ms
    }

    /// A hidden reporter with no content.
    pub fn new(delay_ms: u64) -> (r: ProgressReporter)
        ensures
            r == (ProgressReporter { delay_ms, visible: false, has_content: false, is_indeterminate: false }),
    {
        ProgressReporter { delay_ms, visible: false, has_content: false, is_indeterminate: false }
    }

    fn ensure_visible(&mut self, now: u64) -> (r: bool)
        ensures
            *final(self) == old(self).checked(now),
            r == old(self).reveals(now),
    {
        if !self.visible && self.has_content && now >= self.delay_ms {
            self.visible = true;
            true
        } else {
            false
        }
    }

    /// Shows the indicator at once if it has content, ignoring the delay.
    pub fn force_visible(&mut self) -> (r: bool)
        ensures
            r == (!old(self).visible && old(self).has_content),
            *final(self) == (if r { ProgressReporter { visible: true, ..*old(self) } } else { *old(self) }),
    {
        if !self.visible && self.has_content {
            self.visible = true;
            true
        } else {
            false
        }
    }

    fn restore_determinate(&mut self) -> (r: bool)
        ensures
            r == old(self).is_indeterminate,
            *final(self) == (ProgressReporter { is_indeterminate: false, ..*old(self) }),
    {
        if self.is_indeterminate {
            self.is_indeterminate = false;
            true
        } else {
            false
        }
    }

    pub open spec fn after_length(self, len: u64, now: u64) -> ProgressReporter {
        ProgressReporter { is_indeterminate: false, has_content: self.has_content || len > 0, ..self }.checked(now)
    }

    /// Sets the length: leaves the spinner mode, and counts as content when non-zero.
    pub fn enable_determinate_mode(&mut self, len: u64, now: u64) -> (r: ProgressEffects)
        ensures
            *final(self) == old(self).after_length(len, now),
            r.restore_bar == old(self).is_indeterminate,
            r.reveal == (!old(self).visible && final(self).visible),
    {
        let restore_bar = self.restore_determinate();
        if len > 0 {
            self.has_content = true;
        }
        let reveal = self.ensure_visible(now);
        ProgressEffects { reveal, restore_bar }
    }

    pub open spec fn after_position(self, now: u64) -> ProgressReporter {
        ProgressReporter { is_indeterminate: false, ..self }.checked(now)
    }

    /// Sets the position: leaves the spinner mode.
    pub fn set_position(&mut self, now: u64) -> (r: ProgressEffects)
        ensures
            *final(self) == old(self).after_position(now),
            r.restore_bar == old(self).is_indeterminate,
            r.reveal == (!old(self).visible && final(self).visible),
    {
        let restore_bar = self.restore_determinate();
        let reveal = self.ensure_visible(now);
        ProgressEffects { reveal, restore_bar }
    }

    pub open spec fn after_message(self, empty: bool, now: u64) -> ProgressReporter {
        ProgressReporter { has_content: self.has_content || !empty, ..self }.checked(now)
    }

    /// Sets the message; a non-empty one counts as content. Returns whether to reveal.
    pub fn set_message(&mut self, msg: &str, now: u64) -> (r: bool)
        ensures
            *final(self) == old(self).after_message(msg@.len() == 0, now),
            r == (!old(self).visible && final(self).visible),
    {
        if msg.unicode_len() > 0 {
            self.has_content = true;
        }
        self.ensure_visible(now)
    }

    /// The periodic check. Returns whether to reveal.
    pub fn tick_visibility(&mut self, now: u64) -> (r: bool)
        ensures
            *final(self) == old(self).checked(now),
            r == (!old(self).visible && final(self).visible),
    {
        if !self.visible {
            self.ensure_visible(now)
        } else {
            false
        }
    }

    pub open spec fn after_indeterminate(self, now: u64) -> ProgressReporter {
        ProgressReporter { is_indeterminate: true, has_content: true, ..self }.checked(now)
    }

    /// Switches to the spinner; that counts as content. Returns whether to reveal.
    pub fn enable_indeterminate_mode(&mut self, now: u64) -> (r: bool)
        ensures
            *final(self) == old(self).after_indeterminate(now),
            r == (!old(self).visible && final(self).visible),
    {
        self.is_indeterminate = true;
        self.has_content = true;
        self.ensure_visible(now)
    }

    /// Whether finishing must clear a drawn indicator.
    pub fn finish_and_clear(&self) -> (r: bool)
        ensures
            r == self.visible,
    {
        self.visible
    }
}

/// With nothing set the indicator stays hidden however long it waits; once
/// content arrives after the delay, the next check reveals it.
pub proof fn lemma_delayed_visibility(delay_ms: u64, later: u64, len: u64, now: u64)
    requires
        len > 0,
        now >= delay_ms,
    ensures
        !(ProgressReporter { delay_ms, visible: false, has_content: false, is_indeterminate: false }).checked(later).visible,
        (ProgressReporter { delay_ms, visible: false, has_content: false, is_indeterminate: false }).checked(later)
            .after_length(len, now).visible,
{
}

/// Switching between the modes is idempotent.
pub proof fn lemma_mode_switch_idempotent(p: ProgressReporter, now: u64)
    ensures
        p.after_indeterminate(now).after_indeterminate(now) == p.after_indeterminate(now),
        p.after_position(now).after_position(now) == p.after_position(now),
{
}

} // verus!
