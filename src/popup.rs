//! Timed notifications. Times are milliseconds read from a monotonic clock that
//! the caller supplies, so a popup's life can be replayed exactly.

use vstd::prelude::*;

verus! {

/// The kinds of popup.
pub enum PopupType {
    /// A line of text shown for `duration` milliseconds from `created_at`.
    TextBox { text: String, duration: u64, created_at: u64 },
}

/// A notification, shown while `active`.
pub struct Popup {
    pub active: bool,
    pub popup_type: PopupType,
}

/// Milliseconds from `from` to `now`, zero when the clock reads earlier than `from`.
pub open spec fn elapsed(from: u64, now: u64) -> int {
    if now >= from {
        now - from
    } else {
        0
    }
}

impl Popup {
    /// The active text box showing `text` for `duration` ms from `created_at`.
    pub open spec fn text_box(text: String, duration: u64, created_at: u64) -> Popup {
        Popup { active: true, popup_type: PopupType::TextBox { text, duration, created_at } }
    }

    /// Whether the popup's time is up at `now`.
    pub open spec fn expired_at(self, now: u64) -> bool {
        match self.popup_type {
            PopupType::TextBox { duration, created_at, .. } => elapsed(created_at, now) >= duration,
        }
    }

    /// The popup after an update at `now`: deactivated once its time is up.
    pub open spec fn updated(self, now: u64) -> Popup {
        if self.expired_at(now) {
            Popup { active: false, popup_type: self.popup_type }
        } else {
            self
        }
    }

    /// Whether this is an active text box showing `text` for `duration` ms from `now`.
    pub open spec fn is_fresh_text_box(self, text: Seq<char>, duration: u64, now: u64) -> bool {
        &&& self.active
        &&& self.popup_type matches PopupType::TextBox { text: t, duration: d, created_at: c }
            && t@ == text && d == duration && c == now
    }

    /// A text box showing `text` for `duration_ms` milliseconds, created at `now`.
    pub fn new_text_box(text: String, duration_ms: u64, now: u64) -> (r: Popup)
        ensures
            r == Popup::text_box(text, duration_ms, now),
    {
        Popup { active: true, popup_type: PopupType::TextBox { text, duration: duration_ms, created_at: now } }
    }

    /// Deactivates the popup once `now` is at least its duration past its creation.
    pub fn update(&mut self, now: u64)
        ensures
            *final(self) == old(self).updated(now),
    {
        match &self.popup_type {
            PopupType::TextBox { created_at, duration, .. } => {
                let since: u64 = if now >= *created_at {
                    now - *created_at
                } else {
                    0
                };
                if since >= *duration {
                    self.active = false;
                }
            },
        }
    }
}

/// A text box is active when it is made, stays active on updates before its
/// duration has passed, and is inactive after an update once it has.
pub proof fn lemma_text_box_lifetime(text: String, duration: u64, created_at: u64, now: u64)
    ensures
        Popup::text_box(text, duration, created_at).active,
        created_at <= now < created_at + duration ==> Popup::text_box(text, duration, created_at).updated(now).active,
        now >= created_at + duration ==> !Popup::text_box(text, duration, created_at).updated(now).active,
{
}

} // verus!
