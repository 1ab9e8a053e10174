//! The message shown in the bottom line for a while.

use vstd::prelude::*;

verus! {

/// Whether a message set at `set_at` is still shown at `now`, when messages
/// live for `lifetime`. All three are counted in the same unit of time.
pub open spec fn is_live(set_at: int, now: int, lifetime: int) -> bool {
    now - set_at < lifetime
}

/// A text with the time at which it was set.
pub struct StatusMessage {
    text: Vec<char>,
    set_at: u64,
}

impl StatusMessage {
    /// The text of the message.
    pub closed spec fn text_view(&self) -> Seq<char> {
        self.text@
    }

    /// The time at which the message was set.
    pub closed spec fn set_at(&self) -> int {
        self.set_at as int
    }

    /// What the message bar shows at `now`: the text while the message
    /// lives, nothing afterwards.
    pub open spec fn shown(&self, now: int, lifetime: int) -> Seq<char> {
        if is_live(self.set_at(), now, lifetime) {
            self.text_view()
        } else {
            Seq::empty()
        }
    }

    /// No message.
    pub fn new() -> (message: StatusMessage)
        ensures
            message.text_view() == Seq::<char>::empty(),
            message.set_at() == 0,
    {
        StatusMessage { text: Vec::new(), set_at: 0 }
    }

    /// Replaces the message.
    pub fn set(&mut self, text: Vec<char>, now: u64)
        ensures
            final(self).text_view() == text@,
            final(self).set_at() == now,
    {
        self.text = text;
        self.set_at = now;
    }

    /// The text, whether it is still shown or not.
    pub fn text(&self) -> (text: &Vec<char>)
        ensures
            text@ == self.text_view(),
    {
        &self.text
    }

    /// Whether the message is still shown at `now`.
    pub fn live(&self, now: u64, lifetime: u64) -> (live: bool)
        ensures
            live == is_live(self.set_at(), now as int, lifetime as int),
    {
        now < self.set_at || now - self.set_at < lifetime
    }
}

} // verus!
