//! The clipboard monitor's decisions: which clipboard texts to send to the
//! peer, without echoing back a text the peer just sent.

use vstd::prelude::*;

verus! {

/// The text the monitor saw on the clipboard last.
#[derive(Debug)]
pub struct ClipboardMonitor {
    pub last_text: String,
}

/// The text of a clipboard read, empty when it could not be read.
pub open spec fn text_or_empty(current: Option<Seq<char>>) -> Seq<char> {
    match current {
        Some(t) => t,
        None => Seq::empty(),
    }
}

/// One poll: the text remembered afterwards and the text to send, if any.
/// After the program's own change the monitor only takes note of the text;
/// otherwise it sends a text that differs from the remembered one and is not
/// empty, and remembers it.
pub open spec fn spec_poll(last: Seq<char>, own_set: bool, current: Option<Seq<char>>) -> (
    Seq<char>,
    Option<Seq<char>>,
) {
    if own_set {
        (text_or_empty(current), None)
    } else {
        match current {
            Some(t) => if t != last && t.len() > 0 {
                (t, Some(t))
            } else {
                (last, None)
            },
            None => (last, None),
        }
    }
}

/// The view of a clipboard read.
pub open spec fn read_view(current: Option<String>) -> Option<Seq<char>> {
    match current {
        Some(t) => Some(t@),
        None => None,
    }
}

impl ClipboardMonitor {
    /// A monitor that starts from the clipboard's current text (empty if it
    /// could not be read).
    pub fn new(initial: Option<String>) -> (m: Self)
        ensures
            m.last_text@ == text_or_empty(read_view(initial)),
    {
        let last_text = match initial {
            Some(t) => t,
            None => String::new(),
        };
        ClipboardMonitor { last_text }
    }

    /// One poll of the clipboard. `own_set` says whether the program itself
    /// set the clipboard since the last poll (the caller clears that flag);
    /// `current` is the clipboard's text, if it could be read. Returns the
    /// text to send to the peer, if any.
    pub fn poll(&mut self, own_set: bool, current: Option<String>) -> (send: Option<String>)
        ensures
            final(self).last_text@ == spec_poll(old(self).last_text@, own_set, read_view(current)).0,
            read_view(send) == spec_poll(old(self).last_text@, own_set, read_view(current)).1,
    {
        if own_set {
            self.last_text = match current {
                Some(t) => t,
                None => String::new(),
            };
            return None;
        }
        match current {
            Some(text) => {
                if text != self.last_text && !text.as_str().is_empty() {
                    self.last_text = text.clone();
                    Some(text)
                } else {
                    None
                }
            },
            None => None,
        }
    }
}

/// Law (echo prevention): a text the program put on the clipboard itself is
/// not sent back, neither by the poll that notices the change nor by the
/// next poll while the clipboard still holds it.
pub proof fn lemma_own_text_not_echoed(last: Seq<char>, text: Seq<char>)
    ensures
        spec_poll(last, true, Some(text)).1 is None,
        spec_poll(spec_poll(last, true, Some(text)).0, false, Some(text)).1 is None,
{
}

/// Law: a text that was just sent is not sent again by the next poll while
/// the clipboard still holds it; and nothing empty is ever sent.
pub proof fn lemma_no_repeat_send(last: Seq<char>, own_set: bool, current: Option<Seq<char>>)
    ensures
        spec_poll(last, own_set, current).1 matches Some(t) ==> t.len() > 0 && spec_poll(
            spec_poll(last, own_set, current).0,
            false,
            Some(t),
        ).1 is None,
{
}

/// Law: when the program did not set the clipboard itself, a non-empty text
/// that differs from the remembered one is sent and remembered, whatever its
/// length; the remembered text itself, or an empty one, is not sent.
pub proof fn lemma_new_text_is_sent(last: Seq<char>, t: Seq<char>)
    ensures
        t != last && t.len() > 0 ==> spec_poll(last, false, Some(t)) == (t, Some(t)),
        spec_poll(last, false, Some(last)) == (last, None::<Seq<char>>),
        spec_poll(last, false, Some(Seq::<char>::empty())) == (last, None::<Seq<char>>),
{
}

} // verus!
