//! The receive pane's text and how far it is scrolled.
use vstd::prelude::*;
use vstd::string::*;

verus! {

#[derive(Debug)]
pub struct ReceiveTextState {
    content: String,
    scroll: u16,
}

impl ReceiveTextState {
    pub closed spec fn text(&self) -> Seq<char> {
        self.content@
    }

    pub closed spec fn scroll_offset(&self) -> u16 {
        self.scroll
    }

    pub fn new() -> (r: Self)
        ensures
            r.text().len() == 0,
            r.scroll_offset() == 0,
    {
        ReceiveTextState { content: String::new(), scroll: 0 }
    }

    /// Adds text after what was received before.
    pub fn append_text(&mut self, s: &str)
        ensures
            final(self).text() == old(self).text() + s@,
            final(self).scroll_offset() == old(self).scroll_offset(),
    {
        self.content.append(s);
    }

    pub fn content(&self) -> (r: &str)
        ensures
            r@ == self.text(),
    {
        self.content.as_str()
    }

    pub fn scroll(&self) -> (r: u16)
        ensures
            r == self.scroll_offset(),
    {
        self.scroll
    }

    pub fn set_scroll(&mut self, scroll: u16)
        ensures
            final(self).text() == old(self).text(),
            final(self).scroll_offset() == scroll,
    {
        self.scroll = scroll;
    }
}

impl Default for ReceiveTextState {
    fn default() -> (r: Self)
        ensures
            r.text().len() == 0,
            r.scroll_offset() == 0,
    {
        Self::new()
    }
}

/// The receive pane, drawn from a `ReceiveTextState`.
#[derive(Debug, Clone, Copy)]
pub struct ReceiveText;

} // verus!
