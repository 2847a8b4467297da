//! What the interactive screen shows: the input being typed, the visible
//! history and how far it is scrolled.

use vstd::prelude::*;

verus! {

pub struct Tui {
    pub input: String,
    pub history: Vec<String>,
    pub scroll: u16,
}

pub open spec fn history_view(h: Seq<String>) -> Seq<Seq<char>> {
    h.map_values(|s: String| s@)
}

impl Tui {
    pub fn new() -> (r: Tui)
        ensures
            r.input@ == Seq::<char>::empty(),
            r.history@.len() == 0,
            r.scroll == 0,
    {
        Tui { input: String::new(), history: Vec::new(), scroll: 0 }
    }

    pub fn add_to_history(&mut self, msg: String)
        ensures
            final(self).history@ == old(self).history@.push(msg),
            history_view(final(self).history@) == history_view(old(self).history@).push(msg@),
            final(self).input == old(self).input,
            final(self).scroll == old(self).scroll,
    {
        self.history.push(msg);
        assert(history_view(self.history@) =~= history_view(old(self).history@).push(msg@));
    }

    pub fn scroll_up(&mut self)
        ensures
            final(self).scroll == if old(self).scroll > 0 {
                (old(self).scroll - 1) as u16
            } else {
                0
            },
            final(self).input == old(self).input,
            final(self).history == old(self).history,
    {
        self.scroll = if self.scroll > 0 {
            self.scroll - 1
        } else {
            0
        };
    }

    pub fn scroll_down(&mut self)
        ensures
            final(self).scroll == if old(self).scroll < u16::MAX {
                (old(self).scroll + 1) as u16
            } else {
                u16::MAX
            },
            final(self).input == old(self).input,
            final(self).history == old(self).history,
    {
        self.scroll = if self.scroll < u16::MAX {
            self.scroll + 1
        } else {
            u16::MAX
        };
    }

    /// Keeps the scroll within the history: at most the lines that do not
    /// fit in the visible height.
    pub fn clamp_scroll(&mut self, history_height: u16, visible_height: u16)
        ensures
            final(self).scroll == if old(self).scroll as int <= history_height as int - visible_height as int {
                old(self).scroll
            } else if history_height > visible_height {
                (history_height - visible_height) as u16
            } else {
                0
            },
            final(self).input == old(self).input,
            final(self).history == old(self).history,
    {
        let limit = if history_height > visible_height {
            history_height - visible_height
        } else {
            0
        };
        if self.scroll > limit {
            self.scroll = limit;
        }
    }
}

} // verus!
