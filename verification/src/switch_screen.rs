//! The option-selector widget: a short vertical list of labeled actions,
//! each bound to a target screen, with a circularly moving highlight.

use vstd::prelude::*;
use crate::screen::Screen;

verus! {

/// Marker for the selector's rendering; it carries no state of its own.
pub struct ScreenSwitcher {}

impl ScreenSwitcher {
    pub fn new() -> Self {
        Self {}
    }
}

/// A list of labeled options, each leading to a target screen, together
/// with the index of the highlighted option.
pub struct ScreenSwitcherState {
    pub title: String,
    pub options: Vec<(String, Screen)>,
    pub idx: usize,
}

impl ScreenSwitcherState {
    /// The highlight always rests on an option, so the list is non-empty.
    pub open spec fn wf(&self) -> bool {
        self.idx < self.options@.len()
    }

    /// Moves the highlight one option up, wrapping from the first option to
    /// the last.
    pub fn up(&mut self)
        requires
            old(self).wf(),
        ensures
            final(self).wf(),
            final(self).title == old(self).title,
            final(self).options == old(self).options,
            old(self).idx == 0 ==> final(self).idx == old(self).options@.len() - 1,
            old(self).idx > 0 ==> final(self).idx == old(self).idx - 1,
    {
        if self.idx == 0 {
            self.idx = self.options.len() - 1;
        } else {
            self.idx = self.idx - 1;
        }
    }

    /// Moves the highlight one option down, wrapping from the last option to
    /// the first.
    pub fn down(&mut self)
        requires
            old(self).wf(),
        ensures
            final(self).wf(),
            final(self).title == old(self).title,
            final(self).options == old(self).options,
            old(self).idx + 1 == old(self).options@.len() ==> final(self).idx == 0,
            old(self).idx + 1 < old(self).options@.len() ==> final(self).idx == old(self).idx
                + 1,
    {
        if self.idx == self.options.len() - 1 {
            self.idx = 0;
        } else {
            self.idx = self.idx + 1;
        }
    }

    /// The screen the highlighted option leads to.
    pub fn target_screen(&self) -> (r: Screen)
        requires
            self.wf(),
        ensures
            r == self.options@[self.idx as int].1,
    {
        self.options[self.idx].1
    }

    /// How many options the selector offers.
    pub fn get_options_count(&self) -> (r: usize)
        ensures
            r == self.options@.len(),
    {
        self.options.len()
    }
}

/// Accumulates the option list for a `ScreenSwitcherState`.
pub struct ScreenSwitcherStateBuilder {
    pub title: String,
    pub options: Vec<(String, Screen)>,
}

impl ScreenSwitcherStateBuilder {
    pub fn new(title: String) -> (r: ScreenSwitcherStateBuilder)
        ensures
            r.title == title,
            r.options@.len() == 0,
    {
        Self { title, options: Vec::new() }
    }

    /// Appends one labeled option bound to a target screen.
    pub fn with_option(self, text: String, target_screen: Screen) -> (r: Self)
        ensures
            r.title == self.title,
            r.options@ == self.options@.push((text, target_screen)),
    {
        let mut s = self;
        s.options.push((text, target_screen));
        s
    }

    /// Finishes the selector with the highlight on the first option.
    pub fn build(self) -> (r: ScreenSwitcherState)
        ensures
            r.title == self.title,
            r.options == self.options,
            r.idx == 0,
            self.options@.len() > 0 ==> r.wf(),
    {
        ScreenSwitcherState { title: self.title, options: self.options, idx: 0 }
    }
}

} // verus!
