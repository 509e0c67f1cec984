use vstd::prelude::*;
use crate::input::Input;
use crate::layout::{popup_scroll, spec_popup_scroll, POPUP_PAGE};
use crate::theme::Theme;
use crate::nav::{Request, UiState};

verus! {

/// An open popup: a title, its lines (of whatever the renderer draws), how
/// far it is scrolled, and the palette it was built with.
pub struct PopupState<L> {
    pub title: String,
    pub lines: Vec<L>,
    pub scroll: usize,
    pub theme: Theme,
}

impl<L> PopupState<L> {
    /// An empty popup, scrolled to the top.
    pub fn new(theme: &Theme, title: String) -> (p: PopupState<L>)
        ensures
            p.title@ == title@,
            p.lines@.len() == 0,
            p.scroll == 0,
            p.theme == *theme,
    {
        PopupState { title, lines: Vec::new(), scroll: 0, theme: *theme }
    }

    /// Appends a line.
    pub fn line(self, line: L) -> (p: PopupState<L>)
        ensures
            p.title == self.title,
            p.lines@ == self.lines@.push(line),
            p.scroll == self.scroll,
            p.theme == self.theme,
    {
        let mut p = self;
        p.lines.push(line);
        p
    }

    /// Scrolls on the scroll keys and answers `true`; any other key answers
    /// `false`, which closes the popup, and leaves it as it was.
    pub fn on_input(&mut self, input: Input) -> (kept: bool)
        requires
            old(self).scroll <= usize::MAX - POPUP_PAGE,
        ensures
            kept == spec_popup_scroll(old(self).scroll, old(self).lines@.len() as usize, input) is Some,
            kept ==> final(self).scroll == spec_popup_scroll(old(self).scroll, old(self).lines@.len() as usize, input)->0,
            !kept ==> final(self).scroll == old(self).scroll,
            final(self).lines@ == old(self).lines@,
            final(self).title == old(self).title,
            final(self).theme == old(self).theme,
    {
        match popup_scroll(self.scroll, self.lines.len(), input) {
            Some(s) => {
                self.scroll = s;
                true
            },
            None => false,
        }
    }
}

/// A key press: an open popup takes it (and closes on any key that does not
/// scroll it); otherwise the current screen does.
pub fn route_input<L>(
    popup: &mut Option<PopupState<L>>,
    ui: &mut UiState,
    input: Input,
    saves: usize,
    pods: usize,
) -> (r: Request)
    requires
        *old(popup) matches Some(p) ==> p.scroll <= usize::MAX - POPUP_PAGE,
        *old(popup) is None ==> old(ui)@.wf() && old(ui)@.input_ok(input, saves),
    ensures
        *old(popup) matches Some(p) ==> {
            &&& r == Request::Nothing
            &&& final(ui)@ == old(ui)@
            &&& match spec_popup_scroll(p.scroll, p.lines@.len() as usize, input) {
                Some(s) => *final(popup) matches Some(q) && q.scroll == s && q.lines@ == p.lines@,
                None => *final(popup) is None,
            }
        },
        *old(popup) is None ==> *final(popup) is None && (final(ui)@, r) == old(ui)@.on_input(input, saves, pods),
{
    match popup {
        Some(p) => {
            if !p.on_input(input) {
                *popup = None;
            }
            Request::Nothing
        },
        None => ui.on_input(input, saves, pods),
    }
}

} // verus!
