use vstd::prelude::*;
use crate::log::EventLog;
use crate::theme::Theme;

verus! {

/// The frame around every screen: the title bar and a footer of key help.
pub struct Chrome<'a> {
    pub theme: &'a Theme,
    pub footer: &'a str,
}

impl<'a> Chrome<'a> {
    pub fn new(theme: &'a Theme, footer: &'a str) -> (c: Chrome<'a>)
        ensures
            c.theme == theme,
            c.footer == footer,
    {
        Chrome { theme, footer }
    }
}

/// The panel that shows the newest log messages.
pub struct LogView<'a> {
    pub log: &'a EventLog,
    pub theme: &'a Theme,
}

impl<'a> LogView<'a> {
    pub fn new(log: &'a EventLog, theme: &'a Theme) -> (v: LogView<'a>)
        ensures
            v.log == log,
            v.theme == theme,
    {
        LogView { log, theme }
    }
}

/// A centred list with one highlighted entry, and a message for when it is
/// empty.
pub struct SelectList<'a> {
    pub theme: &'a Theme,
    pub items: Vec<String>,
    pub selected: usize,
    pub empty: Option<&'a str>,
}

impl<'a> SelectList<'a> {
    pub fn new(theme: &'a Theme, items: Vec<String>, selected: usize) -> (l: SelectList<'a>)
        ensures
            l.theme == theme,
            l.items == items,
            l.selected == selected,
            l.empty is None,
    {
        SelectList { theme, items, selected, empty: None }
    }

    /// Sets the message shown when the list is empty.
    pub fn empty(self, message: &'a str) -> (l: SelectList<'a>)
        ensures
            l.theme == self.theme,
            l.items == self.items,
            l.selected == self.selected,
            l.empty == Some(message),
    {
        SelectList { empty: Some(message), ..self }
    }
}

} // verus!
