//! Which menu is active, and how a locale switch changes it.
//!
//! The host windowing system owns the installed menu. The caller builds the
//! menu for the requested locale, asks the host to install it, and reports
//! what the host answered; the controller decides what is active afterwards.

use vstd::prelude::*;
use crate::builder::{build, menu_of};
use crate::labels::labels_of;
use crate::locale::Locale;
use crate::menu::{MenuTree, Node};

verus! {

/// The locale whose menu is active after a switch to `lang` was attempted
/// while the menu of `before` was active: the new one if the host installed
/// it, the old one if it did not.
pub open spec fn after_switch(before: Locale, lang: Seq<char>, installed: bool) -> Locale {
    if installed {
        Locale::of(lang)
    } else {
        before
    }
}

/// The record of the menu that the host has installed.
#[derive(Debug)]
pub struct MenuController {
    locale: Locale,
}

impl MenuController {
    /// The locale of the active menu.
    pub closed spec fn active_locale(&self) -> Locale {
        self.locale
    }

    /// The active menu.
    pub open spec fn active(&self) -> Seq<Node> {
        menu_of(labels_of(self.active_locale()))
    }

    /// The menu that is installed at startup: that of the fallback locale,
    /// whatever locale the user will select later.
    pub fn startup_menu() -> (tree: MenuTree)
        ensures
            tree@ == menu_of(labels_of(Locale::fallback())),
            tree.well_formed(),
    {
        let t = Locale::ZhCn.menu_texts();
        build(&t)
    }

    /// Takes the host's answer to installing the startup menu. A failure is
    /// fatal: there is no controller without an installed menu, and the
    /// host's message is handed back unchanged.
    pub fn start(report: Result<(), String>) -> (started: Result<MenuController, String>)
        ensures
            match report {
                Ok(_) => started is Ok && started->Ok_0.active_locale() == Locale::fallback(),
                Err(message) => started == Err::<MenuController, String>(message),
            },
    {
        match report {
            Ok(_) => Ok(MenuController { locale: Locale::ZhCn }),
            Err(message) => Err(message),
        }
    }

    /// The locale of the active menu.
    pub fn locale(&self) -> (locale: Locale)
        ensures
            locale == self.active_locale(),
    {
        self.locale
    }

    /// A fresh copy of the active menu.
    pub fn active_menu(&self) -> (tree: MenuTree)
        ensures
            tree@ == self.active(),
            tree.well_formed(),
    {
        let t = self.locale.menu_texts();
        build(&t)
    }

    /// Takes the host's answer to replacing the active menu by that of
    /// `lang`. If the host installed it, it is the active menu from now on.
    /// If the host failed to build or to install it, the menu that was
    /// active stays active, and the host's message is handed back unchanged.
    pub fn update_menu_language(&mut self, lang: &str, report: Result<(), String>) -> (outcome:
        Result<(), String>)
        ensures
            outcome == report,
            final(self).active_locale() == after_switch(
                old(self).active_locale(),
                lang@,
                report is Ok,
            ),
    {
        match report {
            Ok(done) => {
                self.locale = Locale::resolve(lang);
                Ok(done)
            },
            Err(message) => Err(message),
        }
    }
}

/// Switching to the same locale twice leaves the same menu active as
/// switching once.
pub proof fn lemma_switch_is_idempotent(before: Locale, lang: Seq<char>)
    ensures
        after_switch(after_switch(before, lang, true), lang, true) == after_switch(
            before,
            lang,
            true,
        ),
        menu_of(labels_of(after_switch(after_switch(before, lang, true), lang, true))) == menu_of(
            labels_of(after_switch(before, lang, true)),
        ),
{
}

/// A switch that the host rejected changes nothing, and a switch that the
/// host carried out makes the menu of the requested locale active, whatever
/// was active before.
pub proof fn lemma_switch_replaces_or_keeps(before: Locale, lang: Seq<char>)
    ensures
        after_switch(before, lang, false) == before,
        menu_of(labels_of(after_switch(before, lang, true))) == menu_of(
            labels_of(Locale::of(lang)),
        ),
{
}

} // verus!
