//! What is to be drawn.

use crate::app::{App, AppView, Screen};
use crate::screens::chat_list::{Contact, ContactView, contacts_of, name_of};
use crate::text::join;
use vstd::prelude::*;

verus! {

/// What fills the terminal.
#[derive(Debug, Clone, Copy, PartialEq, Eq, Structural)]
pub enum Base {
    Main,
    Settings,
    ContactSearch,
    SafetyNumber,
    IdentityQr,
    DeviceLink,
    Registering,
    /// The passphrase, to unlock or to set.
    Passphrase,
    Onboarding,
}

/// What is said on top of it.
#[derive(Debug, Clone, PartialEq)]
pub enum Notice<T = String> {
    Silent,
    /// Something is under way.
    Busy(T),
    /// Sign-in failed.
    Failed(T),
    /// Whether to remove the contact of this name.
    Removal(T),
}

#[derive(Debug, Clone, PartialEq)]
pub struct Drawing<T = String> {
    pub base: Base,
    pub notice: Notice<T>,
}

impl View for Drawing {
    type V = Drawing<Seq<char>>;

    open spec fn view(&self) -> Drawing<Seq<char>> {
        Drawing { base: self.base, notice: self.notice@ }
    }
}

impl View for Notice {
    type V = Notice<Seq<char>>;

    open spec fn view(&self) -> Notice<Seq<char>> {
        match *self {
            Notice::Silent => Notice::Silent,
            Notice::Busy(t) => Notice::Busy(t@),
            Notice::Failed(t) => Notice::Failed(t@),
            Notice::Removal(t) => Notice::Removal(t@),
        }
    }
}

#[derive(Debug, Clone, Copy, PartialEq, Eq, Structural)]
pub enum Ink {
    Cyan,
    White,
    Yellow,
    Red,
}

/// A run of text in one color.
#[derive(Debug, Clone, PartialEq)]
pub struct Run<T = String> {
    pub ink: Ink,
    pub text: T,
}

impl View for Run {
    type V = Run<Seq<char>>;

    open spec fn view(&self) -> Run<Seq<char>> {
        Run { ink: self.ink, text: self.text@ }
    }
}

pub open spec fn runs_of(s: Seq<Run>) -> Seq<Run<Seq<char>>> {
    s.map_values(|r: Run| r@)
}

/// The line that says a notice.
pub open spec fn notice_line(n: Notice<Seq<char>>) -> Seq<Run<Seq<char>>> {
    match n {
        Notice::Silent => Seq::empty(),
        Notice::Busy(t) => seq![
            Run { ink: Ink::Cyan, text: "  ⠋ "@ },
            Run { ink: Ink::White, text: t },
        ],
        Notice::Failed(t) => seq![
            Run { ink: Ink::Red, text: "  ✗ "@ + t + "  (any key to retry)"@ },
        ],
        Notice::Removal(name) => seq![
            Run { ink: Ink::Yellow, text: "  ⚠ Remove node "@ },
            Run { ink: Ink::White, text: name },
            Run { ink: Ink::Yellow, text: " and all messages? [y] confirm  [any] cancel"@ },
        ],
    }
}

/// The name to ask about when the contact `id` is to be deleted: theirs, or else the id.
pub open spec fn asked_name(contacts: Seq<ContactView>, id: Seq<char>) -> Seq<char> {
    match name_of(contacts, id) {
        Some(name) => name,
        None => id,
    }
}

pub open spec fn plain(base: Base) -> Drawing<Seq<char>> {
    Drawing { base, notice: Notice::Silent }
}

/// What to draw. The safety number gives way to the settings while there is none to show.
pub open spec fn drawn(v: AppView, contacts: Seq<ContactView>, has_number: bool) -> (
    AppView,
    Drawing<Seq<char>>,
) {
    match v.screen {
        Screen::Main => (
            v,
            Drawing {
                base: Base::Main,
                notice: match v.delete_confirm {
                    Some(id) => Notice::Removal(asked_name(contacts, id)),
                    None => Notice::Silent,
                },
            },
        ),
        Screen::Settings => (v, plain(Base::Settings)),
        Screen::ContactSearch => (v, plain(Base::ContactSearch)),
        Screen::SafetyNumber => if has_number {
            (v, plain(Base::SafetyNumber))
        } else {
            (AppView { screen: Screen::Settings, ..v }, plain(Base::Settings))
        },
        Screen::IdentityQr => (v, plain(Base::IdentityQr)),
        Screen::DeviceLink => (v, plain(Base::DeviceLink)),
        Screen::Registering => (v, plain(Base::Registering)),
        Screen::Unlock | Screen::SetPassphrase => (v, plain(Base::Passphrase)),
        Screen::Startup => (
            v,
            Drawing { base: Base::Onboarding, notice: Notice::Busy("Restoring session…"@) },
        ),
        Screen::Connecting(msg) => (
            v,
            Drawing { base: Base::Onboarding, notice: Notice::Busy(msg) },
        ),
        Screen::AuthError(msg) => (
            v,
            Drawing { base: Base::Onboarding, notice: Notice::Failed(msg) },
        ),
        Screen::Onboarding => (v, plain(Base::Onboarding)),
    }
}

impl Notice {
    /// The line that says it.
    pub fn line(&self) -> (r: Vec<Run>)
        ensures
            runs_of(r@) == notice_line(self@),
    {
        let r: Vec<Run> = match self {
            Notice::Silent => Vec::new(),
            Notice::Busy(t) => vec![
                Run { ink: Ink::Cyan, text: "  ⠋ ".to_string() },
                Run { ink: Ink::White, text: t.clone() },
            ],
            Notice::Failed(t) => vec![
                Run {
                    ink: Ink::Red,
                    text: join(join("  ✗ ", t.as_str()).as_str(), "  (any key to retry)"),
                },
            ],
            Notice::Removal(name) => vec![
                Run { ink: Ink::Yellow, text: "  ⚠ Remove node ".to_string() },
                Run { ink: Ink::White, text: name.clone() },
                Run {
                    ink: Ink::Yellow,
                    text: " and all messages? [y] confirm  [any] cancel".to_string(),
                },
            ],
        };
        assert(runs_of(r@) =~= notice_line(self@));
        r
    }
}

fn bare(base: Base) -> (r: Drawing)
    ensures
        r@ == plain(base),
{
    Drawing { base, notice: Notice::Silent }
}

impl App {
    /// What to draw, where `has_safety_number` tells whether there is one to show.
    pub fn drawing(&mut self, contacts: &[Contact], has_safety_number: bool) -> (r: Drawing)
        ensures
            (final(self)@, r@) == drawn(old(self)@, contacts_of(contacts@), has_safety_number),
    {
        match &self.screen {
            Screen::Main => Drawing {
                base: Base::Main,
                notice: match self.delete_prompt(contacts) {
                    Some(name) => Notice::Removal(name),
                    None => Notice::Silent,
                },
            },
            Screen::Settings => bare(Base::Settings),
            Screen::ContactSearch => bare(Base::ContactSearch),
            Screen::SafetyNumber => {
                if has_safety_number {
                    bare(Base::SafetyNumber)
                } else {
                    self.screen = Screen::Settings;
                    bare(Base::Settings)
                }
            },
            Screen::IdentityQr => bare(Base::IdentityQr),
            Screen::DeviceLink => bare(Base::DeviceLink),
            Screen::Registering => bare(Base::Registering),
            Screen::Unlock | Screen::SetPassphrase => bare(Base::Passphrase),
            Screen::Startup => Drawing {
                base: Base::Onboarding,
                notice: Notice::Busy("Restoring session…".to_string()),
            },
            Screen::Connecting(msg) => Drawing {
                base: Base::Onboarding,
                notice: Notice::Busy(msg.clone()),
            },
            Screen::AuthError(msg) => Drawing {
                base: Base::Onboarding,
                notice: Notice::Failed(msg.clone()),
            },
            Screen::Onboarding => bare(Base::Onboarding),
        }
    }
}

/// Drawing changes nothing but a safety number screen that has no number.
pub proof fn law_drawing_keeps_the_state(
    v: AppView,
    contacts: Seq<ContactView>,
    has_number: bool,
)
    requires
        v.screen is SafetyNumber ==> has_number,
    ensures
        drawn(v, contacts, has_number).0 == v,
{
}

/// Drawing again gives the same picture.
pub proof fn law_drawing_is_stable(v: AppView, contacts: Seq<ContactView>, has_number: bool)
    ensures
        drawn(drawn(v, contacts, has_number).0, contacts, has_number) == drawn(
            v,
            contacts,
            has_number,
        ),
{
}

/// While a contact is to be deleted, the main screen asks about it by name; no other screen
/// asks.
pub proof fn law_the_question_is_shown(v: AppView, contacts: Seq<ContactView>, has_number: bool)
    ensures
        drawn(v, contacts, has_number).1.notice is Removal <==> v.screen is Main
            && v.delete_confirm is Some,
        v.screen is Main ==> (v.delete_confirm matches Some(id) ==> drawn(
            v,
            contacts,
            has_number,
        ).1.notice == Notice::Removal(asked_name(contacts, id))),
{
}

} // verus!
