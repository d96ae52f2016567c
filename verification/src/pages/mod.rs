//! The pages of the operator console and what they ask the console to do.
use vstd::prelude::*;

pub mod dashboard;
pub mod login;

use dashboard::{spec_dashboard_update, DashboardPage, Layer};
use login::{spec_login_update, LoginPage, LoginState, Settings, SettingsView};

verus! {

/// Work that the console must carry out for a page.
pub enum Command {
    Nothing,
    /// Connect to the broker at this URL and report the outcome.
    Connect(String),
    /// Store these settings for the next start.
    SaveSettings(Settings),
}

/// The view of a command.
pub enum CommandView {
    Nothing,
    Connect(Seq<char>),
    SaveSettings(SettingsView),
}

impl View for Command {
    type V = CommandView;

    open spec fn view(&self) -> CommandView {
        match self {
            Command::Nothing => CommandView::Nothing,
            Command::Connect(u) => CommandView::Connect(u@),
            Command::SaveSettings(s) => CommandView::SaveSettings(s@),
        }
    }
}

/// A page of the console.
pub enum Page {
    Login(LoginPage),
    Dashboard(DashboardPage),
}

/// The view of a page.
pub enum PageView {
    Login(LoginState),
    Dashboard(Layer),
}

impl View for Page {
    type V = PageView;

    open spec fn view(&self) -> PageView {
        match self {
            Page::Login(p) => PageView::Login(p@),
            Page::Dashboard(p) => PageView::Dashboard(p@),
        }
    }
}

/// A message for one of the pages.
pub enum Message {
    Login(login::Message),
    Dashboard(dashboard::Message),
}

/// What a page asks after a message: a command, or a switch to another page
/// followed by a command.
pub enum PageAction {
    Command(Command),
    ChangePage { page: Page, command: Command },
}

/// The view of a page's request.
pub enum PageActionView {
    Command(CommandView),
    ChangePage(PageView, CommandView),
}

impl View for PageAction {
    type V = PageActionView;

    open spec fn view(&self) -> PageActionView {
        match self {
            PageAction::Command(c) => PageActionView::Command(c@),
            PageAction::ChangePage { page, command } => PageActionView::ChangePage(page@, command@),
        }
    }
}

/// The message is meant for the page shown.
pub open spec fn message_for(p: PageView, m: Message) -> bool {
    match (p, m) {
        (PageView::Login(_), Message::Login(_)) => true,
        (PageView::Dashboard(_), Message::Dashboard(_)) => true,
        _ => false,
    }
}

/// The page after a message meant for it, and what it asks.
pub open spec fn spec_page_update(p: PageView, m: Message) -> (PageView, PageActionView) {
    match (p, m) {
        (PageView::Login(s), Message::Login(lm)) => {
            let (n, a) = spec_login_update(s, lm);
            (PageView::Login(n), a)
        },
        (PageView::Dashboard(l), Message::Dashboard(dm)) => {
            let (n, a) = spec_dashboard_update(l, dm);
            (PageView::Dashboard(n), a)
        },
        _ => (p, PageActionView::Command(CommandView::Nothing)),
    }
}

impl Page {
    /// Hands a message to the page shown. A message for another page is a
    /// programming error.
    pub fn update(&mut self, message: Message) -> (a: PageAction)
        requires
            message_for(old(self)@, message),
        ensures
            (final(self)@, a@) == spec_page_update(old(self)@, message),
    {
        match message {
            Message::Login(m) => match self {
                Page::Login(p) => p.update(m),
                Page::Dashboard(_) => {
                    assert(false);
                    PageAction::Command(Command::Nothing)
                },
            },
            Message::Dashboard(m) => match self {
                Page::Dashboard(p) => p.update(m),
                Page::Login(_) => {
                    assert(false);
                    PageAction::Command(Command::Nothing)
                },
            },
        }
    }
}

} // verus!
