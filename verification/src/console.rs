//! The operator console: the page shown and how messages move it.
use crate::pages::login::LoginPage;
use crate::pages::{message_for, spec_page_update, Command, CommandView, Page, PageAction, PageActionView, PageView};
use vstd::prelude::*;

verus! {

/// A message of the console.
pub enum Message {
    Page(crate::pages::Message),
}

/// The console.
pub struct NauticApp {
    page: Page,
}

impl View for NauticApp {
    /// The page shown.
    type V = PageView;

    closed spec fn view(&self) -> PageView {
        self.page@
    }
}

/// The page shown after a message, and the command to carry out: a page's
/// switch takes effect at once.
pub open spec fn spec_app_update(p: PageView, m: Message) -> (PageView, CommandView) {
    match m {
        Message::Page(pm) => {
            let (n, a) = spec_page_update(p, pm);
            match a {
                PageActionView::Command(c) => (n, c),
                PageActionView::ChangePage(q, c) => (q, c),
            }
        },
    }
}

/// What the console does with a page's request: a command leaves the page
/// as the page made it and is carried out; a switch shows the new page, and
/// its command is nothing, or the storing of the settings that the login
/// page was asked to remember.
pub proof fn lemma_app_update(p: PageView, m: crate::pages::Message)
    ensures
        match spec_page_update(p, m).1 {
            PageActionView::Command(c) => spec_app_update(p, Message::Page(m)) == (
                spec_page_update(p, m).0,
                c,
            ),
            PageActionView::ChangePage(q, c) => {
                &&& spec_app_update(p, Message::Page(m)) == (q, c)
                &&& (c is Nothing || c is SaveSettings)
            },
        },
{
}

/// The message is meant for the page shown.
pub open spec fn app_message_for(p: PageView, m: Message) -> bool {
    match m {
        Message::Page(pm) => message_for(p, pm),
    }
}

impl NauticApp {
    /// The console at start, on the login page.
    pub fn new(login: LoginPage) -> (a: NauticApp)
        ensures
            a@ == PageView::Login(login@),
    {
        NauticApp { page: Page::Login(login) }
    }

    /// The window's title.
    pub fn title(&self) -> (t: String)
        ensures
            t@ == seq!['E', 'a', 's', 'y', ' ', 'R', 'o', 'b', 'o', 't', 'i', 'c', 's'],
    {
        proof {
            reveal_strlit("Easy Robotics");
        }
        let t = String::from_str("Easy Robotics");
        assert(t@ =~= seq!['E', 'a', 's', 'y', ' ', 'R', 'o', 'b', 'o', 't', 'i', 'c', 's']);
        t
    }

    /// The page shown.
    pub fn page(&self) -> (p: &Page)
        ensures
            p@ == self@,
    {
        &self.page
    }

    /// Handles a message; returns the command to carry out.
    pub fn update(&mut self, message: Message) -> (c: Command)
        requires
            app_message_for(old(self)@, message),
        ensures
            (final(self)@, c@) == spec_app_update(old(self)@, message),
    {
        match message {
            Message::Page(m) => match self.page.update(m) {
                PageAction::Command(command) => command,
                PageAction::ChangePage { page, command } => {
                    self.page = page;
                    command
                },
            },
        }
    }
}

} // verus!
