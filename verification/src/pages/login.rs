//! The login page of the operator console: the broker's address and
//! credentials, checked as they are typed, and the connection attempt.
use super::dashboard::{spec_dashboard_new, DashboardPage};
use super::{Command, CommandView, Page, PageAction, PageActionView, PageView};
use crate::text::{decimal, is_blank, push_decimal, spec_is_blank};
use vstd::prelude::*;

verus! {

/// The connection settings that the console remembers.
pub struct Settings {
    pub ip: String,
    pub port: u16,
    pub username: String,
    pub password: String,
    pub vhost: String,
}

/// The view of connection settings.
pub struct SettingsView {
    pub ip: Seq<char>,
    pub port: u16,
    pub username: Seq<char>,
    pub password: Seq<char>,
    pub vhost: Seq<char>,
}

impl View for Settings {
    type V = SettingsView;

    open spec fn view(&self) -> SettingsView {
        SettingsView {
            ip: self.ip@,
            port: self.port,
            username: self.username@,
            password: self.password@,
            vhost: self.vhost@,
        }
    }
}

/// The settings used when none are stored: a local broker, user `root`.
pub open spec fn default_settings() -> SettingsView {
    SettingsView {
        ip: seq!['0', '.', '0', '.', '0', '.', '0'],
        port: 5672,
        username: seq!['r', 'o', 'o', 't'],
        password: seq!['r', 'o', 'o', 't'],
        vhost: seq!['/'],
    }
}

impl Default for Settings {
    fn default() -> (s: Settings)
        ensures
            s@ == default_settings(),
    {
        proof {
            reveal_strlit("0.0.0.0");
            reveal_strlit("root");
            reveal_strlit("/");
        }
        let s = Settings {
            ip: String::from_str("0.0.0.0"),
            port: 5672,
            username: String::from_str("root"),
            password: String::from_str("root"),
            vhost: String::from_str("/"),
        };
        assert(s.ip@ =~= default_settings().ip);
        assert(s.username@ =~= default_settings().username);
        assert(s.vhost@ =~= default_settings().vhost);
        s
    }
}

/// The login form.
pub struct LoginPage {
    ip: String,
    port: u16,
    username: String,
    password: String,
    vhost: String,
    remember: bool,
    correct: bool,
    connecting: bool,
    error: Option<String>,
}

/// The view of the login form. `correct` tells whether the form may be
/// submitted; `connecting`, whether an attempt is under way; `error`, why
/// the last attempt failed.
pub struct LoginState {
    pub ip: Seq<char>,
    pub port: u16,
    pub username: Seq<char>,
    pub password: Seq<char>,
    pub vhost: Seq<char>,
    pub remember: bool,
    pub correct: bool,
    pub connecting: bool,
    pub error: Option<Seq<char>>,
}

/// The view of an optional string.
pub open spec fn option_view(o: Option<String>) -> Option<Seq<char>> {
    match o {
        Some(s) => Some(s@),
        None => None,
    }
}

impl View for LoginPage {
    type V = LoginState;

    closed spec fn view(&self) -> LoginState {
        LoginState {
            ip: self.ip@,
            port: self.port,
            username: self.username@,
            password: self.password@,
            vhost: self.vhost@,
            remember: self.remember,
            correct: self.correct,
            connecting: self.connecting,
            error: option_view(self.error),
        }
    }
}

/// What the user or the connection attempt tells the login form.
pub enum Message {
    IpChanged(String),
    PortChanged(u16),
    UsernameChanged(String),
    PasswordChanged(String),
    VHostChanged(String),
    RememberChanged(bool),
    Connect,
    /// The outcome of the connection attempt: the error's message on failure.
    Connected(Result<(), String>),
}

impl Message {
    /// This message as a message of the console.
    pub fn wrap(self) -> (m: crate::console::Message)
        ensures
            m == crate::console::Message::Page(super::Message::Login(self)),
    {
        crate::console::Message::Page(super::Message::Login(self))
    }
}

/// The form may be submitted when no field of the address and credentials
/// is blank.
pub open spec fn form_correct(s: LoginState) -> bool {
    !spec_is_blank(s.ip) && !spec_is_blank(s.username) && !spec_is_blank(s.password)
        && !spec_is_blank(s.vhost)
}

/// The form after an edit, checked again.
pub open spec fn checked(s: LoginState) -> LoginState {
    LoginState { correct: form_correct(s), ..s }
}

/// The broker's URL: `amqp://user:password@ip:port/vhost`.
pub open spec fn amqp_url(s: LoginState) -> Seq<char> {
    seq!['a', 'm', 'q', 'p', ':', '/', '/'] + s.username + seq![':'] + s.password + seq!['@'] + s.ip
        + seq![':'] + decimal(s.port as nat) + seq!['/'] + s.vhost
}

/// The settings that the form holds.
pub open spec fn settings_of(s: LoginState) -> SettingsView {
    SettingsView {
        ip: s.ip,
        port: s.port,
        username: s.username,
        password: s.password,
        vhost: s.vhost,
    }
}

/// The form after a message, and what the console must do.
pub open spec fn spec_login_update(s: LoginState, m: Message) -> (LoginState, PageActionView) {
    let none = PageActionView::Command(CommandView::Nothing);
    match m {
        Message::IpChanged(v) => (checked(LoginState { ip: v@, ..s }), none),
        Message::PortChanged(v) => (checked(LoginState { port: v, ..s }), none),
        Message::UsernameChanged(v) => (checked(LoginState { username: v@, ..s }), none),
        Message::PasswordChanged(v) => (checked(LoginState { password: v@, ..s }), none),
        Message::VHostChanged(v) => (checked(LoginState { vhost: v@, ..s }), none),
        Message::RememberChanged(v) => (checked(LoginState { remember: v, ..s }), none),
        Message::Connect => (
            LoginState { connecting: true, ..s },
            PageActionView::Command(CommandView::Connect(amqp_url(s))),
        ),
        Message::Connected(Err(e)) => (LoginState { error: Some(e@), connecting: false, ..s }, none),
        Message::Connected(Ok(_)) => (
            LoginState { error: None, ..s },
            PageActionView::ChangePage(
                PageView::Dashboard(spec_dashboard_new()),
                if s.remember {
                    CommandView::SaveSettings(settings_of(s))
                } else {
                    CommandView::Nothing
                },
            ),
        ),
    }
}

/// The form filled with settings and an error message: remembering,
/// correct and idle.
pub open spec fn spec_from_settings(s: SettingsView, error: Option<Seq<char>>) -> LoginState {
    LoginState {
        ip: s.ip,
        port: s.port,
        username: s.username,
        password: s.password,
        vhost: s.vhost,
        remember: true,
        correct: true,
        connecting: false,
        error,
    }
}

/// The settings that a successful connection asks to store, when the form
/// remembers, fill the form at the next start with the same address and
/// credentials, remembering, correct, idle and without error.
pub proof fn lemma_saved_settings_reload(s: LoginState)
    requires
        s.remember,
    ensures
        spec_login_update(s, Message::Connected(Ok(()))).1 matches PageActionView::ChangePage(
            _,
            CommandView::SaveSettings(saved),
        ) && spec_from_settings(saved, None) == (LoginState {
            ip: s.ip,
            port: s.port,
            username: s.username,
            password: s.password,
            vhost: s.vhost,
            remember: true,
            correct: true,
            connecting: false,
            error: None,
        }),
{
}

/// The broker's URL, piece by piece: `amqp://`, the username, `:`, the
/// password, `@`, the address, `:`, the port in decimal, `/`, and the vhost
/// to the end.
pub proof fn lemma_amqp_url_layout(s: LoginState)
    ensures
        ({
            let url = amqp_url(s);
            let port = decimal(s.port as nat);
            let a: int = 7 + s.username.len() as int;
            let b: int = a + 1 + s.password.len();
            let c: int = b + 1 + s.ip.len();
            let d: int = c + 1 + port.len();
            &&& url.len() == d + 1 + s.vhost.len()
            &&& url.subrange(0, 7) == seq!['a', 'm', 'q', 'p', ':', '/', '/']
            &&& url.subrange(7, a) == s.username
            &&& url[a] == ':'
            &&& url.subrange(a + 1, b) == s.password
            &&& url[b] == '@'
            &&& url.subrange(b + 1, c) == s.ip
            &&& url[c] == ':'
            &&& url.subrange(c + 1, d) == port
            &&& url[d] == '/'
            &&& url.subrange(d + 1, url.len() as int) == s.vhost
        }),
{
    let url = amqp_url(s);
    let port = decimal(s.port as nat);
    let a: int = 7 + s.username.len() as int;
    let b: int = a + 1 + s.password.len();
    let c: int = b + 1 + s.ip.len();
    let d: int = c + 1 + port.len();
    assert(url.subrange(0, 7) =~= seq!['a', 'm', 'q', 'p', ':', '/', '/']);
    assert(url.subrange(7, a) =~= s.username);
    assert(url.subrange(a + 1, b) =~= s.password);
    assert(url.subrange(b + 1, c) =~= s.ip);
    assert(url.subrange(c + 1, d) =~= port);
    assert(url.subrange(d + 1, url.len() as int) =~= s.vhost);
}

/// Connecting marks the form as connecting, changes nothing else, and asks
/// the console to connect to the broker's URL built from the form's fields.
pub proof fn lemma_connect(s: LoginState)
    ensures
        spec_login_update(s, Message::Connect).0 == (LoginState { connecting: true, ..s }),
        spec_login_update(s, Message::Connect).1 == PageActionView::Command(
            CommandView::Connect(amqp_url(s)),
        ),
{
}

/// Editing a field sets that field alone to the value typed and checks the
/// form again: it may be submitted when none of the address, username,
/// password and vhost is blank. Nothing is asked of the console.
pub proof fn lemma_field_edits(s: LoginState, v: String, port: u16, remember: bool)
    ensures
        spec_login_update(s, Message::IpChanged(v)).0 == (LoginState {
            ip: v@,
            correct: !spec_is_blank(v@) && !spec_is_blank(s.username) && !spec_is_blank(s.password)
                && !spec_is_blank(s.vhost),
            ..s
        }),
        spec_login_update(s, Message::UsernameChanged(v)).0 == (LoginState {
            username: v@,
            correct: !spec_is_blank(s.ip) && !spec_is_blank(v@) && !spec_is_blank(s.password)
                && !spec_is_blank(s.vhost),
            ..s
        }),
        spec_login_update(s, Message::PasswordChanged(v)).0 == (LoginState {
            password: v@,
            correct: !spec_is_blank(s.ip) && !spec_is_blank(s.username) && !spec_is_blank(v@)
                && !spec_is_blank(s.vhost),
            ..s
        }),
        spec_login_update(s, Message::VHostChanged(v)).0 == (LoginState {
            vhost: v@,
            correct: !spec_is_blank(s.ip) && !spec_is_blank(s.username) && !spec_is_blank(s.password)
                && !spec_is_blank(v@),
            ..s
        }),
        spec_login_update(s, Message::PortChanged(port)).0 == (LoginState {
            port,
            correct: form_correct(s),
            ..s
        }),
        spec_login_update(s, Message::RememberChanged(remember)).0 == (LoginState {
            remember,
            correct: form_correct(s),
            ..s
        }),
        spec_login_update(s, Message::IpChanged(v)).1 == PageActionView::Command(CommandView::Nothing),
        spec_login_update(s, Message::UsernameChanged(v)).1 == PageActionView::Command(CommandView::Nothing),
        spec_login_update(s, Message::PasswordChanged(v)).1 == PageActionView::Command(CommandView::Nothing),
        spec_login_update(s, Message::VHostChanged(v)).1 == PageActionView::Command(CommandView::Nothing),
{
}

/// A failed attempt keeps the form, shows the error's message and ends the
/// attempt, asking nothing more. A successful one clears the error and
/// switches to a new dashboard; it asks to store the form's address and
/// credentials when the form remembers them, and nothing otherwise.
pub proof fn lemma_connected(s: LoginState, e: String)
    ensures
        spec_login_update(s, Message::Connected(Err(e))) == (
            LoginState { error: Some(e@), connecting: false, ..s },
            PageActionView::Command(CommandView::Nothing),
        ),
        spec_login_update(s, Message::Connected(Ok(()))).0 == (LoginState { error: None, ..s }),
        spec_login_update(s, Message::Connected(Ok(()))).1 == PageActionView::ChangePage(
            PageView::Dashboard(super::dashboard::Layer::Inicio),
            if s.remember {
                CommandView::SaveSettings(
                    SettingsView {
                        ip: s.ip,
                        port: s.port,
                        username: s.username,
                        password: s.password,
                        vhost: s.vhost,
                    },
                )
            } else {
                CommandView::Nothing
            },
        ),
{
}

impl LoginPage {
    /// The form filled with stored settings, and the error met while
    /// reading them, if any. It starts remembering, correct and idle.
    pub fn from_settings(settings: Settings, error: Option<String>) -> (p: LoginPage)
        ensures
            p@ == spec_from_settings(settings@, option_view(error)),
    {
        LoginPage {
            ip: settings.ip,
            port: settings.port,
            username: settings.username,
            password: settings.password,
            vhost: settings.vhost,
            remember: true,
            correct: true,
            connecting: false,
            error,
        }
    }

    fn recheck(&mut self)
        ensures
            final(self)@ == checked(old(self)@),
    {
        self.correct = !is_blank(self.ip.as_str()) && !is_blank(self.username.as_str())
            && !is_blank(self.password.as_str()) && !is_blank(self.vhost.as_str());
    }

    fn url(&self) -> (u: String)
        ensures
            u@ == amqp_url(self@),
    {
        proof {
            reveal_strlit("amqp://");
            reveal_strlit(":");
            reveal_strlit("@");
            reveal_strlit("/");
        }
        let mut u = String::from_str("amqp://");
        u.append(self.username.as_str());
        u.append(":");
        u.append(self.password.as_str());
        u.append("@");
        u.append(self.ip.as_str());
        u.append(":");
        push_decimal(&mut u, self.port as u32);
        u.append("/");
        u.append(self.vhost.as_str());
        assert(u@ =~= amqp_url(self@));
        u
    }

    /// Handles a message.
    pub fn update(&mut self, message: Message) -> (a: PageAction)
        ensures
            (final(self)@, a@) == spec_login_update(old(self)@, message),
    {
        match message {
            Message::IpChanged(value) => {
                self.ip = value;
            },
            Message::PortChanged(value) => {
                self.port = value;
            },
            Message::UsernameChanged(value) => {
                self.username = value;
            },
            Message::PasswordChanged(value) => {
                self.password = value;
            },
            Message::VHostChanged(value) => {
                self.vhost = value;
            },
            Message::RememberChanged(value) => {
                self.remember = value;
            },
            Message::Connect => {
                let url = self.url();
                self.connecting = true;
                return PageAction::Command(Command::Connect(url));
            },
            Message::Connected(result) => {
                self.error = None;
                match result {
                    Err(err) => {
                        self.error = Some(err);
                        self.connecting = false;
                        return PageAction::Command(Command::Nothing);
                    },
                    Ok(()) => {
                        let command = if self.remember {
                            Command::SaveSettings(
                                Settings {
                                    ip: self.ip.clone(),
                                    port: self.port,
                                    username: self.username.clone(),
                                    password: self.password.clone(),
                                    vhost: self.vhost.clone(),
                                },
                            )
                        } else {
                            Command::Nothing
                        };
                        return PageAction::ChangePage {
                            page: Page::Dashboard(DashboardPage::new()),
                            command,
                        };
                    },
                }
            },
        }
        self.recheck();
        PageAction::Command(Command::Nothing)
    }

    pub fn ip(&self) -> (r: &str)
        ensures
            r@ == self@.ip,
    {
        self.ip.as_str()
    }

    pub fn port(&self) -> (r: u16)
        ensures
            r == self@.port,
    {
        self.port
    }

    pub fn username(&self) -> (r: &str)
        ensures
            r@ == self@.username,
    {
        self.username.as_str()
    }

    pub fn password(&self) -> (r: &str)
        ensures
            r@ == self@.password,
    {
        self.password.as_str()
    }

    pub fn vhost(&self) -> (r: &str)
        ensures
            r@ == self@.vhost,
    {
        self.vhost.as_str()
    }

    pub fn remember(&self) -> (r: bool)
        ensures
            r == self@.remember,
    {
        self.remember
    }

    /// Whether the form may be submitted.
    pub fn correct(&self) -> (r: bool)
        ensures
            r == self@.correct,
    {
        self.correct
    }

    /// Whether a connection attempt is under way.
    pub fn connecting(&self) -> (r: bool)
        ensures
            r == self@.connecting,
    {
        self.connecting
    }

    /// Whether the connect button can be pressed: the form is correct and no
    /// attempt is under way.
    pub fn can_connect(&self) -> (r: bool)
        ensures
            r == (self@.correct && !self@.connecting),
    {
        self.correct && !self.connecting
    }

    /// The label of the connect button.
    pub fn connect_label(&self) -> (r: &'static str)
        ensures
            r@ == (if self@.connecting {
                seq!['C', 'o', 'n', 'n', 'e', 'c', 't', 'i', 'n', 'g']
            } else {
                seq!['C', 'o', 'n', 'n', 'e', 'c', 't']
            }),
    {
        if !self.connecting {
            proof {
                reveal_strlit("Connect");
            }
            assert("Connect"@ =~= seq!['C', 'o', 'n', 'n', 'e', 'c', 't']);
            "Connect"
        } else {
            proof {
                reveal_strlit("Connecting");
            }
            assert("Connecting"@ =~= seq!['C', 'o', 'n', 'n', 'e', 'c', 't', 'i', 'n', 'g']);
            "Connecting"
        }
    }

    /// Why the last attempt failed, or why the settings could not be read.
    pub fn error(&self) -> (r: Option<&str>)
        ensures
            r matches Some(e) ==> self@.error == Some(e@),
            r is None ==> self@.error is None,
    {
        match &self.error {
            Some(e) => Some(e.as_str()),
            None => None,
        }
    }
}

} // verus!
