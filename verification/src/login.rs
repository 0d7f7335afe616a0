//! The sign-in screen: a list of saved accounts and a form for a new one,
//! driven by key presses.

use vstd::prelude::*;
use vstd::string::*;

use crate::settings::AccountConfig;
use crate::text::{pop_char, push_char, str_eq};

verus! {

/// The keys the sign-in screen reacts to.
#[derive(Clone, Copy, Debug, PartialEq, Eq)]
pub enum LoginKey {
    Up,
    Down,
    Left,
    Right,
    Tab,
    BackTab,
    Enter,
    Esc,
    Backspace,
    Char(char),
    /// Any other key.
    Other,
}

/// Which part of the screen has the focus.
#[derive(Clone, Copy, Debug, PartialEq, Eq, Structural)]
pub enum LoginFocus {
    List,
    Provider,
    Url,
    User,
    Pass,
}

/// What the application must do after a key press.
#[derive(Debug)]
pub enum LoginAction {
    /// Nothing beyond redrawing.
    Nothing,
    /// Sign in with a saved account.
    Connect(AccountConfig),
    /// Sign in with a new account: provider, server URL, user name, password.
    ConnectNew(String, String, String, String),
    /// Forget a saved account.
    Delete(AccountConfig),
    /// Leave the application.
    Quit,
}

/// The state of the sign-in screen.
#[derive(Debug)]
pub struct LoginState {
    pub focus: LoginFocus,
    /// The highlighted entry of the account list; one past the last account
    /// stands for "add a new account".
    pub selected_idx: usize,
    pub provider: String,
    pub url: String,
    pub user: String,
    pub pass: String,
}

/// The sign-in screen as plain values.
#[verifier::ext_equal]
pub struct LoginModel {
    pub focus: LoginFocus,
    pub selected_idx: usize,
    pub provider: Seq<char>,
    pub url: Seq<char>,
    pub user: Seq<char>,
    pub pass: Seq<char>,
}

/// The outcome of a key press, accounts named by their index.
pub enum LoginOutcome {
    Nothing,
    Connect(int),
    ConnectNew(Seq<char>, Seq<char>, Seq<char>, Seq<char>),
    Delete(int),
    Quit,
}

impl View for LoginState {
    type V = LoginModel;

    open spec fn view(&self) -> LoginModel {
        LoginModel {
            focus: self.focus,
            selected_idx: self.selected_idx,
            provider: self.provider@,
            url: self.url@,
            user: self.user@,
            pass: self.pass@,
        }
    }
}

/// The provider offered before `p` (`left`) or after it, cycling through
/// subsonic, jellyfin and plex; an unknown name stays.
pub open spec fn cycled_provider(p: Seq<char>, left: bool) -> Seq<char> {
    if p == "subsonic"@ {
        if left { "plex"@ } else { "jellyfin"@ }
    } else if p == "jellyfin"@ {
        if left { "subsonic"@ } else { "plex"@ }
    } else if p == "plex"@ {
        if left { "jellyfin"@ } else { "subsonic"@ }
    } else {
        p
    }
}

/// The form field after `f` (`forward`) or before it.
pub open spec fn cycled_focus(f: LoginFocus, forward: bool) -> LoginFocus {
    if forward {
        match f {
            LoginFocus::Provider => LoginFocus::Url,
            LoginFocus::Url => LoginFocus::User,
            LoginFocus::User => LoginFocus::Pass,
            _ => LoginFocus::Provider,
        }
    } else {
        match f {
            LoginFocus::Provider => LoginFocus::Pass,
            LoginFocus::Url => LoginFocus::Provider,
            LoginFocus::User => LoginFocus::Url,
            _ => LoginFocus::User,
        }
    }
}

/// `s` without its last character, if it has one.
pub open spec fn backspaced(s: Seq<char>) -> Seq<char> {
    if s.len() > 0 { s.drop_last() } else { s }
}

/// The form can be submitted: a URL and a user name are given, and a
/// password too for a Subsonic server.
pub open spec fn form_complete(s: LoginModel) -> bool {
    &&& s.url.len() > 0
    &&& s.user.len() > 0
    &&& (s.provider == "subsonic"@ ==> s.pass.len() > 0)
}

/// The screen after a key press and what the application must do, with
/// `n` saved accounts.
pub open spec fn login_step(s: LoginModel, key: LoginKey, n: nat) -> (LoginModel, LoginOutcome) {
    match s.focus {
        LoginFocus::List => match key {
            LoginKey::Up => (
                if s.selected_idx > 0 {
                    LoginModel { selected_idx: (s.selected_idx - 1) as usize, ..s }
                } else {
                    s
                },
                LoginOutcome::Nothing,
            ),
            LoginKey::Down => (
                if s.selected_idx < n {
                    LoginModel { selected_idx: (s.selected_idx + 1) as usize, ..s }
                } else {
                    s
                },
                LoginOutcome::Nothing,
            ),
            LoginKey::Char(c) => (
                s,
                if (c == 'd' || c == 'D') && s.selected_idx < n {
                    LoginOutcome::Delete(s.selected_idx as int)
                } else {
                    LoginOutcome::Nothing
                },
            ),
            LoginKey::Enter => if s.selected_idx == n {
                (LoginModel { focus: LoginFocus::Provider, ..s }, LoginOutcome::Nothing)
            } else {
                (s, LoginOutcome::Connect(s.selected_idx as int))
            },
            LoginKey::Esc => (s, LoginOutcome::Quit),
            _ => (s, LoginOutcome::Nothing),
        },
        _ => match key {
            LoginKey::Esc => (LoginModel { focus: LoginFocus::List, ..s }, LoginOutcome::Nothing),
            LoginKey::Left => (
                if s.focus == LoginFocus::Provider {
                    LoginModel { provider: cycled_provider(s.provider, true), ..s }
                } else {
                    s
                },
                LoginOutcome::Nothing,
            ),
            LoginKey::Right => (
                if s.focus == LoginFocus::Provider {
                    LoginModel { provider: cycled_provider(s.provider, false), ..s }
                } else {
                    s
                },
                LoginOutcome::Nothing,
            ),
            LoginKey::Tab | LoginKey::Down => (
                LoginModel { focus: cycled_focus(s.focus, true), ..s },
                LoginOutcome::Nothing,
            ),
            LoginKey::BackTab | LoginKey::Up => (
                LoginModel { focus: cycled_focus(s.focus, false), ..s },
                LoginOutcome::Nothing,
            ),
            LoginKey::Backspace => (
                match s.focus {
                    LoginFocus::Url => LoginModel { url: backspaced(s.url), ..s },
                    LoginFocus::User => LoginModel { user: backspaced(s.user), ..s },
                    LoginFocus::Pass => LoginModel { pass: backspaced(s.pass), ..s },
                    _ => s,
                },
                LoginOutcome::Nothing,
            ),
            LoginKey::Char(c) => (
                match s.focus {
                    LoginFocus::Url => LoginModel { url: s.url.push(c), ..s },
                    LoginFocus::User => LoginModel { user: s.user.push(c), ..s },
                    LoginFocus::Pass => LoginModel { pass: s.pass.push(c), ..s },
                    _ => s,
                },
                LoginOutcome::Nothing,
            ),
            LoginKey::Enter => if form_complete(s) {
                (
                    LoginModel { pass: Seq::empty(), ..s },
                    LoginOutcome::ConnectNew(s.provider, s.url, s.user, s.pass),
                )
            } else {
                (s, LoginOutcome::Nothing)
            },
            _ => (s, LoginOutcome::Nothing),
        },
    }
}

/// `action` is the outcome `o` with the accounts `accounts`.
pub open spec fn action_is(action: LoginAction, o: LoginOutcome, accounts: Seq<AccountConfig>) -> bool {
    match o {
        LoginOutcome::Nothing => action is Nothing,
        LoginOutcome::Connect(i) => action == LoginAction::Connect(accounts[i]),
        LoginOutcome::ConnectNew(p, u, us, pw) => action matches LoginAction::ConnectNew(a, b, c, d) && a@ == p
            && b@ == u && c@ == us && d@ == pw,
        LoginOutcome::Delete(i) => action == LoginAction::Delete(accounts[i]),
        LoginOutcome::Quit => action is Quit,
    }
}

impl LoginState {
    /// The account list has the focus, the first entry highlighted, and the
    /// form offers a Subsonic server.
    pub fn new() -> (r: Self)
        ensures
            r@ == (LoginModel {
                focus: LoginFocus::List,
                selected_idx: 0,
                provider: "subsonic"@,
                url: Seq::empty(),
                user: Seq::empty(),
                pass: Seq::empty(),
            }),
    {
        LoginState {
            focus: LoginFocus::List,
            selected_idx: 0,
            provider: "subsonic".to_owned(),
            url: String::new(),
            user: String::new(),
            pass: String::new(),
        }
    }
}

/// Moves the provider choice one step to the left or right.
fn cycle_provider(provider: &mut String, left: bool)
    ensures
        final(provider)@ == cycled_provider(old(provider)@, left),
{
    let p = provider.as_str();
    let next = if str_eq(p, "subsonic") {
        if left { "plex" } else { "jellyfin" }
    } else if str_eq(p, "jellyfin") {
        if left { "subsonic" } else { "plex" }
    } else if str_eq(p, "plex") {
        if left { "jellyfin" } else { "subsonic" }
    } else {
        return;
    };
    *provider = next.to_owned();
}

/// Reacts to a key press on the sign-in screen.
pub fn handle_login_input(key: LoginKey, state: &mut LoginState, accounts: &Vec<AccountConfig>) -> (r:
    LoginAction)
    requires
        old(state).focus == LoginFocus::List && key == LoginKey::Enter ==> old(state).selected_idx
            <= accounts.len(),
    ensures
        final(state)@ == login_step(old(state)@, key, accounts@.len()).0,
        action_is(r, login_step(old(state)@, key, accounts@.len()).1, accounts@),
{
    let n = accounts.len();
    match state.focus {
        LoginFocus::List => match key {
            LoginKey::Up => {
                if state.selected_idx > 0 {
                    state.selected_idx = state.selected_idx - 1;
                }
            },
            LoginKey::Down => {
                if state.selected_idx < n {
                    state.selected_idx = state.selected_idx + 1;
                }
            },
            LoginKey::Char(c) => {
                if (c == 'd' || c == 'D') && state.selected_idx < n {
                    return LoginAction::Delete(accounts[state.selected_idx].duplicate());
                }
            },
            LoginKey::Enter => {
                if state.selected_idx == n {
                    state.focus = LoginFocus::Provider;
                } else {
                    return LoginAction::Connect(accounts[state.selected_idx].duplicate());
                }
            },
            LoginKey::Esc => {
                return LoginAction::Quit;
            },
            _ => {},
        },
        _ => match key {
            LoginKey::Esc => {
                state.focus = LoginFocus::List;
            },
            LoginKey::Left => {
                if state.focus == LoginFocus::Provider {
                    cycle_provider(&mut state.provider, true);
                }
            },
            LoginKey::Right => {
                if state.focus == LoginFocus::Provider {
                    cycle_provider(&mut state.provider, false);
                }
            },
            LoginKey::Tab | LoginKey::Down => {
                state.focus = match state.focus {
                    LoginFocus::Provider => LoginFocus::Url,
                    LoginFocus::Url => LoginFocus::User,
                    LoginFocus::User => LoginFocus::Pass,
                    _ => LoginFocus::Provider,
                };
            },
            LoginKey::BackTab | LoginKey::Up => {
                state.focus = match state.focus {
                    LoginFocus::Provider => LoginFocus::Pass,
                    LoginFocus::Url => LoginFocus::Provider,
                    LoginFocus::User => LoginFocus::Url,
                    _ => LoginFocus::User,
                };
            },
            LoginKey::Backspace => match state.focus {
                LoginFocus::Url => {
                    pop_char(&mut state.url);
                },
                LoginFocus::User => {
                    pop_char(&mut state.user);
                },
                LoginFocus::Pass => {
                    pop_char(&mut state.pass);
                },
                _ => {},
            },
            LoginKey::Char(c) => match state.focus {
                LoginFocus::Url => {
                    push_char(&mut state.url, c);
                },
                LoginFocus::User => {
                    push_char(&mut state.user, c);
                },
                LoginFocus::Pass => {
                    push_char(&mut state.pass, c);
                },
                _ => {},
            },
            LoginKey::Enter => {
                let needs_pass = str_eq(state.provider.as_str(), "subsonic");
                if state.url.as_str().unicode_len() > 0 && state.user.as_str().unicode_len() > 0 && (!needs_pass
                    || state.pass.as_str().unicode_len() > 0) {
                    let action = LoginAction::ConnectNew(
                        state.provider.clone(),
                        state.url.clone(),
                        state.user.clone(),
                        state.pass.clone(),
                    );
                    state.pass = String::new();
                    return action;
                }
            },
            _ => {},
        },
    }
    LoginAction::Nothing
}

/// On a form field, a backspace takes back the character just typed.
pub proof fn law_backspace_undoes_typing(s: LoginModel, c: char, n: nat)
    requires
        s.focus == LoginFocus::Url || s.focus == LoginFocus::User || s.focus == LoginFocus::Pass,
    ensures
        login_step(login_step(s, LoginKey::Char(c), n).0, LoginKey::Backspace, n).0 == s,
{
    let t = login_step(s, LoginKey::Char(c), n).0;
    assert(t.url.drop_last() =~= s.url || s.focus != LoginFocus::Url);
    assert(t.user.drop_last() =~= s.user || s.focus != LoginFocus::User);
    assert(t.pass.drop_last() =~= s.pass || s.focus != LoginFocus::Pass);
}

/// On the provider field, Left takes back Right, for each provider offered.
pub proof fn law_left_undoes_right(s: LoginModel, n: nat)
    requires
        s.focus == LoginFocus::Provider,
        s.provider == "subsonic"@ || s.provider == "jellyfin"@ || s.provider == "plex"@,
    ensures
        login_step(login_step(s, LoginKey::Right, n).0, LoginKey::Left, n).0 == s,
{
    reveal_strlit("subsonic");
    reveal_strlit("jellyfin");
    reveal_strlit("plex");
    assert("subsonic"@[0] == 's' && "jellyfin"@[0] == 'j' && "plex"@[0] == 'p');
    assert("subsonic"@ != "jellyfin"@ && "jellyfin"@ != "plex"@ && "plex"@ != "subsonic"@);
    let t = login_step(s, LoginKey::Right, n).0;
    assert(t.provider == cycled_provider(s.provider, false));
    assert(cycled_provider(t.provider, true) =~= s.provider);
}

/// On the form, BackTab takes the focus back to where it was before Tab.
pub proof fn law_backtab_undoes_tab(s: LoginModel, n: nat)
    requires
        s.focus != LoginFocus::List,
    ensures
        login_step(login_step(s, LoginKey::Tab, n).0, LoginKey::BackTab, n).0 == s,
{
}

} // verus!
