//! Decisions of the terminal client: reading a typed command, naming a new
//! account, and what to do at start.

use vstd::prelude::*;
use vstd::string::*;

use crate::text::{push_char, starts_with, str_eq};

verus! {

/// `text` without leading and trailing white space, as `str::trim` gives it.
pub uninterp spec fn trimmed_text(text: Seq<char>) -> Seq<char>;

/// `text` without leading and trailing white space.
///
/// Calls `str::trim`. Trusted: the result is `trimmed_text` of the argument
/// (white space as Unicode defines it, not written out here).
#[verifier::external_body]
fn trim(text: &str) -> (r: &str)
    ensures
        r@ == trimmed_text(text@),
{
    text.trim()
}

/// Whether `c` is a letter or a digit, as `char::is_alphanumeric` says.
pub uninterp spec fn alphanumeric(c: char) -> bool;

/// Whether `c` is a letter or a digit.
///
/// Calls `char::is_alphanumeric`. Trusted: the result is `alphanumeric(c)`
/// (Unicode's categories, not written out here).
#[verifier::external_body]
fn is_alphanumeric(c: char) -> (r: bool)
    ensures
        r == alphanumeric(c),
{
    c.is_alphanumeric()
}

/// A command typed in the input line.
#[derive(Debug)]
pub enum InputCommand {
    /// Only white space: nothing to do.
    Ignore,
    /// Sign out.
    Logout,
    /// Queue the album with this id ("al:<id>").
    QueueAlbum(String),
    /// Queue the playlist with this id ("pl:<id>").
    QueuePlaylist(String),
    /// Queue the track with this id (anything else).
    QueueTrack(String),
}

/// Reads a typed command.
pub fn parse_command(raw: &str) -> (r: InputCommand)
    ensures
        ({
            let t = trimmed_text(raw@);
            if t.len() == 0 {
                r is Ignore
            } else if t == "/logout"@ {
                r is Logout
            } else if raw@.len() >= 3 && raw@.subrange(0, 3) == "al:"@ {
                r matches InputCommand::QueueAlbum(id) && id@ == raw@.skip(3)
            } else if raw@.len() >= 3 && raw@.subrange(0, 3) == "pl:"@ {
                r matches InputCommand::QueuePlaylist(id) && id@ == raw@.skip(3)
            } else {
                r matches InputCommand::QueueTrack(id) && id@ == raw@
            }
        }),
{
    let t = trim(raw);
    if t.unicode_len() == 0 {
        return InputCommand::Ignore;
    }
    if str_eq(t, "/logout") {
        return InputCommand::Logout;
    }
    let n = raw.unicode_len();
    proof {
        reveal_strlit("al:");
        reveal_strlit("pl:");
    }
    if starts_with(raw, "al:") {
        return InputCommand::QueueAlbum(raw.substring_char(3, n).to_owned());
    }
    if starts_with(raw, "pl:") {
        return InputCommand::QueuePlaylist(raw.substring_char(3, n).to_owned());
    }
    InputCommand::QueueTrack(raw.to_owned())
}

/// `text` with every character that is not a letter or a digit replaced by
/// an underscore.
pub open spec fn sanitized(text: Seq<char>) -> Seq<char> {
    text.map_values(|c: char| if alphanumeric(c) { c } else { '_' })
}

/// The id under which a new account is saved: "user@url", sanitized.
pub fn account_id(user: &str, url: &str) -> (r: String)
    ensures
        r@ == sanitized(user@ + "@"@ + url@),
{
    let mut r = String::new();
    let nu = user.unicode_len();
    let mut i: usize = 0;
    while i < nu
        invariant
            nu == user@.len(),
            i <= nu,
            r@ =~= sanitized(user@.take(i as int)),
        decreases nu - i,
    {
        let c = user.get_char(i);
        push_char(&mut r, if is_alphanumeric(c) { c } else { '_' });
        proof {
            assert(user@.take(i as int + 1) =~= user@.take(i as int).push(c));
        }
        i = i + 1;
    }
    push_char(&mut r, if is_alphanumeric('@') { '@' } else { '_' });
    let nl = url.unicode_len();
    let mut j: usize = 0;
    proof {
        assert(user@.take(nu as int) =~= user@);
        reveal_strlit("@");
    }
    while j < nl
        invariant
            nl == url@.len(),
            j <= nl,
            r@ =~= sanitized(user@ + "@"@ + url@.take(j as int)),
        decreases nl - j,
    {
        let c = url.get_char(j);
        push_char(&mut r, if is_alphanumeric(c) { c } else { '_' });
        proof {
            assert(user@ + "@"@ + url@.take(j as int + 1) =~= (user@ + "@"@ + url@.take(j as int)).push(c));
        }
        j = j + 1;
    }
    proof {
        assert(url@.take(nl as int) =~= url@);
    }
    r
}

/// What the client does at start, from the number of saved accounts.
#[derive(Clone, Copy, Debug, PartialEq, Eq, Structural)]
pub enum StartupPlan {
    /// No account: open the form for a new one.
    AddAccount,
    /// One account: connect to it at once.
    AutoConnect,
    /// Several accounts: ask which one to use.
    ChooseAccount,
}

/// What the client does at start with `accounts` saved accounts.
pub fn startup_plan(accounts: usize) -> (r: StartupPlan)
    ensures
        r == if accounts == 0 {
            StartupPlan::AddAccount
        } else if accounts == 1 {
            StartupPlan::AutoConnect
        } else {
            StartupPlan::ChooseAccount
        },
{
    if accounts == 0 {
        StartupPlan::AddAccount
    } else if accounts == 1 {
        StartupPlan::AutoConnect
    } else {
        StartupPlan::ChooseAccount
    }
}

} // verus!
