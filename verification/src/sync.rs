//! Synchronising a project with its remote repository: the decisions between
//! the steps that the caller carries out. A transfer is first tried as it
//! is; where that fails, it is tried once more with an access token written
//! into the remote's address.

use vstd::prelude::*;
use vstd::string::StringExecFns;

use crate::text::begins_with;
use crate::text::chars_of;
use crate::text::starts_with;
use crate::text::text_between;
use crate::text::trimmed;

verus! {

/// The direction of a transfer.
#[derive(Clone, Copy, Debug, PartialEq, Eq, Structural)]
pub enum Transfer {
    Push,
    Pull,
}

/// How a transfer ended.
#[derive(Clone, Copy, Debug, PartialEq, Eq, Structural)]
pub enum Report {
    /// The plain transfer went through.
    PlainSucceeded,
    /// The plain transfer failed and there is no token to fall back on.
    NoToken,
    /// The remote's address is not an `https://` one, so it can take no token.
    NotHttps,
    /// The transfer with the token went through.
    TokenSucceeded,
    /// The transfer with the token failed too.
    TokenFailed,
}

/// Where a transfer stands.
#[derive(Debug)]
pub enum Stage {
    /// The plain transfer is running.
    Plain,
    /// The token is being looked up.
    Token,
    /// The remote's address is being read; the token is at hand.
    Remote { token: String },
    /// The transfer with the token is running.
    Authorised,
    /// The transfer is over.
    Over,
}

/// What the caller reports back.
#[derive(Debug)]
pub enum Event {
    /// The transfer that was run has ended.
    Exited { success: bool },
    /// The token, if the environment holds one.
    Token(Option<String>),
    /// The remote's address as `git` printed it.
    Remote(String),
}

/// What the caller is to do next.
#[derive(Debug)]
pub enum Action {
    /// Run the transfer as it is.
    RunPlain,
    /// Look the token up.
    ReadToken,
    /// Ask for the address of the remote `origin`.
    ReadRemote,
    /// Run the transfer against this address.
    RunWith { address: String },
    /// Tell the user how it ended, and stop.
    Finish(Report),
    /// Nothing: the event was not awaited, or the transfer is over.
    Nothing,
}

/// The scheme that an address must have to take a token.
pub open spec fn scheme() -> Seq<char> {
    "https://"@
}

/// The address with the token written in behind the scheme.
pub open spec fn with_token(address: Seq<char>, token: Seq<char>) -> Seq<char> {
    scheme() + token + "@"@ + address.skip(scheme().len() as int)
}

/// Writes the token with an `@` into an address behind `https://`. An
/// address of another scheme gives nothing.
pub fn address_with_token(address: &str, token: &str) -> (authorised: Option<String>)
    ensures
        begins_with(address@, scheme()) ==> (authorised matches Some(a) && a@ == with_token(
            address@,
            token@,
        )),
        !begins_with(address@, scheme()) ==> authorised is None,
{
    let inner = chars_of(address);
    let prefix = chars_of("https://");
    if starts_with(&inner, &prefix) {
        let mut authorised = String::from_str("https://");
        authorised.append(token);
        authorised.append("@");
        authorised.append(text_between(&inner, prefix.len(), inner.len()).as_str());
        assert(inner@.skip(prefix@.len() as int) =~= inner@.subrange(
            prefix@.len() as int,
            inner@.len() as int,
        ));
        Some(authorised)
    } else {
        None
    }
}

/// Writes the token into the address of a remote, as `git` printed it: the
/// white space round it goes, and the token with an `@` goes in behind
/// `https://`. An address of another scheme gives nothing.
pub fn authorised_address(remote: &str, token: &str) -> (address: Option<String>)
    ensures
        begins_with(trimmed(remote@), scheme()) ==> (address matches Some(a) && a@ == with_token(
            trimmed(remote@),
            token@,
        )),
        !begins_with(trimmed(remote@), scheme()) ==> address is None,
{
    address_with_token(remote.trim(), token)
}

/// The transition relation: from `stage`, `event` leads to `next` and asks
/// for `action`. An event that the stage does not wait for changes nothing
/// and asks for nothing.
pub open spec fn leads_to(stage: Stage, event: Event, next: Stage, action: Action) -> bool {
    match (stage, event) {
        (Stage::Plain, Event::Exited { success }) => if success {
            next is Over && action == Action::Finish(Report::PlainSucceeded)
        } else {
            next is Token && action is ReadToken
        },
        (Stage::Token, Event::Token(None)) => next is Over && action == Action::Finish(
            Report::NoToken,
        ),
        (Stage::Token, Event::Token(Some(token))) => next == (Stage::Remote { token })
            && action is ReadRemote,
        (Stage::Remote { token }, Event::Remote(remote)) => if begins_with(
            trimmed(remote@),
            scheme(),
        ) {
            next is Authorised && (action matches Action::RunWith { address } && address@
                == with_token(trimmed(remote@), token@))
        } else {
            next is Over && action == Action::Finish(Report::NotHttps)
        },
        (Stage::Authorised, Event::Exited { success }) => next is Over && action == Action::Finish(
            if success {
                Report::TokenSucceeded
            } else {
                Report::TokenFailed
            },
        ),
        _ => next == stage && action is Nothing,
    }
}

/// The beginning of a transfer: the plain attempt.
pub fn begin() -> (first: (Stage, Action))
    ensures
        first.0 is Plain,
        first.1 is RunPlain,
{
    (Stage::Plain, Action::RunPlain)
}

/// Takes the transfer one step on.
pub fn advance(stage: Stage, event: Event) -> (step: (Stage, Action))
    ensures
        leads_to(stage, event, step.0, step.1),
{
    match stage {
        Stage::Plain => match event {
            Event::Exited { success } => {
                if success {
                    (Stage::Over, Action::Finish(Report::PlainSucceeded))
                } else {
                    (Stage::Token, Action::ReadToken)
                }
            },
            _ => (Stage::Plain, Action::Nothing),
        },
        Stage::Token => match event {
            Event::Token(None) => (Stage::Over, Action::Finish(Report::NoToken)),
            Event::Token(Some(token)) => (Stage::Remote { token }, Action::ReadRemote),
            _ => (Stage::Token, Action::Nothing),
        },
        Stage::Remote { token } => match event {
            Event::Remote(remote) => {
                match authorised_address(remote.as_str(), token.as_str()) {
                    Some(address) => (Stage::Authorised, Action::RunWith { address }),
                    None => (Stage::Over, Action::Finish(Report::NotHttps)),
                }
            },
            _ => (Stage::Remote { token }, Action::Nothing),
        },
        Stage::Authorised => match event {
            Event::Exited { success } => {
                if success {
                    (Stage::Over, Action::Finish(Report::TokenSucceeded))
                } else {
                    (Stage::Over, Action::Finish(Report::TokenFailed))
                }
            },
            _ => (Stage::Authorised, Action::Nothing),
        },
        Stage::Over => (Stage::Over, Action::Nothing),
    }
}

/// The `git` subcommand of a transfer.
pub open spec fn verb_of(transfer: Transfer) -> Seq<char> {
    match transfer {
        Transfer::Push => "push"@,
        Transfer::Pull => "pull"@,
    }
}

/// The subcommand to hand to `git`.
pub fn verb(transfer: Transfer) -> (word: &'static str)
    ensures
        word@ == verb_of(transfer),
{
    match transfer {
        Transfer::Push => "push",
        Transfer::Pull => "pull",
    }
}

/// The line that tells the user how a transfer ended.
pub open spec fn message_of(transfer: Transfer, report: Report) -> Seq<char> {
    match (transfer, report) {
        (Transfer::Push, Report::PlainSucceeded) => "\u{2b06}\u{fe0f}  Push successful (git credential)"@,
        (Transfer::Push, Report::NoToken) => "\u{274c} Push failed and no GITHUB_TOKEN set"@,
        (Transfer::Push, Report::TokenSucceeded) => "\u{2b06}\u{fe0f}  Push successful (token fallback)"@,
        (Transfer::Push, Report::TokenFailed) => "\u{274c} Push failed even with token"@,
        (Transfer::Pull, Report::PlainSucceeded) => "\u{2b07}\u{fe0f}  Pull successful (git credential)"@,
        (Transfer::Pull, Report::NoToken) => "\u{274c} Pull failed and no GITHUB_TOKEN set"@,
        (Transfer::Pull, Report::TokenSucceeded) => "\u{2b07}\u{fe0f}  Pull successful (token fallback)"@,
        (Transfer::Pull, Report::TokenFailed) => "\u{274c} Pull failed even with token"@,
        (_, Report::NotHttps) => "\u{274c} Remote is not HTTPS (cannot inject token)"@,
    }
}

/// Picks the line for the user.
pub fn message(transfer: Transfer, report: Report) -> (line: &'static str)
    ensures
        line@ == message_of(transfer, report),
{
    match report {
        Report::NotHttps => "\u{274c} Remote is not HTTPS (cannot inject token)",
        Report::PlainSucceeded => match transfer {
            Transfer::Push => "\u{2b06}\u{fe0f}  Push successful (git credential)",
            Transfer::Pull => "\u{2b07}\u{fe0f}  Pull successful (git credential)",
        },
        Report::NoToken => match transfer {
            Transfer::Push => "\u{274c} Push failed and no GITHUB_TOKEN set",
            Transfer::Pull => "\u{274c} Pull failed and no GITHUB_TOKEN set",
        },
        Report::TokenSucceeded => match transfer {
            Transfer::Push => "\u{2b06}\u{fe0f}  Push successful (token fallback)",
            Transfer::Pull => "\u{2b07}\u{fe0f}  Pull successful (token fallback)",
        },
        Report::TokenFailed => match transfer {
            Transfer::Push => "\u{274c} Push failed even with token",
            Transfer::Pull => "\u{274c} Pull failed even with token",
        },
    }
}

} // verus!
