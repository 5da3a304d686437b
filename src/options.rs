use vstd::prelude::*;
use vstd::string::StringExecFns;
use crate::config::Config;
use crate::credentials::{CredentialState, Credentials};
use crate::error::LaunchError;
use crate::mode::{mode_of, parse_mode, Mode, MODE_CLI};

verus! {

/// What the command line resolves to: how credentials are collected, and the
/// record they are collected into.
pub struct Invocation {
    pub mode: Mode,
    pub credentials: CredentialState,
}

/// The view of an optional option value.
pub open spec fn text_of(o: Option<String>) -> Option<Seq<char>> {
    match o {
        Some(s) => Some(s@),
        None => None,
    }
}

/// An option's value, or its default when the option is absent.
pub open spec fn or_default(o: Option<Seq<char>>, d: Seq<char>) -> Seq<char> {
    match o {
        Some(s) => s,
        None => d,
    }
}

/// The mode that an optional mode option selects; `cli` when it is absent.
pub open spec fn resolved_mode(mode: Option<Seq<char>>) -> Option<Mode> {
    mode_of(or_default(mode, MODE_CLI@))
}

/// An option's value, or a copy of its default.
fn value_or(o: Option<String>, d: &String) -> (r: String)
    ensures
        r@ == or_default(text_of(o), d@),
{
    match o {
        Some(s) => s,
        None => d.clone(),
    }
}

/// Resolves the server, user and mode options against the configuration's
/// defaults. An absent server or user takes the configured default, an absent
/// mode is `cli`, and a mode other than `cli` or `gui` fails with
/// `InvalidMode` before any credentials are collected. The password starts
/// empty.
pub fn resolve_args(
    config: &Config,
    server: Option<String>,
    user: Option<String>,
    mode: Option<String>,
) -> (r: Result<Invocation, LaunchError>)
    ensures
        r is Err <==> resolved_mode(text_of(mode)) is None,
        r is Err ==> r == Err::<Invocation, LaunchError>(LaunchError::InvalidMode),
        r matches Ok(inv) ==> {
            &&& Some(inv.mode) == resolved_mode(text_of(mode))
            &&& inv.credentials@ == (Credentials {
                server: or_default(text_of(server), config.default_server@),
                user: or_default(text_of(user), config.default_user@),
                password: Seq::empty(),
            })
        },
{
    let mode_text = match mode {
        Some(m) => m,
        None => String::from_str(MODE_CLI),
    };
    match parse_mode(mode_text.as_str()) {
        None => Err(LaunchError::InvalidMode),
        Some(m) => {
            let server = value_or(server, &config.default_server);
            let user = value_or(user, &config.default_user);
            Ok(Invocation { mode: m, credentials: CredentialState::new(server, user) })
        },
    }
}

} // verus!
