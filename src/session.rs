use vstd::prelude::*;
use crate::config::{load_config, Config, ConfigRead};
use crate::credentials::{CredentialState, Credentials};
use crate::error::LaunchError;
use crate::launch::{command_args, launch_args};
use crate::options::{or_default, resolve_args, resolved_mode, text_of};
use crate::mode::Mode;

verus! {

/// Where a launch stands once its options are resolved.
#[derive(Debug, Clone, Copy, PartialEq, Eq, Structural)]
pub enum Phase {
    /// Waiting for the mode's collector to supply the credentials.
    AwaitingCredentials,
    /// The credentials are final; the client's arguments may be assembled.
    CredentialsReady,
}

/// One launch, from the loaded configuration to the client's argument list.
/// The phases only move forward, and the password stays empty until the
/// credentials have been collected.
pub struct Session {
    config: Config,
    mode: Mode,
    credentials: CredentialState,
    phase: Phase,
}

impl Session {
    /// The configuration the session was started with.
    pub closed spec fn spec_config(&self) -> Config {
        self.config
    }

    /// The collection mode the options selected.
    pub closed spec fn spec_mode(&self) -> Mode {
        self.mode
    }

    /// The credentials as they currently stand.
    pub closed spec fn spec_credentials(&self) -> Credentials {
        self.credentials@
    }

    /// The current phase.
    pub closed spec fn spec_phase(&self) -> Phase {
        self.phase
    }

    /// The session's invariant: no password before collection.
    pub open spec fn wf(&self) -> bool {
        self.spec_phase() == Phase::AwaitingCredentials ==> self.spec_credentials().password
            == Seq::<char>::empty()
    }

    /// Loads the configuration and resolves the options against it. Fails
    /// with the configuration's error first, then with `InvalidMode`;
    /// otherwise the session awaits credentials for the selected mode, with
    /// the chosen server and user and an empty password.
    pub fn start(
        read: ConfigRead,
        server: Option<String>,
        user: Option<String>,
        mode: Option<String>,
    ) -> (r: Result<Session, LaunchError>)
        ensures
            read is NotFound ==> r == Err::<Session, LaunchError>(LaunchError::ConfigNotFound),
            read is Malformed ==> r == Err::<Session, LaunchError>(LaunchError::ConfigParseError),
            read is Fields && resolved_mode(text_of(mode)) is None ==> r == Err::<
                Session,
                LaunchError,
            >(LaunchError::InvalidMode),
            r is Ok <==> (read is Fields && resolved_mode(text_of(mode)) is Some),
            r matches Ok(s) ==> {
                &&& s.wf()
                &&& read == ConfigRead::Fields(s.spec_config())
                &&& Some(s.spec_mode()) == resolved_mode(text_of(mode))
                &&& s.spec_phase() == Phase::AwaitingCredentials
                &&& s.spec_credentials() == (Credentials {
                    server: or_default(text_of(server), s.spec_config().default_server@),
                    user: or_default(text_of(user), s.spec_config().default_user@),
                    password: Seq::empty(),
                })
            },
    {
        let config = match load_config(read) {
            Ok(c) => c,
            Err(e) => {
                return Err(e);
            },
        };
        match resolve_args(&config, server, user, mode) {
            Ok(inv) => Ok(
                Session {
                    config,
                    mode: inv.mode,
                    credentials: inv.credentials,
                    phase: Phase::AwaitingCredentials,
                },
            ),
            Err(e) => Err(e),
        }
    }

    /// The collection mode the options selected.
    pub fn mode(&self) -> (r: Mode)
        ensures
            r == self.spec_mode(),
    {
        self.mode
    }

    /// The current phase.
    pub fn phase(&self) -> (r: Phase)
        ensures
            r == self.spec_phase(),
    {
        self.phase
    }

    /// The credentials as they currently stand; a form is pre-filled from them.
    pub fn credentials(&self) -> (r: &CredentialState)
        ensures
            r@ == self.spec_credentials(),
    {
        &self.credentials
    }

    /// Completes terminal collection: the password is stored verbatim.
    pub fn collect_password(&mut self, password: String)
        requires
            old(self).wf(),
            old(self).spec_phase() == Phase::AwaitingCredentials,
            old(self).spec_mode() == Mode::Cli,
        ensures
            final(self).wf(),
            final(self).spec_phase() == Phase::CredentialsReady,
            final(self).spec_mode() == old(self).spec_mode(),
            final(self).spec_config() == old(self).spec_config(),
            final(self).spec_credentials() == (Credentials {
                password: password@,
                ..old(self).spec_credentials()
            }),
    {
        self.credentials.set_password(password);
        self.phase = Phase::CredentialsReady;
    }

    /// Completes graphical collection with the form's outcome. A confirmed
    /// form replaces all three fields; a form closed without confirmation
    /// leaves them as they were, and the launch goes on with them.
    pub fn collect_form(&mut self, confirmed: Option<CredentialState>)
        requires
            old(self).wf(),
            old(self).spec_phase() == Phase::AwaitingCredentials,
            old(self).spec_mode() == Mode::Gui,
        ensures
            final(self).wf(),
            final(self).spec_phase() == Phase::CredentialsReady,
            final(self).spec_mode() == old(self).spec_mode(),
            final(self).spec_config() == old(self).spec_config(),
            match confirmed {
                Some(c) => final(self).spec_credentials() == c@,
                None => final(self).spec_credentials() == old(self).spec_credentials(),
            },
    {
        self.credentials.apply_form(confirmed);
        self.phase = Phase::CredentialsReady;
    }

    /// The client's argument list: the configured base arguments followed by
    /// the password, user and server flags. Only once credentials are ready.
    pub fn client_args(&self) -> (r: Vec<String>)
        requires
            self.spec_phase() == Phase::CredentialsReady,
        ensures
            r.deep_view() == launch_args(self.spec_config().args.deep_view(), self.spec_credentials()),
    {
        command_args(&self.config.args, &self.credentials)
    }
}

} // verus!
