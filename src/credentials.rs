use vstd::prelude::*;

verus! {

/// The record that the input phase fills and the launcher reads.
pub struct CredentialState {
    pub server: String,
    pub user: String,
    pub password: String,
}

/// What a `CredentialState` holds, as character sequences.
pub struct Credentials {
    pub server: Seq<char>,
    pub user: Seq<char>,
    pub password: Seq<char>,
}

impl View for CredentialState {
    type V = Credentials;

    open spec fn view(&self) -> Credentials {
        Credentials { server: self.server@, user: self.user@, password: self.password@ }
    }
}

impl CredentialState {
    /// The record before any input is collected: the chosen server and user,
    /// and an empty password.
    pub fn new(server: String, user: String) -> (r: CredentialState)
        ensures
            r@ == (Credentials { server: server@, user: user@, password: Seq::empty() }),
    {
        CredentialState { server, user, password: String::new() }
    }

    /// A record holding the three given values, as a form hands them back.
    pub fn from_fields(server: String, user: String, password: String) -> (r: CredentialState)
        ensures
            r@ == (Credentials { server: server@, user: user@, password: password@ }),
    {
        CredentialState { server, user, password }
    }

    /// Stores the password read from the terminal, verbatim; server and user
    /// are kept.
    pub fn set_password(&mut self, password: String)
        ensures
            final(self)@ == (Credentials { password: password@, ..old(self)@ }),
    {
        self.password = password;
    }

    /// Takes the outcome of the graphical form: on confirmation all three
    /// fields are replaced by the form's values; on dismissal the record is
    /// left as it was.
    pub fn apply_form(&mut self, confirmed: Option<CredentialState>)
        ensures
            match confirmed {
                Some(c) => final(self)@ == c@,
                None => final(self)@ == old(self)@,
            },
    {
        match confirmed {
            Some(c) => {
                self.server = c.server;
                self.user = c.user;
                self.password = c.password;
            },
            None => {},
        }
    }
}

} // verus!
