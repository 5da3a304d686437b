use vstd::prelude::*;
use vstd::string::StringExecFns;
use crate::credentials::{CredentialState, Credentials};

verus! {

/// The external remote-desktop client that is started.
pub const COMMAND_TO_RUN: &'static str = "xfreerdp";

/// Prefix of the client's password flag.
pub const PASSWORD_FLAG: &'static str = "/p:";

/// Prefix of the client's user flag.
pub const USER_FLAG: &'static str = "/u:";

/// Prefix of the client's server flag.
pub const SERVER_FLAG: &'static str = "/v:";

/// The client's full argument list: the base arguments, then the password,
/// user and server flags in that order.
pub open spec fn launch_args(base: Seq<Seq<char>>, c: Credentials) -> Seq<Seq<char>> {
    base + seq![PASSWORD_FLAG@ + c.password, USER_FLAG@ + c.user, SERVER_FLAG@ + c.server]
}

/// A flag: its prefix followed by its value.
fn flag(prefix: &str, value: &String) -> (r: String)
    ensures
        r@ == prefix@ + value@,
{
    String::from_str(prefix).concat(value.as_str())
}

/// Assembles the argument list handed to the external client.
pub fn command_args(base: &Vec<String>, creds: &CredentialState) -> (r: Vec<String>)
    ensures
        r.deep_view() == launch_args(base.deep_view(), creds@),
{
    let mut r: Vec<String> = Vec::new();
    let mut i: usize = 0;
    while i < base.len()
        invariant
            i <= base.len(),
            r@.len() == i,
            forall|j: int| 0 <= j < i ==> (#[trigger] r@[j])@ == base@[j]@,
        decreases base.len() - i,
    {
        r.push(base[i].clone());
        i = i + 1;
    }
    r.push(flag(PASSWORD_FLAG, &creds.password));
    r.push(flag(USER_FLAG, &creds.user));
    r.push(flag(SERVER_FLAG, &creds.server));
    assert(r.deep_view()[i as int] == PASSWORD_FLAG@ + creds.password@);
    assert(r.deep_view() =~= launch_args(base.deep_view(), creds@));
    r
}

} // verus!
