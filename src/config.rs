//! Connection settings for the store, built from configuration values.
use vstd::prelude::*;

verus! {

/// The local socket directory, used when no network settings are given.
pub open spec fn socket_host() -> Seq<char> {
    "host=/var/run/postgresql"@
}

/// The settings text for the local store: with `dev`, also the database
/// and the user, both named `name`; otherwise the socket host alone.
pub open spec fn local_settings(name: Seq<char>, dev: bool) -> Seq<char> {
    if dev {
        socket_host() + " dbname="@ + name + " user="@ + name
    } else {
        socket_host()
    }
}

/// The settings text for a recorder: a `postgres://` URL when host, port,
/// user and password are all given (the database is named after the user);
/// otherwise the local socket host.
pub open spec fn recorder_settings(
    host: Option<Seq<char>>,
    port: Option<Seq<char>>,
    user: Option<Seq<char>>,
    password: Option<Seq<char>>,
) -> Seq<char> {
    if host is Some && port is Some && user is Some && password is Some {
        "postgres://"@ + user.unwrap() + ":"@ + password.unwrap() + "@"@ + host.unwrap() + ":"@
            + port.unwrap() + "/"@ + user.unwrap()
    } else {
        socket_host()
    }
}

/// The settings text for a store reached over the loopback interface.
pub open spec fn loopback_settings(user: Seq<char>, password: Seq<char>, name: Seq<char>) -> Seq<
    char,
> {
    "host=localhost user="@ + user + " password="@ + password + " dbname="@ + name
}

pub open spec fn opt_view(s: Option<&str>) -> Option<Seq<char>> {
    match s {
        Some(t) => Some(t@),
        None => None,
    }
}

/// Builds the settings text for the local store.
pub fn local_db_settings(name: &str, dev: bool) -> (r: String)
    ensures
        r@ == local_settings(name@, dev),
{
    let mut r = String::new();
    r.append("host=/var/run/postgresql");
    if dev {
        r.append(" dbname=");
        r.append(name);
        r.append(" user=");
        r.append(name);
    }
    r
}

/// Builds the settings text for a recorder from the optional network
/// settings.
pub fn recorder_db_settings(
    host: Option<&str>,
    port: Option<&str>,
    user: Option<&str>,
    password: Option<&str>,
) -> (r: String)
    ensures
        r@ == recorder_settings(opt_view(host), opt_view(port), opt_view(user), opt_view(password)),
{
    let mut r = String::new();
    match (host, port, user, password) {
        (Some(h), Some(p), Some(u), Some(pw)) => {
            r.append("postgres://");
            r.append(u);
            r.append(":");
            r.append(pw);
            r.append("@");
            r.append(h);
            r.append(":");
            r.append(p);
            r.append("/");
            r.append(u);
        },
        _ => {
            r.append("host=/var/run/postgresql");
        },
    }
    r
}

/// Builds the settings text for a store on the loopback interface.
pub fn loopback_db_settings(user: &str, password: &str, name: &str) -> (r: String)
    ensures
        r@ == loopback_settings(user@, password@, name@),
{
    let mut r = String::new();
    r.append("host=localhost user=");
    r.append(user);
    r.append(" password=");
    r.append(password);
    r.append(" dbname=");
    r.append(name);
    r
}

} // verus!
