//! Settings strings for the database and the listener.

use vstd::prelude::*;

verus! {

/// The libpq-style settings string that opens a connection to `dbname` on `host`.
pub open spec fn connection_settings(
    host: Seq<char>,
    user: Seq<char>,
    password: Seq<char>,
    dbname: Seq<char>,
) -> Seq<char> {
    "host="@ + host + " user="@ + user + " password="@ + password + " dbname="@ + dbname
}

/// Writes the settings string for the connection pool.
pub fn connection_string(host: &str, user: &str, password: &str, dbname: &str) -> (r: String)
    ensures
        r@ == connection_settings(host@, user@, password@, dbname@),
{
    let mut s = String::from_str("host=");
    s.append(host);
    s.append(" user=");
    s.append(user);
    s.append(" password=");
    s.append(password);
    s.append(" dbname=");
    s.append(dbname);
    s
}

/// The `host:port` address that the server listens on.
pub fn listen_address(host: &str, port: &str) -> (r: String)
    ensures
        r@ == host@ + ":"@ + port@,
{
    let mut s = String::from_str(host);
    s.append(":");
    s.append(port);
    s
}

} // verus!
