//! Redirect URIs that an identity provider must allow for this server.

use vstd::prelude::*;
use vstd::string::StringExecFns;

verus! {

/// The character of a decimal digit.
pub open spec fn digit_char(d: nat) -> char {
    if d == 0 {
        '0'
    } else if d == 1 {
        '1'
    } else if d == 2 {
        '2'
    } else if d == 3 {
        '3'
    } else if d == 4 {
        '4'
    } else if d == 5 {
        '5'
    } else if d == 6 {
        '6'
    } else if d == 7 {
        '7'
    } else if d == 8 {
        '8'
    } else {
        '9'
    }
}

/// A number in decimal, without sign or leading zeros.
pub open spec fn decimal(n: nat) -> Seq<char>
    decreases n,
{
    if n < 10 {
        seq![digit_char(n)]
    } else {
        decimal(n / 10).push(digit_char(n % 10))
    }
}

/// The three names under which a server bound to a loopback address is reached.
pub open spec fn is_loopback(host: Seq<char>) -> bool {
    host == "localhost"@ || host == "127.0.0.1"@ || host == "0.0.0.0"@
}

/// `{scheme}://{host}:{port}/app/login/callback`
pub open spec fn redirect_uri(scheme: Seq<char>, host: Seq<char>, port: u16) -> Seq<char> {
    scheme + "://"@ + host + ":"@ + decimal(port as nat) + "/app/login/callback"@
}

/// The URIs to register: one for each loopback name where the host is one of
/// them, in a fixed order, else the one of the host itself.
pub open spec fn redirect_uris(host: Seq<char>, scheme: Seq<char>, port: u16) -> Seq<Seq<char>> {
    if is_loopback(host) {
        seq![
            redirect_uri(scheme, "localhost"@, port),
            redirect_uri(scheme, "127.0.0.1"@, port),
            redirect_uri(scheme, "0.0.0.0"@, port),
        ]
    } else {
        seq![redirect_uri(scheme, host, port)]
    }
}

/// What a list of strings holds, each string as its characters.
pub open spec fn texts(v: Seq<String>) -> Seq<Seq<char>> {
    Seq::new(v.len(), |i: int| v[i]@)
}

fn digit_str(d: u16) -> (s: &'static str)
    requires
        d < 10,
    ensures
        s@ == seq![digit_char(d as nat)],
{
    proof {
        reveal_strlit("0");
        reveal_strlit("1");
        reveal_strlit("2");
        reveal_strlit("3");
        reveal_strlit("4");
        reveal_strlit("5");
        reveal_strlit("6");
        reveal_strlit("7");
        reveal_strlit("8");
        reveal_strlit("9");
    }
    let s = if d == 0 {
        "0"
    } else if d == 1 {
        "1"
    } else if d == 2 {
        "2"
    } else if d == 3 {
        "3"
    } else if d == 4 {
        "4"
    } else if d == 5 {
        "5"
    } else if d == 6 {
        "6"
    } else if d == 7 {
        "7"
    } else if d == 8 {
        "8"
    } else {
        "9"
    };
    assert(s@ =~= seq![digit_char(d as nat)]);
    s
}

/// Appends a number in decimal.
pub fn push_decimal(out: String, n: u16) -> (r: String)
    ensures
        r@ == out@ + decimal(n as nat),
    decreases n,
{
    if n < 10 {
        out.concat(digit_str(n))
    } else {
        let head = push_decimal(out, n / 10);
        let r = head.concat(digit_str(n % 10));
        assert(r@ =~= out@ + decimal(n as nat));
        r
    }
}

/// One redirect URI.
pub fn build_redirect_uri(scheme: &str, host: &str, port: u16) -> (uri: String)
    ensures
        uri@ == redirect_uri(scheme@, host@, port),
{
    let uri = String::from_str(scheme).concat("://").concat(host).concat(":");
    let uri = push_decimal(uri, port);
    uri.concat("/app/login/callback")
}

/// Whether a host is one of the loopback names.
pub fn host_is_loopback(host: &str) -> (b: bool)
    ensures
        b == is_loopback(host@),
{
    let h = String::from_str(host);
    h == String::from_str("localhost") || h == String::from_str("127.0.0.1") || h
        == String::from_str("0.0.0.0")
}

/// The redirect URIs for a server at `host`, in the order in which they are
/// registered.
pub fn build_redirect_uris(host: &str, scheme: &str, port: u16) -> (uris: Vec<String>)
    ensures
        texts(uris@) == redirect_uris(host@, scheme@, port),
{
    let mut uris: Vec<String> = Vec::new();
    if host_is_loopback(host) {
        uris.push(build_redirect_uri(scheme, "localhost", port));
        uris.push(build_redirect_uri(scheme, "127.0.0.1", port));
        uris.push(build_redirect_uri(scheme, "0.0.0.0", port));
    } else {
        uris.push(build_redirect_uri(scheme, host, port));
    }
    assert(texts(uris@) =~= redirect_uris(host@, scheme@, port));
    uris
}

/// Whatever the host, the URI of the host itself is among those registered.
pub proof fn own_uri_is_registered(host: Seq<char>, scheme: Seq<char>, port: u16)
    ensures
        redirect_uris(host, scheme, port).contains(redirect_uri(scheme, host, port)),
        is_loopback(host) ==> redirect_uris(host, scheme, port) == redirect_uris(
            "localhost"@,
            scheme,
            port,
        ),
{
    let uris = redirect_uris(host, scheme, port);
    if host == "localhost"@ {
        assert(uris[0] == redirect_uri(scheme, host, port));
    } else if host == "127.0.0.1"@ {
        assert(uris[1] == redirect_uri(scheme, host, port));
    } else if host == "0.0.0.0"@ {
        assert(uris[2] == redirect_uri(scheme, host, port));
    } else {
        assert(uris[0] == redirect_uri(scheme, host, port));
    }
}

} // verus!
