//! The one fact the library states about reaching the identity oracle:
//! which endpoint a request must query. A caller from another instance is
//! resolved against that instance's public endpoint; a local caller against
//! the local deployment's host. The network round-trip itself lives outside
//! the library, which consumes its result as an [`crate::auth::OracleOutcome`].

use vstd::prelude::*;
use vstd::string::StringExecFns;

verus! {

/// The character for one decimal digit.
pub open spec fn dec_digit_char(d: nat) -> char {
    if d == 0 {
        '0'
    } else if d == 1 {
        '1'
    } else if d == 2 {
        '2'
    } else if d == 3 {
        '3'
    } else if d == 4 {
        '4'
    } else if d == 5 {
        '5'
    } else if d == 6 {
        '6'
    } else if d == 7 {
        '7'
    } else if d == 8 {
        '8'
    } else {
        '9'
    }
}

/// The decimal digits of `n`, most significant first, no leading zeros
/// (a single `'0'` for zero).
pub open spec fn dec_str(n: nat) -> Seq<char>
    decreases n,
{
    if n < 10 {
        seq![dec_digit_char(n)]
    } else {
        dec_str(n / 10).push(dec_digit_char(n % 10))
    }
}

/// The oracle endpoint for a request: the caller's home instance when that
/// is not the local one; otherwise the local instance, addressed by the
/// deployment mode's host and the configured port. The credential rides
/// along as the `auth` query parameter.
pub open spec fn url_of(
    port: u16,
    jwt: Seq<char>,
    local_domain: Seq<char>,
    user_domain: Seq<char>,
    docker: bool,
) -> Seq<char> {
    if local_domain != user_domain {
        "https://"@ + user_domain + "/api/v3/site?auth="@ + jwt
    } else if docker {
        "http://lemmy:"@ + dec_str(port as nat) + "/api/v3/site?auth="@ + jwt
    } else {
        "http://127.0.0.1:"@ + dec_str(port as nat) + "/api/v3/site?auth="@ + jwt
    }
}

/// Append the decimal digits of `n` to `out`.
fn push_dec_digits(out: &mut String, n: u16)
    ensures
        final(out)@ == old(out)@ + dec_str(n as nat),
    decreases n,
{
    if n >= 10 {
        push_dec_digits(out, n / 10);
    }
    let d = n % 10;
    let digit: &str = if d == 0 {
        "0"
    } else if d == 1 {
        "1"
    } else if d == 2 {
        "2"
    } else if d == 3 {
        "3"
    } else if d == 4 {
        "4"
    } else if d == 5 {
        "5"
    } else if d == 6 {
        "6"
    } else if d == 7 {
        "7"
    } else if d == 8 {
        "8"
    } else {
        "9"
    };
    proof {
        reveal_strlit("0");
        reveal_strlit("1");
        reveal_strlit("2");
        reveal_strlit("3");
        reveal_strlit("4");
        reveal_strlit("5");
        reveal_strlit("6");
        reveal_strlit("7");
        reveal_strlit("8");
        reveal_strlit("9");
        assert(digit@ =~= seq![dec_digit_char(d as nat)]);
    }
    out.append(digit);
    proof {
        assert(final(out)@ =~= old(out)@ + dec_str(n as nat));
    }
}

/// The oracle endpoint as executable code builds it; proved to spell out
/// exactly [`url_of`].
pub fn get_url(port: &u16, jwt: &str, local_domain: &str, user_domain: &str, docker: &bool) -> (r:
    String)
    ensures
        r@ == url_of(*port, jwt@, local_domain@, user_domain@, *docker),
{
    let local = local_domain.to_owned();
    let user = user_domain.to_owned();
    if !(local == user) {
        let mut url = "https://".to_owned();
        url.append(user_domain);
        url.append("/api/v3/site?auth=");
        url.append(jwt);
        url
    } else if *docker {
        let mut url = "http://lemmy:".to_owned();
        push_dec_digits(&mut url, *port);
        url.append("/api/v3/site?auth=");
        url.append(jwt);
        url
    } else {
        let mut url = "http://127.0.0.1:".to_owned();
        push_dec_digits(&mut url, *port);
        url.append("/api/v3/site?auth=");
        url.append(jwt);
        url
    }
}

} // verus!
