//! The static API key: the header that the client sends and the test that
//! the server applies to it.

use vstd::prelude::*;

verus! {

/// The scheme word that opens the `Authorization` header.
pub open spec fn bearer_prefix() -> Seq<char> {
    "Bearer "@
}

/// The token that an `Authorization` header carries: what follows
/// `Bearer `, or nothing when the header is missing or starts otherwise.
pub open spec fn bearer_token(header: Option<Seq<char>>) -> Seq<char> {
    match header {
        Some(h) => if h.len() >= bearer_prefix().len()
            && h.subrange(0, bearer_prefix().len() as int) == bearer_prefix() {
            h.subrange(bearer_prefix().len() as int, h.len() as int)
        } else {
            Seq::empty()
        },
        None => Seq::empty(),
    }
}

/// Whether two texts are the same.
pub fn same_text(a: &str, b: &str) -> (same: bool)
    ensures
        same == (a@ == b@),
{
    let n = a.unicode_len();
    if n != b.unicode_len() {
        return false;
    }
    let mut i: usize = 0;
    while i < n
        invariant
            n == a@.len(),
            n == b@.len(),
            i <= n,
            forall|j: int| 0 <= j < i ==> a@[j] == b@[j],
        decreases n - i,
    {
        if a.get_char(i) != b.get_char(i) {
            return false;
        }
        i = i + 1;
    }
    assert(a@ =~= b@);
    true
}

/// The token of an `Authorization` header, as `bearer_token` says.
pub fn token_of(header: Option<&str>) -> (token: &str)
    ensures
        token@ == bearer_token(match header { Some(h) => Some(h@), None => None }),
{
    proof {
        reveal_strlit("Bearer ");
        reveal_strlit("");
    }
    let prefix = "Bearer ";
    match header {
        None => "",
        Some(h) => {
            let n = h.unicode_len();
            if n < 7 {
                return "";
            }
            let mut i: usize = 0;
            while i < 7
                invariant
                    header == Some(h),
                    ""@ == Seq::<char>::empty(),
                    n == h@.len(),
                    n >= 7,
                    prefix@ == bearer_prefix(),
                    prefix@.len() == 7,
                    i <= 7,
                    forall|j: int| 0 <= j < i ==> h@[j] == prefix@[j],
                decreases 7 - i,
            {
                if h.get_char(i) != prefix.get_char(i) {
                    assert(h@.subrange(0, 7)[i as int] != bearer_prefix()[i as int]);
                    assert(h@.subrange(0, 7) != bearer_prefix());
                    return "";
                }
                i = i + 1;
            }
            assert(h@.subrange(0, 7) =~= bearer_prefix());
            h.substring_char(7, n)
        },
    }
}

/// Whether a request with this `Authorization` header (if any) may pass,
/// given the server's key: its bearer token must be the key.
pub fn authorized(header: Option<&str>, api_key: &str) -> (ok: bool)
    ensures
        ok == (bearer_token(match header { Some(h) => Some(h@), None => None }) == api_key@),
{
    same_text(token_of(header), api_key)
}

/// The `Authorization` header that carries `api_key`.
pub fn authorization_value(api_key: &str) -> (value: String)
    ensures
        value@ == bearer_prefix() + api_key@,
{
    let mut value = String::from_str("Bearer ");
    value.append(api_key);
    value
}

/// The server lets the client's header through exactly when the client's
/// key is the server's key.
pub proof fn law_client_header_authorized(client_key: Seq<char>, server_key: Seq<char>)
    ensures
        (bearer_token(Some(bearer_prefix() + client_key)) == server_key) == (client_key == server_key),
{
    reveal_strlit("Bearer ");
    let h = bearer_prefix() + client_key;
    assert(h.subrange(0, 7) =~= bearer_prefix());
    assert(h.subrange(7, h.len() as int) =~= client_key);
}

/// A request without an `Authorization` header, or with one that does not
/// begin with `Bearer `, passes only when the key is empty, which the
/// server's settings refuse.
pub proof fn law_missing_token_refused(header: Option<Seq<char>>, server_key: Seq<char>)
    requires
        server_key.len() > 0,
        header matches Some(h) ==> !(h.len() >= 7 && h.subrange(0, 7) == bearer_prefix()),
    ensures
        bearer_token(header) != server_key,
{
    reveal_strlit("Bearer ");
}

} // verus!
