//! The shape of the authorization header: a bearer header is exactly the
//! word `Bearer`, one space, and the token. Everything else about the
//! capability token itself is the business of the token library outside
//! this crate.

use vstd::prelude::*;
use vstd::string::*;

use crate::errors::Error;

verus! {

/// A well-formed bearer header: the six characters of `Bearer`, a single
/// space — the only space anywhere in the header — and the token after
/// it.
pub open spec fn spec_bearer_ok(s: Seq<char>) -> bool {
    &&& s.len() >= 7
    &&& s.subrange(0, 6) == "Bearer"@
    &&& s[6] == ' '
    &&& forall|i: int| 0 <= i < s.len() && i != 6 ==> s[i] != ' '
}

/// The token carried by a well-formed bearer header.
pub open spec fn spec_bearer_token(s: Seq<char>) -> Seq<char> {
    s.skip(7)
}

/// Splits an authorization header into its token: accepts exactly the
/// headers of the shape `Bearer <token>` with a single space, and refuses
/// every other shape as malformed.
pub fn parse_bearer(header: &str) -> (r: Result<String, Error>)
    ensures
        r is Ok <==> spec_bearer_ok(header@),
        r matches Ok(t) ==> t@ == spec_bearer_token(header@),
        r matches Err(e) ==> e is AuthorizationHeaderMalformed,
{
    proof {
        reveal_strlit("Bearer");
    }
    let n = header.unicode_len();
    if n < 7 {
        return Err(Error::AuthorizationHeaderMalformed);
    }
    let mut i: usize = 0;
    while i < 6
        invariant
            i <= 6,
            n == header@.len(),
            n >= 7,
            forall|j: int| 0 <= j < i ==> header@[j] == "Bearer"@[j],
        decreases 6 - i,
    {
        proof {
            reveal_strlit("Bearer");
        }
        let c = header.get_char(i);
        let expected = "Bearer".get_char(i);
        if c != expected {
            proof {
                assert(header@.subrange(0, 6) != "Bearer"@) by {
                    if header@.subrange(0, 6) == "Bearer"@ {
                        assert(header@.subrange(0, 6)[i as int] == header@[i as int]);
                    }
                }
            }
            return Err(Error::AuthorizationHeaderMalformed);
        }
        i += 1;
    }
    proof {
        assert(header@.subrange(0, 6) =~= "Bearer"@);
    }
    if header.get_char(6) != ' ' {
        return Err(Error::AuthorizationHeaderMalformed);
    }
    let mut k: usize = 7;
    while k < n
        invariant
            7 <= k <= n,
            n == header@.len(),
            forall|j: int| 7 <= j < k ==> header@[j] != ' ',
        decreases n - k,
    {
        if header.get_char(k) == ' ' {
            return Err(Error::AuthorizationHeaderMalformed);
        }
        k += 1;
    }
    proof {
        assert forall|j: int| 0 <= j < header@.len() && j != 6 implies header@[j] != ' ' by {
            if j < 6 {
                assert(header@[j] == "Bearer"@[j]);
            }
        }
    }
    let token = header.substring_char(7, n);
    proof {
        assert(token@ =~= spec_bearer_token(header@));
    }
    Ok(String::from_str(token))
}

} // verus!
