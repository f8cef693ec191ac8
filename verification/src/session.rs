//! The session of the browser bridge: one token at a time, which the browser
//! has to show with every request.

use vstd::prelude::*;
use vstd::utf8::encode_utf8_decode_utf8;
use crate::hexadecimal::{hex_encode, hex_lower};
use crate::random::random_bytes;
use crate::text::option_text;

verus! {

/// Whether two lists of bytes are the same. Lists of one length are compared
/// to their end, whatever they hold, so that the time taken does not tell
/// where they differ.
pub fn constant_time_eq(a: &[u8], b: &[u8]) -> (same: bool)
    ensures
        same == (a@ == b@),
{
    if a.len() != b.len() {
        return false;
    }
    let mut result: u8 = 0;
    let mut i: usize = 0;
    while i < a.len()
        invariant
            i <= a.len(),
            a.len() == b.len(),
            (result == 0) <==> (forall|j: int| 0 <= j < i ==> a@[j] == b@[j]),
        decreases a.len() - i,
    {
        let x = a[i];
        let y = b[i];
        let ghost before = result;
        result = result | (x ^ y);
        proof {
            assert((before | (x ^ y)) == 0u8 <==> (before == 0u8 && x == y)) by (bit_vector);
            if result == 0 {
                assert forall|j: int| 0 <= j < i + 1 implies a@[j] == b@[j] by {
                    if j == i as int {
                    }
                }
            } else {
                if before == 0 {
                    assert(a@[i as int] != b@[i as int]);
                }
            }
        }
        i = i + 1;
    }
    proof {
        if result == 0 {
            assert(a@ =~= b@);
        }
    }
    result == 0
}

/// The session manager of the browser bridge.
#[derive(Debug, PartialEq)]
pub struct SessionManager {
    token: Option<String>,
}

impl View for SessionManager {
    type V = Option<Seq<char>>;

    /// The token of the session that is under way, if one is.
    closed spec fn view(&self) -> Option<Seq<char>> {
        option_text(self.token)
    }
}

impl SessionManager {
    /// A manager without a session.
    pub fn new() -> (manager: SessionManager)
        ensures
            manager@.is_none(),
    {
        SessionManager { token: None }
    }

    /// Starts a session under a new token of 256 random bits, written as 64
    /// hexadecimal digits. The token of the session before is no longer
    /// valid.
    pub fn generate_token(&mut self) -> (token: String)
        ensures
            final(self)@ == Some(token@),
            token@.len() == 64,
            exists|bytes: Seq<u8>| bytes.len() == 32 && token@ == #[trigger] hex_lower(bytes),
    {
        let bytes = random_bytes();
        let token = hex_encode(bytes.as_slice());
        assert(token@ == hex_lower(bytes@));
        self.token = Some(token.clone());
        token
    }

    /// Whether a token is that of the session that is under way.
    pub fn validate_token(&self, token: &str) -> (valid: bool)
        ensures
            valid == (self@ == Some(token@)),
    {
        match &self.token {
            Some(stored) => {
                proof {
                    encode_utf8_decode_utf8(stored@);
                    encode_utf8_decode_utf8(token@);
                }
                constant_time_eq(stored.as_str().as_bytes(), token.as_bytes())
            },
            None => false,
        }
    }

    /// Ends the session: no token is valid afterwards.
    pub fn invalidate(&mut self)
        ensures
            final(self)@.is_none(),
    {
        self.token = None;
    }
}

} // verus!
