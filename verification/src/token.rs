//! Session handle tokens.
//!
//! The bus addresses a session by a caller-chosen token that must satisfy
//! the handle-token grammar: non-empty, ASCII letters, digits and `_` only.
//! A malformed token is rejected here, before anything reaches the
//! transport.

use vstd::prelude::*;

use crate::errors::LocateError;

verus! {

/// Whether `c` is allowed in a session handle token.
pub open spec fn valid_token_char(c: char) -> bool {
    ||| 'a' as u32 <= c as u32 && c as u32 <= 'z' as u32
    ||| 'A' as u32 <= c as u32 && c as u32 <= 'Z' as u32
    ||| '0' as u32 <= c as u32 && c as u32 <= '9' as u32
    ||| c == '_'
}

/// The handle-token grammar: non-empty, every character allowed.
pub open spec fn valid_token(s: Seq<char>) -> bool {
    &&& s.len() > 0
    &&& forall|i: int| 0 <= i < s.len() ==> valid_token_char(s[i])
}

/// A session handle token that has passed validation. Owning a value of
/// this type is the proof that its text satisfies the grammar.
pub struct SessionToken {
    text: String,
}

impl View for SessionToken {
    type V = Seq<char>;

    closed spec fn view(&self) -> Seq<char> {
        self.text@
    }
}

impl SessionToken {
    /// A validated token always satisfies the grammar.
    pub closed spec fn wf(&self) -> bool {
        valid_token(self.text@)
    }

    /// Validates `text` against the handle-token grammar. Exactly the
    /// malformed texts are rejected, with `ValidationError`, and rejection
    /// happens before any transport interaction.
    pub fn new(text: String) -> (r: Result<SessionToken, LocateError>)
        ensures
            r is Ok <==> valid_token(text@),
            r matches Ok(t) ==> t@ == text@ && t.wf(),
            r is Err ==> r == Err::<SessionToken, LocateError>(LocateError::Validation),
    {
        let len = text.as_str().unicode_len();
        if len == 0 {
            return Err(LocateError::Validation);
        }
        let mut i: usize = 0;
        while i < len
            invariant
                len == text@.len(),
                i <= len,
                forall|j: int| 0 <= j < i ==> valid_token_char(text@[j]),
            decreases len - i,
        {
            let c = text.as_str().get_char(i);
            let lower = 'a' <= c && c <= 'z';
            let upper = 'A' <= c && c <= 'Z';
            let digit = '0' <= c && c <= '9';
            if !(lower || upper || digit || c == '_') {
                return Err(LocateError::Validation);
            }
            i += 1;
        }
        Ok(SessionToken { text })
    }

    /// The token's text, for handing to the transport.
    pub fn as_text(&self) -> (r: &String)
        ensures
            r@ == self@,
    {
        &self.text
    }
}

} // verus!
