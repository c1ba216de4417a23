//! Structural validation of untrusted input: provider auth tokens and
//! user-supplied URLs. Every rule fails closed: a character outside the
//! allow-list, an unknown scheme, or a length outside the accepted range
//! rejects the whole value.

use vstd::prelude::*;

verus! {

/// Why a piece of untrusted input was rejected.
#[derive(Clone, Copy, Debug, PartialEq, Eq, Structural)]
pub enum ValidationError {
    /// The value is empty.
    Empty,
    /// The value is longer than the accepted range allows.
    TooLong,
    /// The value holds a character outside the allow-list.
    InvalidCharacter,
    /// The URL's scheme is not one of `http`, `https`, `ws`, `wss`.
    InvalidScheme,
    /// The value is not a well-formed absolute URL.
    MalformedUrl,
}

impl ValidationError {
    /// A short human-readable description of the rejection.
    pub fn message(&self) -> (r: &'static str)
        ensures
            r@.len() > 0,
    {
        let s = match self {
            ValidationError::Empty => "value is empty",
            ValidationError::TooLong => "value is too long",
            ValidationError::InvalidCharacter => "value holds a disallowed character",
            ValidationError::InvalidScheme => "URL scheme is not allowed",
            ValidationError::MalformedUrl => "value is not a well-formed absolute URL",
        };
        proof {
            reveal_strlit("value is empty");
            reveal_strlit("value is too long");
            reveal_strlit("value holds a disallowed character");
            reveal_strlit("URL scheme is not allowed");
            reveal_strlit("value is not a well-formed absolute URL");
        }
        s
    }
}

/// Longest accepted auth token, in characters.
pub const TOKEN_MAX_LEN: usize = 4096;

/// Longest accepted URL, in characters.
pub const URL_MAX_LEN: usize = 2048;

/// The token allow-list: ASCII letters, digits, and `-`, `_`, `.`.
pub open spec fn token_char_ok(c: char) -> bool {
    ('a' <= c && c <= 'z') || ('A' <= c && c <= 'Z') || ('0' <= c && c <= '9') || c == '-' || c
        == '_' || c == '.'
}

/// URL characters must be visible ASCII: no spaces, no control characters,
/// nothing outside the 7-bit range.
pub open spec fn url_char_ok(c: char) -> bool {
    '!' <= c && c <= '~'
}

/// What `validate_token` decides for a given character sequence.
pub open spec fn spec_validate_token(s: Seq<char>) -> Result<(), ValidationError> {
    if s.len() == 0 {
        Err(ValidationError::Empty)
    } else if s.len() > TOKEN_MAX_LEN {
        Err(ValidationError::TooLong)
    } else if exists|i: int| 0 <= i < s.len() && !token_char_ok(s[i]) {
        Err(ValidationError::InvalidCharacter)
    } else {
        Ok(())
    }
}

/// Index of the first `:` in `s`, or -1 when there is none.
pub open spec fn first_colon(s: Seq<char>) -> int
    decreases s.len(),
{
    if s.len() == 0 {
        -1
    } else if s[0] == ':' {
        0
    } else if first_colon(s.drop_first()) < 0 {
        -1
    } else {
        first_colon(s.drop_first()) + 1
    }
}

/// The scheme allow-list: `http`, `https`, `ws`, `wss`.
pub open spec fn scheme_ok(s: Seq<char>) -> bool {
    s =~= seq!['h', 't', 't', 'p'] || s =~= seq!['h', 't', 't', 'p', 's'] || s =~= seq!['w', 's']
        || s =~= seq!['w', 's', 's']
}

/// What `validate_url` decides for a given character sequence: visible ASCII
/// only, an allow-listed scheme, a literal `://`, and a non-empty remainder.
pub open spec fn spec_validate_url(s: Seq<char>) -> Result<(), ValidationError> {
    if s.len() == 0 {
        Err(ValidationError::Empty)
    } else if s.len() > URL_MAX_LEN {
        Err(ValidationError::TooLong)
    } else if exists|i: int| 0 <= i < s.len() && !url_char_ok(s[i]) {
        Err(ValidationError::InvalidCharacter)
    } else if first_colon(s) <= 0 {
        Err(ValidationError::MalformedUrl)
    } else if !scheme_ok(s.subrange(0, first_colon(s))) {
        Err(ValidationError::InvalidScheme)
    } else if !(first_colon(s) + 3 < s.len() && s[first_colon(s) + 1] == '/' && s[first_colon(s)
        + 2] == '/') {
        Err(ValidationError::MalformedUrl)
    } else {
        Ok(())
    }
}

proof fn lemma_first_colon_at(s: Seq<char>, i: int)
    requires
        0 <= i < s.len(),
        s[i] == ':',
        forall|j: int| 0 <= j < i ==> s[j] != ':',
    ensures
        first_colon(s) == i,
    decreases i,
{
    if i == 0 {
    } else {
        lemma_first_colon_at(s.drop_first(), i - 1);
    }
}

proof fn lemma_first_colon_none(s: Seq<char>)
    requires
        forall|j: int| 0 <= j < s.len() ==> s[j] != ':',
    ensures
        first_colon(s) == -1,
    decreases s.len(),
{
    if s.len() > 0 {
        lemma_first_colon_none(s.drop_first());
    }
}

/// Structural validator for untrusted text arriving from external channels.
pub struct InputValidator {}

impl InputValidator {
    /// A fresh validator; the rules are fixed, so it carries no state.
    pub fn new() -> (r: Self) {
        InputValidator {  }
    }

    /// Accepts a provider auth token exactly when it is non-empty, at most
    /// `TOKEN_MAX_LEN` characters, and made only of allow-listed characters.
    pub fn validate_token(&self, value: &str) -> (r: Result<(), ValidationError>)
        ensures
            r == spec_validate_token(value@),
    {
        let n = value.unicode_len();
        if n == 0 {
            return Err(ValidationError::Empty);
        }
        if n > TOKEN_MAX_LEN {
            return Err(ValidationError::TooLong);
        }
        let mut i: usize = 0;
        while i < n
            invariant
                n == value@.len(),
                1 <= n <= TOKEN_MAX_LEN,
                0 <= i <= n,
                forall|j: int| 0 <= j < i ==> token_char_ok(value@[j]),
            decreases n - i,
        {
            let c = value.get_char(i);
            if !(('a' <= c && c <= 'z') || ('A' <= c && c <= 'Z') || ('0' <= c && c <= '9') || c
                == '-' || c == '_' || c == '.') {
                proof {
                    assert(exists|j: int|
                        0 <= j < value@.len() && !token_char_ok(value@[j])) by {
                        assert(!token_char_ok(value@[i as int]));
                    }
                }
                return Err(ValidationError::InvalidCharacter);
            }
            i = i + 1;
        }
        Ok(())
    }

    /// Accepts a URL exactly when it is visible ASCII, carries an allow-listed
    /// scheme (`http`, `https`, `ws`, `wss`) followed by `://`, and has a
    /// non-empty remainder. Script-invocation schemes fail closed.
    pub fn validate_url(&self, value: &str) -> (r: Result<(), ValidationError>)
        ensures
            r == spec_validate_url(value@),
    {
        let n = value.unicode_len();
        if n == 0 {
            return Err(ValidationError::Empty);
        }
        if n > URL_MAX_LEN {
            return Err(ValidationError::TooLong);
        }
        let mut i: usize = 0;
        while i < n
            invariant
                n == value@.len(),
                1 <= n <= URL_MAX_LEN,
                0 <= i <= n,
                forall|j: int| 0 <= j < i ==> url_char_ok(value@[j]),
            decreases n - i,
        {
            let c = value.get_char(i);
            if !('!' <= c && c <= '~') {
                proof {
                    assert(exists|j: int| 0 <= j < value@.len() && !url_char_ok(value@[j])) by {
                        assert(!url_char_ok(value@[i as int]));
                    }
                }
                return Err(ValidationError::InvalidCharacter);
            }
            i = i + 1;
        }
        let mut k: usize = 0;
        while k < n && value.get_char(k) != ':'
            invariant
                n == value@.len(),
                1 <= n <= URL_MAX_LEN,
                0 <= k <= n,
                forall|j: int| 0 <= j < n ==> url_char_ok(value@[j]),
                forall|j: int| 0 <= j < k ==> value@[j] != ':',
            decreases n - k,
        {
            k = k + 1;
        }
        if k == n {
            proof {
                lemma_first_colon_none(value@);
            }
            return Err(ValidationError::MalformedUrl);
        }
        proof {
            lemma_first_colon_at(value@, k as int);
        }
        if k == 0 {
            return Err(ValidationError::MalformedUrl);
        }
        let scheme_accepted: bool = if k == 4 {
            value.get_char(0) == 'h' && value.get_char(1) == 't' && value.get_char(2) == 't'
                && value.get_char(3) == 'p'
        } else if k == 5 {
            value.get_char(0) == 'h' && value.get_char(1) == 't' && value.get_char(2) == 't'
                && value.get_char(3) == 'p' && value.get_char(4) == 's'
        } else if k == 2 {
            value.get_char(0) == 'w' && value.get_char(1) == 's'
        } else if k == 3 {
            value.get_char(0) == 'w' && value.get_char(1) == 's' && value.get_char(2) == 's'
        } else {
            false
        };
        proof {
            assert(scheme_accepted == scheme_ok(value@.subrange(0, k as int)));
        }
        if !scheme_accepted {
            return Err(ValidationError::InvalidScheme);
        }
        if k + 3 < n && value.get_char(k + 1) == '/' && value.get_char(k + 2) == '/' {
            Ok(())
        } else {
            Err(ValidationError::MalformedUrl)
        }
    }
}

} // verus!
