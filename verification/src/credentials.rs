//! What a client sends to log in or to register, and the rules that such a
//! request has to meet before anything is looked up.

use vstd::prelude::*;
use vstd::string::StrSliceExecFns;
use vstd::utf8::encode_utf8;
use crate::text::owned;

verus! {

/// Whether `c` is white space: a character with the Unicode property
/// `White_Space`.
pub open spec fn is_white_space(c: char) -> bool {
    let n = c as u32;
    ||| 0x0009 <= n <= 0x000D
    ||| n == 0x0020
    ||| n == 0x0085
    ||| n == 0x00A0
    ||| n == 0x1680
    ||| 0x2000 <= n <= 0x200A
    ||| n == 0x2028
    ||| n == 0x2029
    ||| n == 0x202F
    ||| n == 0x205F
    ||| n == 0x3000
}

/// Whether `s` holds nothing but white space, as the empty string does.
pub open spec fn blank(s: Seq<char>) -> bool {
    forall|i: int| 0 <= i < s.len() ==> is_white_space(#[trigger] s[i])
}

/// Whether `c` is white space.
pub fn white_space(c: char) -> (r: bool)
    ensures
        r == is_white_space(c),
{
    let n: u32 = c as u32;
    (0x0009 <= n && n <= 0x000D) || n == 0x0020 || n == 0x0085 || n == 0x00A0 || n == 0x1680 || (
    0x2000 <= n && n <= 0x200A) || n == 0x2028 || n == 0x2029 || n == 0x202F || n == 0x205F || n
        == 0x3000
}

/// Whether `s` holds nothing but white space.
pub fn is_blank(s: &str) -> (r: bool)
    ensures
        r == blank(s@),
{
    let n = s.unicode_len();
    let mut i: usize = 0;
    while i < n
        invariant
            n == s@.len(),
            i <= n,
            forall|j: int| 0 <= j < i ==> is_white_space(#[trigger] s@[j]),
        decreases n - i,
    {
        if !white_space(s.get_char(i)) {
            return false;
        }
        i += 1;
    }
    true
}

/// The request to log in.
#[derive(Debug, Clone)]
pub struct LoginData {
    pub username: String,
    pub password: String,
}

/// The request to register.
#[derive(Debug, Clone)]
pub struct RegisterData {
    pub username: String,
    pub password: String,
}

/// What is wrong with a request to log in, if anything: the first rule that
/// it breaks.
pub open spec fn login_fault(username: Seq<char>, password: Seq<char>) -> Option<Seq<char>> {
    if blank(username) {
        Some("Username cannot be empty"@)
    } else if password.len() == 0 {
        Some("Password cannot be empty"@)
    } else {
        None
    }
}

/// What is wrong with a request to register, if anything: the first rule
/// that it breaks. The length of a name is that of its UTF-8 encoding.
pub open spec fn register_fault(username: Seq<char>) -> Option<Seq<char>> {
    if blank(username) {
        Some("Username cannot be empty"@)
    } else if encode_utf8(username).len() < 3 {
        Some("Username must be at least 3 characters long"@)
    } else {
        None
    }
}

impl LoginData {
    /// Accepts the request, or says which rule it breaks: the name must hold
    /// more than white space, and the password must not be empty.
    pub fn validate(&self) -> (r: Result<(), String>)
        ensures
            match r {
                Ok(_) => login_fault(self.username@, self.password@) is None,
                Err(message) => login_fault(self.username@, self.password@) == Some(message@),
            },
    {
        if is_blank(self.username.as_str()) {
            return Err(owned("Username cannot be empty"));
        }
        if self.password.as_str().unicode_len() == 0 {
            return Err(owned("Password cannot be empty"));
        }
        Ok(())
    }
}

impl RegisterData {
    /// Accepts the request, or says which rule it breaks: the name must hold
    /// more than white space, and be three bytes long at least.
    pub fn validate(&self) -> (r: Result<(), String>)
        ensures
            match r {
                Ok(_) => register_fault(self.username@) is None,
                Err(message) => register_fault(self.username@) == Some(message@),
            },
    {
        if is_blank(self.username.as_str()) {
            return Err(owned("Username cannot be empty"));
        }
        if self.username.as_str().as_bytes().len() < 3 {
            return Err(owned("Username must be at least 3 characters long"));
        }
        Ok(())
    }
}

} // verus!
