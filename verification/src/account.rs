//! Account names and their validation.

use vstd::prelude::*;
use vstd::utf8::encode_utf8;

use crate::error::FactoryError;

verus! {

/// Lower-case ASCII letters and digits, the characters that carry a name.
pub open spec fn is_name_character(byte: u8) -> bool {
    (0x61 <= byte <= 0x7a) || (0x30 <= byte <= 0x39)
}

/// `-`, `_` and `.`, the characters that separate the parts of a name.
pub open spec fn is_name_separator(byte: u8) -> bool {
    byte == 0x2d || byte == 0x5f || byte == 0x2e
}

/// The rules for account names: between 2 and 64 bytes, each of them a name
/// character or a separator, no separator at either end and no two separators
/// side by side.
pub open spec fn valid_account_name(bytes: Seq<u8>) -> bool {
    &&& 2 <= bytes.len() <= 64
    &&& forall|i: int|
        0 <= i < bytes.len() ==> is_name_character(#[trigger] bytes[i]) || is_name_separator(
            bytes[i],
        )
    &&& !is_name_separator(bytes[0])
    &&& !is_name_separator(bytes[bytes.len() - 1])
    &&& forall|i: int|
        0 <= i < bytes.len() - 1 ==> !(is_name_separator(#[trigger] bytes[i]) && is_name_separator(
            bytes[i + 1],
        ))
}

/// Taken on trust: `near_sdk::env::is_valid_account_id` answers `true` for
/// exactly the byte strings that follow the rules of [`valid_account_name`].
/// The function turns down a length under 2 or over 64, then walks the bytes
/// once: it turns down any byte that is neither a name character nor a
/// separator, and any separator that stands first or behind another
/// separator; at the end it turns down a name whose last byte is a separator.
/// It reads nothing but its argument and returns for every input.
pub assume_specification[ near_sdk::env::is_valid_account_id ](account_id: &[u8]) -> (ok: bool)
    ensures
        ok == valid_account_name(account_id@),
;

/// The name of an account. Every value holds a valid name.
#[derive(Debug, PartialEq, Eq)]
pub struct AccountId {
    name: String,
}

impl View for AccountId {
    type V = Seq<char>;

    closed spec fn view(&self) -> Seq<char> {
        self.name@
    }
}

impl AccountId {
    #[verifier::type_invariant]
    spec fn well_formed(&self) -> bool {
        valid_account_name(encode_utf8(self.name@))
    }

    /// Checks the name and wraps it.
    pub fn new(name: String) -> (r: Result<AccountId, FactoryError>)
        ensures
            valid_account_name(encode_utf8(name@)) ==> r is Ok && r->Ok_0@ == name@,
            !valid_account_name(encode_utf8(name@)) ==> r == Err::<AccountId, FactoryError>(
                FactoryError::InvalidResourceName,
            ),
    {
        if near_sdk::env::is_valid_account_id(name.as_str().as_bytes()) {
            Ok(AccountId { name })
        } else {
            Err(FactoryError::InvalidResourceName)
        }
    }

    /// The name as text.
    pub fn as_str(&self) -> (s: &str)
        ensures
            s@ == self@,
            valid_account_name(encode_utf8(s@)),
    {
        proof {
            use_type_invariant(self);
        }
        self.name.as_str()
    }

    /// Whether both values name the same account.
    pub fn same_as(&self, other: &AccountId) -> (same: bool)
        ensures
            same == (self@ == other@),
    {
        self.name == other.name
    }
}

impl Clone for AccountId {
    fn clone(&self) -> (r: Self)
        ensures
            r == *self,
    {
        proof {
            use_type_invariant(self);
        }
        AccountId { name: self.name.clone() }
    }
}

} // verus!
