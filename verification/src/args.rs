//! The structured arguments that a relayer hands on with a request.

use vstd::prelude::*;

verus! {

/// Tells, for each value that a relayer adds to a call, the field under which
/// it is sent.
#[derive(Clone, Debug)]
pub struct KeypomArgs {
    pub account_id_field: Option<String>,
    pub drop_id_field: Option<String>,
    pub key_id_field: Option<String>,
    pub funder_id_field: Option<String>,
}

/// The field under which the funder has to be sent.
pub open spec fn funder_field_name() -> Seq<char> {
    "funder_id"@
}

impl KeypomArgs {
    /// The funder is announced, and under the expected field.
    pub open spec fn names_funder_field(&self) -> bool {
        self.funder_id_field matches Some(field) && field@ == funder_field_name()
    }

    /// Whether the funder is announced under the expected field.
    pub fn has_funder_field(&self) -> (ok: bool)
        ensures
            ok == self.names_funder_field(),
    {
        match &self.funder_id_field {
            Some(field) => {
                let expected = "funder_id".to_owned();
                *field == expected
            },
            None => false,
        }
    }
}

} // verus!
