//! A set of account names.

use vstd::prelude::*;

use crate::account::AccountId;

verus! {

/// Some member carries the name.
pub open spec fn holds(members: Seq<AccountId>, name: Seq<char>) -> bool {
    exists|i: int| 0 <= i < members.len() && (#[trigger] members[i])@ == name
}

/// The names that the members carry.
pub open spec fn names(members: Seq<AccountId>) -> Set<Seq<char>> {
    Set::new(|name: Seq<char>| holds(members, name))
}

/// No name is carried by two members.
pub open spec fn distinct(members: Seq<AccountId>) -> bool {
    forall|i: int, j: int|
        0 <= i < j < members.len() ==> (#[trigger] members[i])@ != (#[trigger] members[j])@
}

/// A set of accounts, told apart by their names.
///
/// The members are kept in a vector in which no name occurs twice.
#[derive(Debug)]
pub struct AccountSet {
    members: Vec<AccountId>,
}

impl View for AccountSet {
    type V = Set<Seq<char>>;

    closed spec fn view(&self) -> Set<Seq<char>> {
        names(self.members@)
    }
}

impl AccountSet {
    #[verifier::type_invariant]
    spec fn well_formed(&self) -> bool {
        distinct(self.members@)
    }

    /// The empty set.
    pub fn new() -> (set: AccountSet)
        ensures
            set@ == Set::<Seq<char>>::empty(),
    {
        AccountSet { members: Vec::new() }
    }

    /// Where the account stands among the members, if it is one.
    fn position(&self, account_id: &AccountId) -> (at: Option<usize>)
        ensures
            match at {
                Some(i) => i < self.members@.len() && self.members@[i as int]@ == account_id@,
                None => !holds(self.members@, account_id@),
            },
    {
        let mut i: usize = 0;
        while i < self.members.len()
            invariant
                i <= self.members@.len(),
                forall|k: int| 0 <= k < i ==> (#[trigger] self.members@[k])@ != account_id@,
            decreases self.members@.len() - i,
        {
            if self.members[i].same_as(account_id) {
                return Some(i);
            }
            i += 1;
        }
        None
    }

    /// Whether the account is in the set.
    pub fn contains(&self, account_id: &AccountId) -> (found: bool)
        ensures
            found == self@.contains(account_id@),
    {
        self.position(account_id).is_some()
    }

    /// The members, each of them once, in no particular order.
    pub fn to_vec(&self) -> (members: Vec<AccountId>)
        ensures
            names(members@) == self@,
            distinct(members@),
    {
        proof {
            use_type_invariant(self);
        }
        let mut members: Vec<AccountId> = Vec::new();
        let mut i: usize = 0;
        while i < self.members.len()
            invariant
                i <= self.members@.len(),
                members@ == self.members@.take(i as int),
            decreases self.members@.len() - i,
        {
            members.push(self.members[i].clone());
            i += 1;
        }
        assert(members@ == self.members@);
        members
    }

    /// Adds the account. Returns `true` if it was not in the set before.
    pub fn insert(&mut self, account_id: &AccountId) -> (fresh: bool)
        ensures
            final(self)@ == old(self)@.insert(account_id@),
            fresh == !old(self)@.contains(account_id@),
    {
        proof {
            use_type_invariant(&*self);
        }
        match self.position(account_id) {
            Some(_) => false,
            None => {
                let ghost before = self.members@;
                let mut members: Vec<AccountId> = Vec::new();
                std::mem::swap(&mut self.members, &mut members);
                members.push(account_id.clone());
                proof {
                    let after = members@;
                    assert forall|name: Seq<char>|
                        holds(after, name) == (holds(before, name) || name == account_id@) by {
                        if holds(before, name) {
                            let i = choose|i: int|
                                0 <= i < before.len() && (#[trigger] before[i])@ == name;
                            assert(after[i]@ == name);
                        }
                        if name == account_id@ {
                            assert(after[before.len() as int]@ == name);
                        }
                    }
                }
                self.members = members;
                true
            },
        }
    }

    /// Takes the account out. Returns `true` if it was in the set.
    pub fn remove(&mut self, account_id: &AccountId) -> (present: bool)
        ensures
            final(self)@ == old(self)@.remove(account_id@),
            present == old(self)@.contains(account_id@),
    {
        proof {
            use_type_invariant(&*self);
        }
        match self.position(account_id) {
            Some(at) => {
                let ghost before = self.members@;
                let mut members: Vec<AccountId> = Vec::new();
                std::mem::swap(&mut self.members, &mut members);
                members.remove(at);
                proof {
                    let after = members@;
                    assert forall|name: Seq<char>|
                        holds(after, name) == (holds(before, name) && name != account_id@) by {
                        if holds(after, name) {
                            let i = choose|i: int|
                                0 <= i < after.len() && (#[trigger] after[i])@ == name;
                            if i < at {
                                assert(before[i]@ == name);
                            } else {
                                assert(before[i + 1]@ == name);
                            }
                        }
                        if holds(before, name) && name != account_id@ {
                            let i = choose|i: int|
                                0 <= i < before.len() && (#[trigger] before[i])@ == name;
                            if i < at {
                                assert(after[i]@ == name);
                            } else {
                                assert(after[i - 1]@ == name);
                            }
                        }
                    }
                }
                self.members = members;
                true
            },
            None => false,
        }
    }
}

} // verus!
