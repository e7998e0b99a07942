use vstd::prelude::*;

verus! {

#[derive(Debug, Clone, PartialEq, Eq)]
pub enum Party {
    Democrat,
    Republican,
    Independent,
    Other(String),
}

#[derive(Debug, Clone, Copy, PartialEq, Eq, Structural)]
pub enum SenateClass {
    I,
    II,
    III,
}

impl Party {
    pub fn copy(&self) -> (r: Party)
        ensures
            r == *self,
    {
        match self {
            Party::Democrat => Party::Democrat,
            Party::Republican => Party::Republican,
            Party::Independent => Party::Independent,
            Party::Other(s) => Party::Other(s.clone()),
        }
    }

    /// Parties are the same when their variants agree and, for `Other`, their
    /// labels hold the same text.
    pub open spec fn same_spec(self, other: Party) -> bool {
        match (self, other) {
            (Party::Democrat, Party::Democrat) => true,
            (Party::Republican, Party::Republican) => true,
            (Party::Independent, Party::Independent) => true,
            (Party::Other(a), Party::Other(b)) => a@ == b@,
            _ => false,
        }
    }

    pub fn same(&self, other: &Party) -> (r: bool)
        ensures
            r == self.same_spec(*other),
    {
        match (self, other) {
            (Party::Democrat, Party::Democrat) => true,
            (Party::Republican, Party::Republican) => true,
            (Party::Independent, Party::Independent) => true,
            (Party::Other(a), Party::Other(b)) => *a == *b,
            _ => false,
        }
    }
}

} // verus!
