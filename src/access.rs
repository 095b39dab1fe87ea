use vstd::prelude::*;

verus! {

/// The ordered access levels that a caller may be granted and that a method
/// may require.
#[derive(Clone, Copy, Debug, PartialEq, Eq, Structural)]
pub enum AccessLevel {
    Browse,
    Read,
    Write,
    Command,
    Config,
    Service,
    SuperService,
    Developer,
    Superuser,
}

impl AccessLevel {
    /// The position of the level in the order of levels.
    pub open spec fn spec_rank(self) -> nat {
        match self {
            AccessLevel::Browse => 1,
            AccessLevel::Read => 8,
            AccessLevel::Write => 16,
            AccessLevel::Command => 24,
            AccessLevel::Config => 32,
            AccessLevel::Service => 40,
            AccessLevel::SuperService => 48,
            AccessLevel::Developer => 56,
            AccessLevel::Superuser => 63,
        }
    }

    pub fn rank(&self) -> (r: u8)
        ensures
            r as nat == self.spec_rank(),
    {
        match self {
            AccessLevel::Browse => 1,
            AccessLevel::Read => 8,
            AccessLevel::Write => 16,
            AccessLevel::Command => 24,
            AccessLevel::Config => 32,
            AccessLevel::Service => 40,
            AccessLevel::SuperService => 48,
            AccessLevel::Developer => 56,
            AccessLevel::Superuser => 63,
        }
    }

    /// Whether a caller granted `self` may call a method that requires `required`.
    pub open spec fn spec_satisfies(self, required: AccessLevel) -> bool {
        self.spec_rank() >= required.spec_rank()
    }

    pub fn satisfies(&self, required: AccessLevel) -> (r: bool)
        ensures
            r == self.spec_satisfies(required),
    {
        self.rank() >= required.rank()
    }
}

} // verus!
