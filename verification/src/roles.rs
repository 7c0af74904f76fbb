//! Roles and the quorum that an emergency reversal needs.

use vstd::prelude::*;

verus! {

/// A party that may take part in an authorization.
#[derive(Clone, Copy, Debug, PartialEq, Eq, Hash, Structural)]
pub enum Role {
    Host,
    OrganicCpuOwner,
    Regulator,
    SovereignKernel,
}

/// How often `role` occurs in `roles`.
pub open spec fn count_of(roles: Seq<Role>, role: Role) -> nat
    decreases roles.len(),
{
    if roles.len() == 0 {
        0
    } else {
        count_of(roles.drop_last(), role) + if roles.last() == role {
            1nat
        } else {
            0nat
        }
    }
}

/// A role occurs in a sequence exactly when its count there is positive,
/// and no count exceeds the length.
pub proof fn lemma_count_of(roles: Seq<Role>, role: Role)
    ensures
        count_of(roles, role) > 0 <==> roles.contains(role),
        count_of(roles, role) <= roles.len(),
    decreases roles.len(),
{
    if roles.len() > 0 {
        let front = roles.drop_last();
        lemma_count_of(front, role);
        if roles.last() == role {
            assert(roles[roles.len() - 1] == role);
        } else if front.contains(role) {
            let i = choose|i: int| 0 <= i < front.len() && front[i] == role;
            assert(roles[i] == role);
        } else if roles.contains(role) {
            let i = choose|i: int| 0 <= i < roles.len() && roles[i] == role;
            assert(front[i] == role);
        }
    }
}

/// The roles granted for one authorization request, as a multiset written
/// down in order, and the number of regulators that a quorum needs.
#[derive(Clone, Debug)]
pub struct RoleSet {
    pub roles: Vec<Role>,
    pub regulator_quorum_threshold: usize,
}

impl RoleSet {
    /// How often `role` was granted.
    pub open spec fn count(&self, role: Role) -> nat {
        count_of(self.roles@, role)
    }

    /// The quorum: host, owner and sovereign kernel are all present, and
    /// at least the required number of regulators.
    pub open spec fn quorum_satisfied(&self) -> bool {
        &&& self.roles@.contains(Role::Host)
        &&& self.roles@.contains(Role::OrganicCpuOwner)
        &&& self.roles@.contains(Role::SovereignKernel)
        &&& self.count(Role::Regulator) >= self.regulator_quorum_threshold
    }

    /// The owner has signed when the owner's role is present.
    pub open spec fn owner_signed(&self) -> bool {
        self.roles@.contains(Role::OrganicCpuOwner)
    }

    /// Counts the grants of `role`.
    pub fn count_role(&self, role: Role) -> (n: usize)
        ensures
            n as nat == self.count(role),
            n > 0 <==> self.roles@.contains(role),
    {
        let mut n: usize = 0;
        let mut k: usize = 0;
        while k < self.roles.len()
            invariant
                k <= self.roles.len(),
                n <= k,
                n as nat == count_of(self.roles@.take(k as int), role),
            decreases self.roles.len() - k,
        {
            proof {
                assert(self.roles@.take(k + 1).drop_last() =~= self.roles@.take(k as int));
            }
            if self.roles[k] == role {
                n = n + 1;
            }
            k = k + 1;
        }
        proof {
            assert(self.roles@.take(k as int) =~= self.roles@);
            lemma_count_of(self.roles@, role);
        }
        n
    }

    /// Whether the quorum for an emergency reversal is met.
    pub fn neuromorph_god_satisfied(&self) -> (r: bool)
        ensures
            r == self.quorum_satisfied(),
            r == (self.count(Role::Host) > 0 && self.count(Role::OrganicCpuOwner) > 0
                && self.count(Role::SovereignKernel) > 0 && self.count(Role::Regulator)
                >= self.regulator_quorum_threshold),
    {
        proof {
            lemma_count_of(self.roles@, Role::Host);
            lemma_count_of(self.roles@, Role::OrganicCpuOwner);
            lemma_count_of(self.roles@, Role::SovereignKernel);
        }
        self.count_role(Role::Host) > 0 && self.count_role(Role::OrganicCpuOwner) > 0
            && self.count_role(Role::SovereignKernel) > 0 && self.count_role(Role::Regulator)
            >= self.regulator_quorum_threshold
    }

    /// Whether the owner has signed.
    pub fn has_owner_signature(&self) -> (r: bool)
        ensures
            r == self.owner_signed(),
    {
        self.count_role(Role::OrganicCpuOwner) > 0
    }
}

/// A quorum always includes the owner's signature.
pub proof fn lemma_quorum_includes_owner(roles: RoleSet)
    requires
        roles.quorum_satisfied(),
    ensures
        roles.owner_signed(),
{
}

} // verus!
