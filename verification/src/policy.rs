use vstd::prelude::*;

verus! {

/// One insurance policy: a keyed record owned by the policy collaborator.
/// Immutable after creation but for the active flag, which a successful claim
/// clears.
pub struct InsurancePolicy {
    pub policy_id: u64,
    pub policy_holder: String,
    pub premium: u32,
    pub coverage_amount: u32,
    pub is_active: bool,
}

impl InsurancePolicy {
    /// A field-for-field copy of the record.
    pub fn duplicate(&self) -> (copy: InsurancePolicy)
        ensures
            copy == *self,
    {
        InsurancePolicy {
            policy_id: self.policy_id,
            policy_holder: self.policy_holder.clone(),
            premium: self.premium,
            coverage_amount: self.coverage_amount,
            is_active: self.is_active,
        }
    }
}

/// The same policy with its active flag cleared: what a successful claim
/// leaves behind.
pub open spec fn deactivated(p: InsurancePolicy) -> InsurancePolicy {
    InsurancePolicy {
        policy_id: p.policy_id,
        policy_holder: p.policy_holder,
        premium: p.premium,
        coverage_amount: p.coverage_amount,
        is_active: false,
    }
}

/// The policy collaborator: keyed policy records plus one global risk-level
/// note. Policy ids are drawn from a monotone counter, so every issued id is
/// fresh; policies are never deleted, and a claim is the only mutation.
pub struct InsuranceContract {
    policies: Vec<InsurancePolicy>,
    risk_level: String,
    next_policy_id: u64,
}

impl InsuranceContract {
    /// The issued policies, in order of creation.
    pub closed spec fn policies_view(&self) -> Seq<InsurancePolicy> {
        self.policies@
    }

    /// The global risk-level note.
    pub closed spec fn risk_view(&self) -> Seq<char> {
        self.risk_level@
    }

    /// The id the next created policy will get.
    pub closed spec fn spec_next_policy_id(&self) -> u64 {
        self.next_policy_id
    }

    /// Issued ids are unique and all lie below the counter.
    pub open spec fn wf(&self) -> bool {
        &&& forall|i: int|
            0 <= i < self.policies_view().len() ==> (#[trigger] self.policies_view()[i]).policy_id
                < self.spec_next_policy_id()
        &&& forall|i: int, j: int|
            0 <= i < j < self.policies_view().len() ==> self.policies_view()[i].policy_id
                != self.policies_view()[j].policy_id
    }

    /// Creates the collaborator with no policies and a low global risk note.
    pub fn initialize() -> (contract: InsuranceContract)
        ensures
            contract.policies_view() == Seq::<InsurancePolicy>::empty(),
            contract.risk_view() == "LOW"@,
            contract.spec_next_policy_id() == 1,
            contract.wf(),
    {
        InsuranceContract { policies: Vec::new(), risk_level: "LOW".to_owned(), next_policy_id: 1 }
    }

    /// Issues a new active policy for a holder and returns its fresh id: one
    /// no existing policy carries.
    pub fn create_policy(
        &mut self,
        policy_holder: String,
        premium: u32,
        coverage_amount: u32,
    ) -> (policy_id: u64)
        requires
            old(self).wf(),
            old(self).spec_next_policy_id() < u64::MAX,
        ensures
            final(self).wf(),
            final(self).risk_view() == old(self).risk_view(),
            policy_id == old(self).spec_next_policy_id(),
            final(self).spec_next_policy_id() == old(self).spec_next_policy_id() + 1,
            final(self).policies_view() == old(self).policies_view().push(
                (InsurancePolicy {
                    policy_id,
                    policy_holder,
                    premium,
                    coverage_amount,
                    is_active: true,
                }),
            ),
            forall|i: int|
                0 <= i < old(self).policies_view().len() ==> (#[trigger] old(
                    self,
                ).policies_view()[i]).policy_id != policy_id,
    {
        let policy_id = self.next_policy_id;
        self.next_policy_id = policy_id + 1;
        let policy = InsurancePolicy {
            policy_id,
            policy_holder,
            premium,
            coverage_amount,
            is_active: true,
        };
        self.policies.push(policy);
        policy_id
    }

    /// Returns a copy of the policy filed under the given id, or `None` when
    /// no policy carries it.
    pub fn get_policy(&self, policy_id: u64) -> (result: Option<InsurancePolicy>)
        ensures
            result is Some <==> exists|i: int|
                0 <= i < self.policies_view().len() && (#[trigger] self.policies_view()[i]).policy_id
                    == policy_id,
            match result {
                Some(p) => self.policies_view().contains(p) && p.policy_id == policy_id,
                None => true,
            },
    {
        match find_policy_index(&self.policies, policy_id) {
            Some(i) => {
                let p = self.policies[i].duplicate();
                proof {
                    assert(self.policies_view().contains(p));
                }
                Some(p)
            },
            None => None,
        }
    }

    /// Overwrites the global risk-level note.
    pub fn update_risk_level(&mut self, new_risk_level: String)
        ensures
            final(self).risk_view() == new_risk_level@,
            final(self).policies_view() == old(self).policies_view(),
            final(self).spec_next_policy_id() == old(self).spec_next_policy_id(),
    {
        self.risk_level = new_risk_level;
    }

    /// Reads the global risk-level note.
    pub fn get_risk_level(&self) -> (risk: String)
        ensures
            risk@ == self.risk_view(),
    {
        self.risk_level.clone()
    }

    /// Files a claim against a policy: succeeds — deactivating exactly that
    /// policy — if and only if the id is filed, the policy is still active,
    /// and the claimed amount is within the coverage; every other outcome
    /// returns false and changes nothing.
    pub fn file_claim(&mut self, policy_id: u64, claim_amount: u32) -> (accepted: bool)
        requires
            old(self).wf(),
        ensures
            final(self).wf(),
            final(self).risk_view() == old(self).risk_view(),
            final(self).spec_next_policy_id() == old(self).spec_next_policy_id(),
            accepted <==> exists|i: int|
                0 <= i < old(self).policies_view().len() && {
                    let p = #[trigger] old(self).policies_view()[i];
                    p.policy_id == policy_id && p.is_active && claim_amount <= p.coverage_amount
                },
            accepted ==> {
                &&& final(self).policies_view().len() == old(self).policies_view().len()
                &&& forall|j: int|
                    0 <= j < old(self).policies_view().len() && (#[trigger] old(
                        self,
                    ).policies_view()[j]).policy_id != policy_id ==> final(self).policies_view()[j]
                        == old(self).policies_view()[j]
                &&& forall|j: int|
                    0 <= j < old(self).policies_view().len() && (#[trigger] old(
                        self,
                    ).policies_view()[j]).policy_id == policy_id ==> final(self).policies_view()[j]
                        == deactivated(old(self).policies_view()[j])
            },
            !accepted ==> final(self).policies_view() == old(self).policies_view(),
    {
        match find_policy_index(&self.policies, policy_id) {
            None => false,
            Some(i) => {
                let active = self.policies[i].is_active;
                let coverage = self.policies[i].coverage_amount;
                if active && claim_amount <= coverage {
                    let mut p = self.policies.remove(i);
                    p.is_active = false;
                    self.policies.insert(i, p);
                    proof {
                        assert forall|j: int|
                            0 <= j < old(self).policies_view().len() && j != i
                                implies self.policies_view()[j] == old(self).policies_view()[j] by {
                            assert(self.policies@ == old(self).policies@.remove(i as int).insert(
                                i as int,
                                deactivated(old(self).policies@[i as int]),
                            ));
                        }
                    }
                    true
                } else {
                    false
                }
            },
        }
    }
}

/// The position of the policy carrying the given id, if any; ids are unique,
/// so the first match is the only one.
fn find_policy_index(policies: &Vec<InsurancePolicy>, policy_id: u64) -> (index: Option<usize>)
    ensures
        match index {
            Some(i) => i < policies@.len() && policies@[i as int].policy_id == policy_id,
            None => forall|j: int|
                0 <= j < policies@.len() ==> (#[trigger] policies@[j]).policy_id != policy_id,
        },
{
    let mut i: usize = 0;
    while i < policies.len()
        invariant
            i <= policies@.len(),
            forall|j: int| 0 <= j < i ==> (#[trigger] policies@[j]).policy_id != policy_id,
        decreases policies@.len() - i,
    {
        if policies[i].policy_id == policy_id {
            return Some(i);
        }
        i = i + 1;
    }
    None
}

} // verus!
