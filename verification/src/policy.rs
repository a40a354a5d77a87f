//! The embedded enforcement strategy: an in-process evaluator over a policy
//! model and a rule store, loaded once at startup and shared read-only. The
//! grammar it supports is exact string matching on (subject, object, action)
//! plus role/group hierarchy expansion when the model declares one.

use vstd::prelude::*;
use crate::text::str_eq;

verus! {

/// One policy tuple of the rule store: a policy type and up to six
/// positional fields. A `p` rule grants `(v0, v1, v2)` as
/// (subject-or-role, object, action); a `g` rule makes subject `v0` a
/// member of role `v1`.
#[derive(Debug, Clone)]
pub struct PolicyRule {
    pub ptype: String,
    pub v0: String,
    pub v1: String,
    pub v2: String,
    pub v3: String,
    pub v4: String,
    pub v5: String,
}

/// The static access-control grammar loaded from configuration: whether the
/// model declares a role hierarchy to expand subjects through.
#[derive(Debug, Clone, Copy)]
pub struct PolicyModel {
    pub has_role_definition: bool,
}

/// The embedded enforcer's shared state: the model and the rule store, both
/// present by construction — their absence is a configuration error that
/// precedes building this value, never a per-request error.
#[derive(Debug, Clone)]
pub struct EmbeddedPolicy {
    pub model: PolicyModel,
    pub rules: Vec<PolicyRule>,
}

impl PolicyRule {
    /// A grant rule: `(subject-or-role, object, action)`.
    pub fn grant(v0: String, v1: String, v2: String) -> (r: PolicyRule)
        ensures
            is_p(r),
            r.v0@ == v0@,
            r.v1@ == v1@,
            r.v2@ == v2@,
    {
        PolicyRule {
            ptype: "p".to_owned(),
            v0,
            v1,
            v2,
            v3: String::new(),
            v4: String::new(),
            v5: String::new(),
        }
    }

    /// A grouping rule: subject `v0` belongs to role `v1`.
    pub fn group(v0: String, v1: String) -> (r: PolicyRule)
        ensures
            is_g(r),
            r.v0@ == v0@,
            r.v1@ == v1@,
    {
        PolicyRule {
            ptype: "g".to_owned(),
            v0,
            v1,
            v2: String::new(),
            v3: String::new(),
            v4: String::new(),
            v5: String::new(),
        }
    }
}

/// Whether a rule is a grant (`p`) rule.
pub open spec fn is_p(r: PolicyRule) -> bool {
    r.ptype@ == "p"@
}

/// Whether a rule is a grouping (`g`) rule.
pub open spec fn is_g(r: PolicyRule) -> bool {
    r.ptype@ == "g"@
}

/// The set of texts a sequence of strings holds.
pub open spec fn strset(v: Seq<String>) -> Set<Seq<char>> {
    Set::new(|x: Seq<char>| exists|i: int| 0 <= i < v.len() && v[i]@ == x)
}

/// `s` extended with the members granted by the first `j` rules, read
/// against the frozen set `s`.
pub open spec fn role_step_upto(rules: Seq<PolicyRule>, s: Set<Seq<char>>, j: int) -> Set<
    Seq<char>,
>
    decreases j,
{
    if j <= 0 {
        s
    } else {
        let prev = role_step_upto(rules, s, j - 1);
        let r = rules[j - 1];
        if is_g(r) && s.contains(r.v0@) {
            prev.insert(r.v1@)
        } else {
            prev
        }
    }
}

/// One expansion round: every role reachable from `s` through one grouping
/// rule is added.
pub open spec fn role_step(rules: Seq<PolicyRule>, s: Set<Seq<char>>) -> Set<Seq<char>> {
    role_step_upto(rules, s, rules.len() as int)
}

/// The subject and every role reachable from it through at most `n`
/// grouping steps.
pub open spec fn roles_within(rules: Seq<PolicyRule>, sub: Seq<char>, n: nat) -> Set<Seq<char>>
    decreases n,
{
    if n == 0 {
        Set::empty().insert(sub)
    } else {
        role_step(rules, roles_within(rules, sub, (n - 1) as nat))
    }
}

/// The subject's full role membership: expansion saturates after as many
/// rounds as there are rules, since every useful round adds a role named by
/// some grouping rule.
pub open spec fn subject_roles(rules: Seq<PolicyRule>, sub: Seq<char>) -> Set<Seq<char>> {
    roles_within(rules, sub, rules.len())
}

/// Whether one rule grants `(sub, obj, act)`: it is a grant rule naming the
/// subject itself — or, when the model declares a role hierarchy, one of
/// the subject's roles — together with exactly this object and action.
pub open spec fn rule_grants(
    r: PolicyRule,
    model: PolicyModel,
    rules: Seq<PolicyRule>,
    sub: Seq<char>,
    obj: Seq<char>,
    act: Seq<char>,
) -> bool {
    is_p(r) && (r.v0@ == sub || (model.has_role_definition && subject_roles(rules, sub).contains(
        r.v0@,
    ))) && r.v1@ == obj && r.v2@ == act
}

impl EmbeddedPolicy {
    /// Whether the store permits `(sub, obj, act)`: some rule grants it.
    pub open spec fn spec_permits(self, sub: Seq<char>, obj: Seq<char>, act: Seq<char>) -> bool {
        exists|i: int|
            0 <= i < self.rules@.len() && rule_grants(
                #[trigger] self.rules@[i],
                self.model,
                self.rules@,
                sub,
                obj,
                act,
            )
    }

    /// The evaluator over a model and rule store; both must already be
    /// loaded.
    pub fn new(model: PolicyModel, rules: Vec<PolicyRule>) -> (p: EmbeddedPolicy)
        ensures
            p.model == model,
            p.rules@ == rules@,
    {
        EmbeddedPolicy { model, rules }
    }

    /// Evaluate `(sub, obj, act)` against the loaded rules: the boolean
    /// result of the match, exactly as [`Self::spec_permits`] states it.
    pub fn enforce(&self, sub: &str, obj: &str, act: &str) -> (r: bool)
        ensures
            r == self.spec_permits(sub@, obj@, act@),
    {
        let roles = expand_roles(&self.rules, sub);
        let n = self.rules.len();
        let mut i: usize = 0;
        while i < n
            invariant
                i <= n,
                n == self.rules@.len(),
                strset(roles@) == subject_roles(self.rules@, sub@),
                forall|k: int|
                    0 <= k < i ==> !rule_grants(
                        #[trigger] self.rules@[k],
                        self.model,
                        self.rules@,
                        sub@,
                        obj@,
                        act@,
                    ),
            decreases n - i,
        {
            let r = &self.rules[i];
            if str_eq(r.ptype.as_str(), "p") {
                let sub_ok = str_eq(r.v0.as_str(), sub) || (self.model.has_role_definition
                    && contains_text(&roles, roles.len(), r.v0.as_str()));
                if sub_ok && str_eq(r.v1.as_str(), obj) && str_eq(r.v2.as_str(), act) {
                    proof {
                        assert(roles@.take(roles@.len() as int) =~= roles@);
                    }
                    return true;
                }
            }
            proof {
                assert(roles@.take(roles@.len() as int) =~= roles@);
            }
            i += 1;
        }
        false
    }
}

/// Whether one of the first `len0` strings of `v` is the text `s`.
fn contains_text(v: &Vec<String>, len0: usize, s: &str) -> (r: bool)
    requires
        len0 <= v@.len(),
    ensures
        r == strset(v@.take(len0 as int)).contains(s@),
{
    let mut i: usize = 0;
    while i < len0
        invariant
            i <= len0,
            len0 <= v@.len(),
            forall|j: int| 0 <= j < i ==> v@[j]@ != s@,
        decreases len0 - i,
    {
        if str_eq(v[i].as_str(), s) {
            assert(v@.take(len0 as int)[i as int]@ == s@);
            return true;
        }
        i += 1;
    }
    assert forall|j: int| 0 <= j < len0 implies v@.take(len0 as int)[j]@ != s@ by {
        assert(v@.take(len0 as int)[j] == v@[j]);
    }
    false
}

/// Pushing a string onto a sequence adds exactly its text to the set it
/// holds.
proof fn lemma_strset_push(v: Seq<String>, s: String)
    ensures
        strset(v.push(s)) == strset(v).insert(s@),
{
    assert forall|x: Seq<char>| strset(v.push(s)).contains(x) implies strset(v).insert(
        s@,
    ).contains(x) by {
        let i = choose|i: int| 0 <= i < v.push(s).len() && v.push(s)[i]@ == x;
        if i < v.len() {
            assert(v[i]@ == x);
        } else {
            assert(x == s@);
        }
    }
    assert forall|x: Seq<char>| strset(v).insert(s@).contains(x) implies strset(
        v.push(s),
    ).contains(x) by {
        if strset(v).contains(x) {
            let i = choose|i: int| 0 <= i < v.len() && v[i]@ == x;
            assert(v.push(s)[i]@ == x);
        } else {
            assert(v.push(s)[v.len() as int]@ == x);
        }
    }
    assert(strset(v.push(s)) =~= strset(v).insert(s@));
}

/// The role names the grouping rules among the first `j` can ever grant.
spec fn g_targets_upto(rules: Seq<PolicyRule>, j: int) -> Set<Seq<char>>
    decreases j,
{
    if j <= 0 {
        Set::empty()
    } else {
        let prev = g_targets_upto(rules, j - 1);
        if is_g(rules[j - 1]) {
            prev.insert(rules[j - 1].v1@)
        } else {
            prev
        }
    }
}

/// There are at most `j` such role names, and they form a finite set.
proof fn lemma_g_targets_bound(rules: Seq<PolicyRule>, j: int)
    requires
        j >= 0,
    ensures
        g_targets_upto(rules, j).finite(),
        g_targets_upto(rules, j).len() <= j,
    decreases j,
{
    broadcast use vstd::set::group_set_axioms;

    if j > 0 {
        lemma_g_targets_bound(rules, j - 1);
    }
}

/// An expansion round keeps every member of the set it starts from.
proof fn lemma_step_upto_inflationary(rules: Seq<PolicyRule>, s: Set<Seq<char>>, j: int)
    ensures
        s.subset_of(role_step_upto(rules, s, j)),
    decreases j,
{
    broadcast use vstd::set::group_set_axioms;

    if j > 0 {
        lemma_step_upto_inflationary(rules, s, j - 1);
    }
}

/// An expansion round only adds role names that grouping rules grant.
proof fn lemma_step_upto_frame(rules: Seq<PolicyRule>, s: Set<Seq<char>>, j: int)
    requires
        j >= 0,
    ensures
        role_step_upto(rules, s, j).subset_of(s.union(g_targets_upto(rules, j))),
    decreases j,
{
    broadcast use vstd::set::group_set_axioms;

    if j > 0 {
        lemma_step_upto_frame(rules, s, j - 1);
        assert forall|x: Seq<char>| role_step_upto(rules, s, j).contains(x) implies s.union(
            g_targets_upto(rules, j),
        ).contains(x) by {
            if !role_step_upto(rules, s, j - 1).contains(x) {
                assert(x == rules[j - 1].v1@);
            } else {
                assert(s.union(g_targets_upto(rules, j - 1)).contains(x));
            }
        }
    }
}

/// An expansion round of a finite set is finite.
proof fn lemma_step_upto_finite(rules: Seq<PolicyRule>, s: Set<Seq<char>>, j: int)
    requires
        s.finite(),
    ensures
        role_step_upto(rules, s, j).finite(),
    decreases j,
{
    broadcast use vstd::set::group_set_axioms;

    if j > 0 {
        lemma_step_upto_finite(rules, s, j - 1);
    }
}

/// Every bounded expansion is finite.
proof fn lemma_roles_within_finite(rules: Seq<PolicyRule>, sub: Seq<char>, n: nat)
    ensures
        roles_within(rules, sub, n).finite(),
    decreases n,
{
    broadcast use vstd::set::group_set_axioms;

    if n > 0 {
        lemma_roles_within_finite(rules, sub, (n - 1) as nat);
        lemma_step_upto_finite(rules, roles_within(rules, sub, (n - 1) as nat), rules.len() as int);
    }
}

/// Every bounded expansion stays among the subject and the role names the
/// grouping rules grant.
proof fn lemma_roles_within_frame(rules: Seq<PolicyRule>, sub: Seq<char>, n: nat)
    ensures
        roles_within(rules, sub, n).subset_of(
            Set::empty().insert(sub).union(g_targets_upto(rules, rules.len() as int)),
        ),
    decreases n,
{
    broadcast use vstd::set::group_set_axioms;

    let bound = Set::empty().insert(sub).union(g_targets_upto(rules, rules.len() as int));
    if n > 0 {
        let prev = roles_within(rules, sub, (n - 1) as nat);
        lemma_roles_within_frame(rules, sub, (n - 1) as nat);
        lemma_step_upto_frame(rules, prev, rules.len() as int);
        assert forall|x: Seq<char>| roles_within(rules, sub, n).contains(x) implies bound.contains(
            x,
        ) by {
            assert(prev.union(g_targets_upto(rules, rules.len() as int)).contains(x));
        }
    }
}

/// Once one round adds nothing, no later round adds anything either.
proof fn lemma_roles_stabilize(rules: Seq<PolicyRule>, sub: Seq<char>, k: nat, m: nat)
    requires
        roles_within(rules, sub, (k + 1) as nat) == roles_within(rules, sub, k),
        m >= k,
    ensures
        roles_within(rules, sub, m) == roles_within(rules, sub, k),
    decreases m,
{
    if m > k {
        lemma_roles_stabilize(rules, sub, k, (m - 1) as nat);
        if m - 1 >= k + 1 {
            assert(roles_within(rules, sub, ((m - 1 - k) + k + 1) as nat) == role_step(
                rules,
                roles_within(rules, sub, ((m - 1 - k) + k) as nat),
            ));
        }
    }
}

/// While every round grows the set, the set after `n` rounds holds more
/// than `n` members.
proof fn lemma_roles_growth(rules: Seq<PolicyRule>, sub: Seq<char>, n: nat)
    requires
        forall|k: nat|
            k < n ==> #[trigger] roles_within(rules, sub, (k + 1) as nat) != roles_within(
                rules,
                sub,
                k,
            ),
    ensures
        roles_within(rules, sub, n).len() >= n + 1,
    decreases n,
{
    broadcast use vstd::set::group_set_axioms;

    if n == 0 {
        assert(roles_within(rules, sub, 0).len() == 1);
    } else {
        let prev = roles_within(rules, sub, (n - 1) as nat);
        let curr = roles_within(rules, sub, n);
        lemma_roles_growth(rules, sub, (n - 1) as nat);
        lemma_roles_within_finite(rules, sub, n);
        lemma_step_upto_inflationary(rules, prev, rules.len() as int);
        assert(curr != prev) by {
            assert(roles_within(rules, sub, ((n - 1) + 1) as nat) != roles_within(
                rules,
                sub,
                (n - 1) as nat,
            ));
        }
        assert(exists|x: Seq<char>| curr.contains(x) && !prev.contains(x)) by {
            if forall|x: Seq<char>| #[trigger] curr.contains(x) ==> prev.contains(x) {
                assert(curr =~= prev);
            }
        }
        let x = choose|x: Seq<char>| curr.contains(x) && !prev.contains(x);
        prev.lemma_subset_not_in_lt(curr, x);
    }
}

/// The bounded expansion behind [`subject_roles`] is a fixpoint: one more
/// round adds no role, so the membership the evaluator reads is the full
/// hierarchy closure, not an artifact of the bound.
pub proof fn lemma_subject_roles_closed(rules: Seq<PolicyRule>, sub: Seq<char>)
    ensures
        role_step(rules, subject_roles(rules, sub)) == subject_roles(rules, sub),
{
    broadcast use vstd::set::group_set_axioms;

    let n = rules.len();
    if exists|k: nat|
        k <= n && #[trigger] roles_within(rules, sub, (k + 1) as nat) == roles_within(
            rules,
            sub,
            k,
        ) {
        let k = choose|k: nat|
            k <= n && #[trigger] roles_within(rules, sub, (k + 1) as nat) == roles_within(
                rules,
                sub,
                k,
            );
        lemma_roles_stabilize(rules, sub, k, n);
        lemma_roles_stabilize(rules, sub, k, (n + 1) as nat);
        assert(roles_within(rules, sub, (n + 1) as nat) == role_step(
            rules,
            roles_within(rules, sub, n),
        ));
    } else {
        assert forall|k: nat| k < n + 1 implies #[trigger] roles_within(rules, sub, (k + 1) as nat)
            != roles_within(rules, sub, k) by {
            assert(!(k <= n && roles_within(rules, sub, (k + 1) as nat) == roles_within(
                rules,
                sub,
                k,
            )));
        }
        lemma_roles_growth(rules, sub, (n + 1) as nat);
        lemma_roles_within_frame(rules, sub, (n + 1) as nat);
        lemma_g_targets_bound(rules, n as int);
        let bound = Set::empty().insert(sub).union(g_targets_upto(rules, n as int));
        vstd::set_lib::lemma_len_union(
            Set::empty().insert(sub),
            g_targets_upto(rules, n as int),
        );
        vstd::set_lib::lemma_len_subset(roles_within(rules, sub, (n + 1) as nat), bound);
        assert(false);
    }
}

/// Compute the subject's role membership by expanding the grouping rules
/// for as many rounds as there are rules, each round read against the
/// round's starting set.
fn expand_roles(rules: &Vec<PolicyRule>, sub: &str) -> (roles: Vec<String>)
    ensures
        strset(roles@) == subject_roles(rules@, sub@),
{
    let mut roles: Vec<String> = Vec::new();
    roles.push(sub.to_owned());
    proof {
        assert(strset(roles@).contains(sub@)) by {
            assert(roles@[0]@ == sub@);
        }
        assert forall|x: Seq<char>| strset(roles@).contains(x) implies x == sub@ by {
            let i = choose|i: int| 0 <= i < roles@.len() && roles@[i]@ == x;
            assert(i == 0);
        }
        assert(strset(roles@) =~= roles_within(rules@, sub@, 0));
    }
    let n = rules.len();
    let mut round: usize = 0;
    while round < n
        invariant
            round <= n,
            n == rules@.len(),
            strset(roles@) == roles_within(rules@, sub@, round as nat),
        decreases n - round,
    {
        let len0 = roles.len();
        let ghost frozen = roles@;
        let mut j: usize = 0;
        while j < n
            invariant
                j <= n,
                n == rules@.len(),
                len0 == frozen.len(),
                len0 <= roles@.len(),
                roles@.take(len0 as int) == frozen,
                strset(roles@) == role_step_upto(rules@, strset(frozen), j as int),
        decreases n - j,
        {
            let r = &rules[j];
            if str_eq(r.ptype.as_str(), "g") && contains_text(&roles, len0, r.v0.as_str()) {
                let ghost before = roles@;
                roles.push(r.v1.clone());
                proof {
                    lemma_strset_push(before, roles@[before.len() as int]);
                    assert(roles@[before.len() as int]@ == rules@[j as int].v1@);
                    assert(roles@.take(len0 as int) =~= before.take(len0 as int));
                }
            }
            j += 1;
        }
        proof {
            assert(strset(roles@) == role_step(rules@, strset(frozen)));
            assert(strset(frozen) == roles_within(rules@, sub@, round as nat));
        }
        round += 1;
    }
    roles
}

} // verus!
