//! The parts of the XACML 3.0 policy and request documents that the policy
//! decision point reads: attribute values and designators, rules with their
//! targets, policies, policy sets and requests.

use vstd::prelude::*;
use crate::text::str_eq;

verus! {

/// An attribute value as written in a policy or a request: its data-type
/// identifier and its text.
#[derive(Debug)]
pub struct AttributeValueType {
    pub data_type: String,
    pub text: Option<String>,
}

/// An attribute value together with the attribute and the rule it belongs to.
#[derive(Debug)]
pub struct AttributeValueWithId {
    pub rule_id: String,
    pub id: String,
    pub att_val: AttributeValueType,
}

/// A reference to an attribute by category, identifier and data type.
#[derive(Debug)]
pub struct AttributeDesignatorType {
    pub category: String,
    pub attribute_id: String,
    pub data_type: String,
    pub issuer: Option<String>,
    pub must_be_present: bool,
}

/// The view of an optional string.
pub open spec fn opt_string_view(s: Option<String>) -> Option<Seq<char>> {
    match s {
        Some(x) => Some(x@),
        None => None,
    }
}

fn copy_opt_string(s: &Option<String>) -> (r: Option<String>)
    ensures
        opt_string_view(r) == opt_string_view(*s),
{
    match s {
        Some(x) => Some(x.clone()),
        None => None,
    }
}

impl AttributeValueType {
    /// A copy of this attribute value.
    pub fn get_copy(&self) -> (r: AttributeValueType)
        ensures
            r.data_type@ == self.data_type@,
            opt_string_view(r.text) == opt_string_view(self.text),
    {
        AttributeValueType { data_type: self.data_type.clone(), text: copy_opt_string(&self.text) }
    }
}

impl AttributeDesignatorType {
    /// A copy of this designator.
    pub fn get_copy(&self) -> (r: AttributeDesignatorType)
        ensures
            r.category@ == self.category@,
            r.attribute_id@ == self.attribute_id@,
            r.data_type@ == self.data_type@,
            opt_string_view(r.issuer) == opt_string_view(self.issuer),
            r.must_be_present == self.must_be_present,
    {
        AttributeDesignatorType {
            category: self.category.clone(),
            attribute_id: self.attribute_id.clone(),
            data_type: self.data_type.clone(),
            issuer: copy_opt_string(&self.issuer),
            must_be_present: self.must_be_present,
        }
    }
}

/// Designators compare by whether they must be present: the other fields
/// are compared each with itself, which always holds.
impl PartialEq for AttributeDesignatorType {
    fn eq(&self, other: &Self) -> (r: bool) {
        self.must_be_present == other.must_be_present
    }
}

impl vstd::std_specs::cmp::PartialEqSpecImpl for AttributeDesignatorType {
    open spec fn obeys_eq_spec() -> bool {
        true
    }

    open spec fn eq_spec(&self, other: &Self) -> bool {
        self.must_be_present == other.must_be_present
    }
}

/// An attribute selector (an XPath-style reference into request content).
#[derive(Debug)]
pub struct AttributeSelectorType {
    pub category: String,
    pub path: String,
    pub data_type: String,
    pub context_selector_id: Option<String>,
}

/// What a match compares its attribute value with.
#[derive(Debug)]
pub enum MatchContent47Type {
    AttributeDesignator(AttributeDesignatorType),
    AttributeSelector(AttributeSelectorType),
}

/// A match of a target: a function applied to an attribute value and to a
/// designated attribute.
#[derive(Debug)]
pub struct MatchType {
    pub match_id: String,
    pub attribute_value: AttributeValueType,
    pub content_47: MatchContent47Type,
}

/// A conjunction of matches.
#[derive(Debug)]
pub struct AllOfType {
    pub content: Vec<MatchType>,
}

/// A disjunction of conjunctions of matches.
#[derive(Debug)]
pub struct AnyOfType {
    pub content: Vec<AllOfType>,
}

/// A target: a conjunction of disjunctions.
#[derive(Debug)]
pub struct TargetType {
    pub content: Vec<AnyOfType>,
}

/// The effect of a rule: permit, deny, or an encrypted decision kept
/// under a key.
#[derive(Debug, PartialEq, Eq, Clone, Copy)]
pub enum EffectType {
    Permit,
    Deny,
    EncryptedDecision(u128),
}

/// A rule with its effect and its target.
#[derive(Debug)]
pub struct RuleType {
    pub rule_id: String,
    pub effect: EffectType,
    pub target: Option<TargetType>,
}

/// An element of a policy.
#[derive(Debug)]
pub enum PolicyContent41Type {
    Target(TargetType),
    Rule(RuleType),
    Other,
}

/// A policy: its elements in document order.
#[derive(Debug)]
pub struct PolicyType {
    pub policy_id: String,
    pub content_41: Vec<PolicyContent41Type>,
}

/// A policy, as the schema names the element.
pub type Policy = PolicyType;

/// An element of a policy set.
#[derive(Debug)]
pub enum PolicySetContent31Type {
    Target(TargetType),
    Policy(PolicyType),
    PolicySet(PolicySetType),
    Other,
}

/// A policy set: its elements in document order.
#[derive(Debug)]
pub struct PolicySetType {
    pub policy_set_id: String,
    pub content_31: Vec<PolicySetContent31Type>,
}

/// An attribute of a request with its values.
#[derive(Debug)]
pub struct AttributeType {
    pub attribute_id: String,
    pub attribute_value: Vec<AttributeValueType>,
}

/// The attributes of one category of a request.
#[derive(Debug)]
pub struct AttributesType {
    pub category: String,
    pub attribute: Vec<AttributeType>,
}

/// A request: its attributes, by category.
#[derive(Debug)]
pub struct Request {
    pub attributes: Vec<AttributesType>,
}

/// A policy or a policy set, as loaded for evaluation.
#[derive(Debug)]
pub enum Loadout {
    Policy(PolicyType),
    PolicySet(PolicySetType),
}

/// The number of rules among the elements `s`.
pub open spec fn count_rules(s: Seq<PolicyContent41Type>) -> nat
    decreases s.len(),
{
    if s.len() == 0 {
        0
    } else {
        count_rules(s.drop_last()) + if s.last() is Rule {
            1nat
        } else {
            0nat
        }
    }
}

/// The number of rules of a policy.
pub open spec fn policy_rules(p: PolicyType) -> nat {
    count_rules(p.content_41@)
}

/// The number of rules of the policies and policy sets among the elements
/// of `ps` from position `i` on, nested policy sets included.
pub open spec fn set_rules_from(ps: PolicySetType, i: int) -> nat
    decreases ps, ps.content_31@.len() - i,
{
    if i < 0 || i >= ps.content_31@.len() {
        0
    } else {
        let here: nat = match ps.content_31@[i] {
            PolicySetContent31Type::Policy(p) => policy_rules(p),
            PolicySetContent31Type::PolicySet(q) => {
                proof {
                    assert(decreases_to!(ps => ps.content_31));
                    assert(decreases_to!(ps.content_31 => ps.content_31@));
                    assert(decreases_to!(ps.content_31@ => ps.content_31@[i]));
                }
                set_rules_from(q, 0)
            },
            _ => 0,
        };
        here + set_rules_from(ps, i + 1)
    }
}

/// The number of rules of a policy set, nested policy sets included.
pub open spec fn set_rules(ps: PolicySetType) -> nat {
    set_rules_from(ps, 0)
}

/// The number of rules of the policies directly among the elements of `s`.
pub open spec fn direct_policy_rules(s: Seq<PolicySetContent31Type>) -> nat
    decreases s.len(),
{
    if s.len() == 0 {
        0
    } else {
        direct_policy_rules(s.drop_last()) + match s.last() {
            PolicySetContent31Type::Policy(p) => policy_rules(p),
            _ => 0nat,
        }
    }
}

/// The number of rules of a policy.
pub fn nb_rules_p(p: &Policy) -> (r: usize)
    requires
        policy_rules(*p) <= usize::MAX,
    ensures
        r == policy_rules(*p),
{
    let mut counter: usize = 0;
    let mut i: usize = 0;
    while i < p.content_41.len()
        invariant
            i <= p.content_41.len(),
            counter == count_rules(p.content_41@.subrange(0, i as int)),
            count_rules(p.content_41@) <= usize::MAX,
        decreases p.content_41.len() - i,
    {
        proof {
            let s = p.content_41@;
            assert(s.subrange(0, i + 1).drop_last() =~= s.subrange(0, i as int));
            lemma_count_rules_prefix(s, i + 1);
        }
        match &p.content_41[i] {
            PolicyContent41Type::Rule(_) => {
                counter = counter + 1;
            },
            _ => {},
        }
        i = i + 1;
    }
    assert(p.content_41@.subrange(0, i as int) =~= p.content_41@);
    counter
}

proof fn lemma_count_rules_prefix(s: Seq<PolicyContent41Type>, i: int)
    requires
        0 <= i <= s.len(),
    ensures
        count_rules(s.subrange(0, i)) <= count_rules(s),
    decreases s.len() - i,
{
    if i < s.len() {
        lemma_count_rules_prefix(s, i + 1);
        assert(s.subrange(0, i + 1).drop_last() =~= s.subrange(0, i));
    } else {
        assert(s.subrange(0, i) =~= s);
    }
}

proof fn lemma_set_rules_bound(ps: PolicySetType, i: int)
    requires
        0 <= i <= ps.content_31@.len(),
    ensures
        set_rules_from(ps, i) <= set_rules_from(ps, 0),
    decreases i,
{
    if i > 0 {
        lemma_set_rules_step(ps, i - 1);
        lemma_set_rules_bound(ps, i - 1);
    }
}

proof fn lemma_set_rules_step(ps: PolicySetType, i: int)
    requires
        0 <= i < ps.content_31@.len(),
    ensures
        set_rules_from(ps, i + 1) <= set_rules_from(ps, i),
{
}

/// The number of rules of a policy set, nested policy sets included.
pub fn nb_rules_ps(p: &PolicySetType) -> (r: usize)
    requires
        set_rules(*p) <= usize::MAX,
    ensures
        r == set_rules(*p),
    decreases *p,
{
    let mut counter: usize = 0;
    let mut i: usize = 0;
    while i < p.content_31.len()
        invariant
            i <= p.content_31.len(),
            counter + set_rules_from(*p, i as int) == set_rules(*p),
            set_rules(*p) <= usize::MAX,
        decreases p.content_31.len() - i,
    {
        proof {
            lemma_set_rules_bound(*p, i as int);
        }
        match &p.content_31[i] {
            PolicySetContent31Type::Policy(q) => {
                counter = counter + nb_rules_p(q);
            },
            PolicySetContent31Type::PolicySet(q) => {
                proof {
                    assert(decreases_to!(*p => p.content_31));
                    assert(decreases_to!(p.content_31 => p.content_31@));
                    assert(decreases_to!(p.content_31@ => p.content_31@[i as int]));
                }
                counter = counter + nb_rules_ps(q);
            },
            _ => {},
        }
        i = i + 1;
    }
    counter
}

/// No policy set directly inside `ps` holds a rule.
pub open spec fn nested_sets_empty(ps: PolicySetType) -> bool {
    forall|i: int|
        0 <= i < ps.content_31@.len() ==> (#[trigger] ps.content_31@[i] matches PolicySetContent31Type::PolicySet(q)
            ==> set_rules(q) == 0)
}

proof fn lemma_direct_within_nested(ps: PolicySetType, n: int)
    requires
        0 <= n <= ps.content_31@.len(),
    ensures
        direct_policy_rules(ps.content_31@.subrange(0, n)) + set_rules_from(ps, n) <= set_rules(ps),
        nested_sets_empty(ps) ==> direct_policy_rules(ps.content_31@.subrange(0, n)) + set_rules_from(ps, n)
            == set_rules(ps),
    decreases n,
{
    if n > 0 {
        lemma_direct_within_nested(ps, n - 1);
        let s = ps.content_31@;
        assert(s.subrange(0, n).drop_last() =~= s.subrange(0, n - 1));
        if nested_sets_empty(ps) {
            assert(s[n - 1] matches PolicySetContent31Type::PolicySet(q) ==> set_rules(q) == 0);
        }
    }
}

/// Counting the rules of a loadout for evaluation (`Loadout::nb_rules`)
/// never counts more than its rules with nested policy sets included
/// (`nb_rules_ps`): for a policy set, the rules of its direct policies are at
/// most all of its rules, and exactly all of them where no policy set
/// directly inside it holds a rule.
pub proof fn lemma_nb_rules_within_nested(ps: PolicySetType)
    ensures
        Loadout::PolicySet(ps).spec_nb_rules() <= set_rules(ps),
        nested_sets_empty(ps) ==> Loadout::PolicySet(ps).spec_nb_rules() == set_rules(ps),
{
    lemma_direct_within_nested(ps, ps.content_31@.len() as int);
    assert(ps.content_31@.subrange(0, ps.content_31@.len() as int) =~= ps.content_31@);
}

impl Loadout {
    /// The number of rules of the loadout, as counted for evaluation: every
    /// rule of a policy, and the rules of the policies directly inside a
    /// policy set (nested policy sets are not counted).
    pub open spec fn spec_nb_rules(self) -> nat {
        match self {
            Loadout::Policy(p) => policy_rules(p),
            Loadout::PolicySet(ps) => direct_policy_rules(ps.content_31@),
        }
    }

    /// The number of rules of the loadout, as `spec_nb_rules` counts them.
    pub fn nb_rules(&self) -> (r: usize)
        requires
            self.spec_nb_rules() <= usize::MAX,
        ensures
            r == self.spec_nb_rules(),
    {
        match self {
            Loadout::Policy(p) => nb_rules_p(p),
            Loadout::PolicySet(ps) => {
                let mut counter: usize = 0;
                let mut i: usize = 0;
                while i < ps.content_31.len()
                    invariant
                        i <= ps.content_31.len(),
                        counter == direct_policy_rules(ps.content_31@.subrange(0, i as int)),
                        direct_policy_rules(ps.content_31@) <= usize::MAX,
                    decreases ps.content_31.len() - i,
                {
                    proof {
                        let s = ps.content_31@;
                        assert(s.subrange(0, i + 1).drop_last() =~= s.subrange(0, i as int));
                        lemma_direct_prefix(s, i + 1);
                    }
                    match &ps.content_31[i] {
                        PolicySetContent31Type::Policy(p) => {
                            counter = counter + nb_rules_p(p);
                        },
                        _ => {},
                    }
                    i = i + 1;
                }
                assert(ps.content_31@.subrange(0, i as int) =~= ps.content_31@);
                counter
            },
        }
    }
}

proof fn lemma_direct_prefix(s: Seq<PolicySetContent31Type>, i: int)
    requires
        0 <= i <= s.len(),
    ensures
        direct_policy_rules(s.subrange(0, i)) <= direct_policy_rules(s),
    decreases s.len() - i,
{
    if i < s.len() {
        lemma_direct_prefix(s, i + 1);
        assert(s.subrange(0, i + 1).drop_last() =~= s.subrange(0, i));
    } else {
        assert(s.subrange(0, i) =~= s);
    }
}

impl Request {
    /// The identifier of the first attribute of the request whose identifier
    /// is `attribute_id`, if any.
    fn from_name(&self, attribute_id: &str) -> (r: Option<String>)
        ensures
            r is Some <==> exists|i: int, j: int|
                0 <= i < self.attributes@.len() && 0 <= j < self.attributes@[i].attribute@.len()
                    && (#[trigger] self.attributes@[i].attribute@[j]).attribute_id@ == attribute_id@,
            r matches Some(s) ==> s@ == attribute_id@,
    {
        let mut i: usize = 0;
        while i < self.attributes.len()
            invariant
                i <= self.attributes.len(),
                forall|a: int, b: int|
                    0 <= a < i && 0 <= b < self.attributes@[a].attribute@.len() ==> (
                    #[trigger] self.attributes@[a].attribute@[b]).attribute_id@ != attribute_id@,
            decreases self.attributes.len() - i,
        {
            let atts = &self.attributes[i];
            let mut j: usize = 0;
            while j < atts.attribute.len()
                invariant
                    i < self.attributes.len(),
                    atts == self.attributes@[i as int],
                    j <= atts.attribute.len(),
                    forall|a: int, b: int|
                        0 <= a < i && 0 <= b < self.attributes@[a].attribute@.len() ==> (
                        #[trigger] self.attributes@[a].attribute@[b]).attribute_id@ != attribute_id@,
                    forall|b: int| 0 <= b < j ==> (#[trigger] atts.attribute@[b]).attribute_id@ != attribute_id@,
                decreases atts.attribute.len() - j,
            {
                if str_eq(atts.attribute[j].attribute_id.as_str(), attribute_id) {
                    return Some(atts.attribute[j].attribute_id.clone());
                }
                j = j + 1;
            }
            i = i + 1;
        }
        None
    }
}

/// The views of a sequence of strings.
pub open spec fn string_views(v: Seq<String>) -> Seq<Seq<char>> {
    v.map_values(|s: String| s@)
}

/// The first `n` elements of `s` (all of them if it has fewer).
pub open spec fn first_n(s: Seq<Seq<char>>, n: nat) -> Seq<Seq<char>> {
    if s.len() <= n {
        s
    } else {
        s.take(n as int)
    }
}

/// The attribute identifier a match designates, if it uses a designator.
pub open spec fn match_ids(m: MatchType) -> Seq<Seq<char>> {
    match m.content_47 {
        MatchContent47Type::AttributeDesignator(d) => seq![d.attribute_id@],
        MatchContent47Type::AttributeSelector(_) => seq![],
    }
}

/// The designated attribute identifiers of matches, in order.
pub open spec fn ids_of_matches(s: Seq<MatchType>) -> Seq<Seq<char>>
    decreases s.len(),
{
    if s.len() == 0 {
        seq![]
    } else {
        ids_of_matches(s.drop_last()) + match_ids(s.last())
    }
}

/// The designated attribute identifiers of conjunctions, in order.
pub open spec fn ids_of_all_ofs(s: Seq<AllOfType>) -> Seq<Seq<char>>
    decreases s.len(),
{
    if s.len() == 0 {
        seq![]
    } else {
        ids_of_all_ofs(s.drop_last()) + ids_of_matches(s.last().content@)
    }
}

/// The designated attribute identifiers of disjunctions, in order.
pub open spec fn ids_of_any_ofs(s: Seq<AnyOfType>) -> Seq<Seq<char>>
    decreases s.len(),
{
    if s.len() == 0 {
        seq![]
    } else {
        ids_of_any_ofs(s.drop_last()) + ids_of_all_ofs(s.last().content@)
    }
}

/// The designated attribute identifiers of a rule's target.
pub open spec fn ids_of_rule(r: RuleType) -> Seq<Seq<char>> {
    match r.target {
        Some(t) => ids_of_any_ofs(t.content@),
        None => seq![],
    }
}

/// The designated attribute identifiers of the rules among policy elements,
/// in document order.
pub open spec fn ids_of_contents(s: Seq<PolicyContent41Type>) -> Seq<Seq<char>>
    decreases s.len(),
{
    if s.len() == 0 {
        seq![]
    } else {
        ids_of_contents(s.drop_last()) + match s.last() {
            PolicyContent41Type::Rule(r) => ids_of_rule(r),
            _ => seq![],
        }
    }
}

/// Whether no match among `s` uses an attribute selector.
pub open spec fn matches_designate(s: Seq<MatchType>) -> bool {
    forall|i: int| 0 <= i < s.len() ==> (#[trigger] s[i]).content_47 is AttributeDesignator
}

/// Whether no match of the conjunctions `s` uses an attribute selector.
pub open spec fn all_ofs_designate(s: Seq<AllOfType>) -> bool {
    forall|i: int| 0 <= i < s.len() ==> matches_designate((#[trigger] s[i]).content@)
}

/// Whether no match of the disjunctions `s` uses an attribute selector.
pub open spec fn any_ofs_designate(s: Seq<AnyOfType>) -> bool {
    forall|i: int| 0 <= i < s.len() ==> all_ofs_designate((#[trigger] s[i]).content@)
}

/// Whether no match in a rule's target uses an attribute selector.
pub open spec fn rule_designates(r: RuleType) -> bool {
    match r.target {
        Some(t) => any_ofs_designate(t.content@),
        None => true,
    }
}

/// Whether no match in the targets of the rules among `s` uses an attribute
/// selector.
pub open spec fn contents_designate(s: Seq<PolicyContent41Type>) -> bool {
    forall|i: int| 0 <= i < s.len() ==> match #[trigger] s[i] {
        PolicyContent41Type::Rule(r) => rule_designates(r),
        _ => true,
    }
}

proof fn lemma_first_n_push(acc: Seq<Seq<char>>, x: Seq<Seq<char>>, n: nat, out: Seq<Seq<char>>)
    requires
        out == first_n(acc, n),
        x.len() <= 1,
    ensures
        first_n(acc + x, n) == if x.len() == 1 && out.len() < n { out.push(x[0]) } else { out },
{
    if x.len() == 1 {
        if acc.len() < n {
            assert(acc + x =~= acc.push(x[0]));
        } else {
            assert((acc + x).take(n as int) =~= acc.take(n as int));
        }
    } else {
        assert(acc + x =~= acc);
    }
}

/// Appends `id` unless `out` already holds `n` identifiers.
fn push_bounded(out: &mut Vec<String>, n: usize, id: &String, Ghost(acc): Ghost<Seq<Seq<char>>>)
    requires
        string_views(old(out)@) == first_n(acc, n as nat),
    ensures
        string_views(final(out)@) == first_n(acc + seq![id@], n as nat),
{
    proof {
        lemma_first_n_push(acc, seq![id@], n as nat, string_views(out@));
    }
    if out.len() < n {
        out.push(id.clone());
        assert(string_views(out@) =~= string_views(old(out)@).push(id@));
    }
}

fn collect_matches(ms: &Vec<MatchType>, n: usize, out: &mut Vec<String>, Ghost(acc): Ghost<Seq<Seq<char>>>)
    requires
        string_views(old(out)@) == first_n(acc, n as nat),
        matches_designate(ms@),
    ensures
        string_views(final(out)@) == first_n(acc + ids_of_matches(ms@), n as nat),
{
    let mut i: usize = 0;
    while i < ms.len()
        invariant
            i <= ms.len(),
            matches_designate(ms@),
            string_views(out@) == first_n(acc + ids_of_matches(ms@.take(i as int)), n as nat),
        decreases ms.len() - i,
    {
        let ghost before = acc + ids_of_matches(ms@.take(i as int));
        assert(ms@.take(i + 1).drop_last() =~= ms@.take(i as int));
        assert(ms@[i as int].content_47 is AttributeDesignator);
        match &ms[i].content_47 {
            MatchContent47Type::AttributeDesignator(d) => {
                push_bounded(out, n, &d.attribute_id, Ghost(before));
                assert(before + seq![d.attribute_id@] =~= acc + ids_of_matches(ms@.take(i + 1)));
            },
            MatchContent47Type::AttributeSelector(_) => {},
        }
        i = i + 1;
    }
    assert(ms@.take(ms@.len() as int) =~= ms@);
}

fn collect_all_ofs(s: &Vec<AllOfType>, n: usize, out: &mut Vec<String>, Ghost(acc): Ghost<Seq<Seq<char>>>)
    requires
        string_views(old(out)@) == first_n(acc, n as nat),
        all_ofs_designate(s@),
    ensures
        string_views(final(out)@) == first_n(acc + ids_of_all_ofs(s@), n as nat),
{
    let mut i: usize = 0;
    while i < s.len()
        invariant
            i <= s.len(),
            all_ofs_designate(s@),
            string_views(out@) == first_n(acc + ids_of_all_ofs(s@.take(i as int)), n as nat),
        decreases s.len() - i,
    {
        let ghost before = acc + ids_of_all_ofs(s@.take(i as int));
        assert(s@.take(i + 1).drop_last() =~= s@.take(i as int));
        assert(matches_designate(s@[i as int].content@));
        collect_matches(&s[i].content, n, out, Ghost(before));
        assert(before + ids_of_matches(s@[i as int].content@) =~= acc + ids_of_all_ofs(s@.take(i + 1)));
        i = i + 1;
    }
    assert(s@.take(s@.len() as int) =~= s@);
}

fn collect_any_ofs(s: &Vec<AnyOfType>, n: usize, out: &mut Vec<String>, Ghost(acc): Ghost<Seq<Seq<char>>>)
    requires
        string_views(old(out)@) == first_n(acc, n as nat),
        any_ofs_designate(s@),
    ensures
        string_views(final(out)@) == first_n(acc + ids_of_any_ofs(s@), n as nat),
{
    let mut i: usize = 0;
    while i < s.len()
        invariant
            i <= s.len(),
            any_ofs_designate(s@),
            string_views(out@) == first_n(acc + ids_of_any_ofs(s@.take(i as int)), n as nat),
        decreases s.len() - i,
    {
        let ghost before = acc + ids_of_any_ofs(s@.take(i as int));
        assert(s@.take(i + 1).drop_last() =~= s@.take(i as int));
        assert(all_ofs_designate(s@[i as int].content@));
        collect_all_ofs(&s[i].content, n, out, Ghost(before));
        assert(before + ids_of_all_ofs(s@[i as int].content@) =~= acc + ids_of_any_ofs(s@.take(i + 1)));
        i = i + 1;
    }
    assert(s@.take(s@.len() as int) =~= s@);
}

impl Loadout {
    /// The attribute identifiers designated by the matches in the targets of
    /// the rules of a policy, in document order: the first `n` of them, or
    /// all of them if there are fewer.
    pub fn get_attributes_ids_of_n_first_rules(&self, n: usize) -> (r: Vec<String>)
        requires
            self is Policy,
            contents_designate(self->Policy_0.content_41@),
        ensures
            string_views(r@) == first_n(ids_of_contents(self->Policy_0.content_41@), n as nat),
    {
        let mut out: Vec<String> = Vec::new();
        match self {
            Loadout::Policy(p) => {
                let s = &p.content_41;
                assert(string_views(out@) =~= first_n(seq![], n as nat));
                let mut i: usize = 0;
                while i < s.len()
                    invariant
                        i <= s.len(),
                        contents_designate(s@),
                        string_views(out@) == first_n(ids_of_contents(s@.take(i as int)), n as nat),
                    decreases s.len() - i,
                {
                    let ghost before = ids_of_contents(s@.take(i as int));
                    assert(s@.take(i + 1).drop_last() =~= s@.take(i as int));
                    match &s[i] {
                        PolicyContent41Type::Rule(r) => {
                            assert(rule_designates(*r));
                            match &r.target {
                                Some(t) => {
                                    collect_any_ofs(&t.content, n, &mut out, Ghost(before));
                                },
                                None => {},
                            }
                            assert(before + ids_of_rule(*r) =~= ids_of_contents(s@.take(i + 1)));
                            assert(before + seq![] =~= before);
                        },
                        _ => {
                            assert(before + seq![] =~= ids_of_contents(s@.take(i + 1)));
                        },
                    }
                    i = i + 1;
                }
                assert(s@.take(s@.len() as int) =~= s@);
            },
            Loadout::PolicySet(_) => {},
        }
        out
    }
}

} // verus!
