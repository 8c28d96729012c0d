//! The build plan a buildpack's detect phase writes: what it provides and requires, with
//! alternatives.
use toml::{Table, Value};
use vstd::prelude::*;

verus! {

#[verifier::external_type_specification]
#[verifier::external_body]
#[verifier::reject_recursive_types(K)]
#[verifier::reject_recursive_types(V)]
pub struct ExTomlMap<K, V>(toml::map::Map<K, V>);

#[verifier::external_type_specification]
#[verifier::external_body]
pub struct ExTomlValue(Value);

/// An empty TOML table (`toml::map::Map::new`).
#[verifier::external_body]
fn empty_table() -> (r: Table) {
    Table::new()
}

/// A dependency that a buildpack provides.
#[derive(Debug)]
pub struct Provide {
    pub name: String,
}

impl Provide {
    /// Provides `name`.
    pub fn new(name: &str) -> (r: Self)
        ensures
            r.name@ == name@,
    {
        Provide { name: name.to_owned() }
    }
}

/// A dependency that a buildpack requires, with metadata for the buildpack that provides it.
#[derive(Debug)]
pub struct Require {
    pub name: String,
    pub metadata: Table,
}

impl Require {
    /// Requires `name`, with empty metadata.
    pub fn new(name: &str) -> (r: Self)
        ensures
            r.name@ == name@,
    {
        Require { name: name.to_owned(), metadata: empty_table() }
    }
}

/// An alternative set of provided and required dependencies.
#[derive(Debug)]
pub struct Or {
    pub provides: Vec<Provide>,
    pub requires: Vec<Require>,
}

/// A build plan: the first alternative, and the others.
#[derive(Debug)]
pub struct BuildPlan {
    pub provides: Vec<Provide>,
    pub requires: Vec<Require>,
    pub or: Vec<Or>,
}

impl BuildPlan {
    /// An empty build plan.
    pub fn new() -> (r: Self)
        ensures
            r.provides@.len() == 0,
            r.requires@.len() == 0,
            r.or@.len() == 0,
    {
        BuildPlan { provides: Vec::new(), requires: Vec::new(), or: Vec::new() }
    }
}

/// Builds a build plan alternative by alternative.
#[derive(Debug)]
pub struct BuildPlanBuilder {
    pub acc: Vec<(Vec<Provide>, Vec<Require>)>,
    pub current_provides: Vec<Provide>,
    pub current_requires: Vec<Require>,
}

/// The alternatives of a builder, the one being built last.
pub open spec fn alternatives(b: BuildPlanBuilder) -> Seq<(Seq<Provide>, Seq<Require>)> {
    b.acc@.map_values(|a: (Vec<Provide>, Vec<Require>)| (a.0@, a.1@)).push(
        (b.current_provides@, b.current_requires@),
    )
}

/// `plan` holds the given alternatives: the first as its own provides and requires, the
/// others as its `or` entries, in order.
pub open spec fn plan_of(alts: Seq<(Seq<Provide>, Seq<Require>)>, plan: BuildPlan) -> bool {
    &&& alts.len() > 0
    &&& plan.provides@ == alts[0].0
    &&& plan.requires@ == alts[0].1
    &&& plan.or@.len() == alts.len() - 1
    &&& forall|k: int|
        0 <= k < plan.or@.len() ==> (#[trigger] plan.or@[k]).provides@ == alts[k + 1].0
            && plan.or@[k].requires@ == alts[k + 1].1
}

impl BuildPlanBuilder {
    /// A builder with one empty alternative.
    pub fn new() -> (r: Self)
        ensures
            r.acc@.len() == 0,
            r.current_provides@.len() == 0,
            r.current_requires@.len() == 0,
    {
        BuildPlanBuilder { acc: Vec::new(), current_provides: Vec::new(), current_requires: Vec::new() }
    }

    /// Adds a provided dependency to the current alternative.
    pub fn provides(self, name: &str) -> (r: Self)
        ensures
            r.acc == self.acc,
            r.current_provides@.len() == self.current_provides@.len() + 1,
            r.current_provides@.take(self.current_provides@.len() as int) == self.current_provides@,
            r.current_provides@.last().name@ == name@,
            r.current_requires == self.current_requires,
    {
        let mut b = self;
        b.current_provides.push(Provide::new(name));
        b
    }

    /// Adds a required dependency to the current alternative.
    pub fn require(self, require: Require) -> (r: Self)
        ensures
            r.acc == self.acc,
            r.current_provides == self.current_provides,
            r.current_requires@ == self.current_requires@.push(require),
    {
        let mut b = self;
        b.current_requires.push(require);
        b
    }

    /// Closes the current alternative and starts an empty one.
    pub fn or(self) -> (r: Self)
        ensures
            r.acc@.len() == self.acc@.len() + 1,
            alternatives(r) == alternatives(self).push((Seq::<Provide>::empty(), Seq::<Require>::empty())),
            r.current_provides@.len() == 0,
            r.current_requires@.len() == 0,
    {
        let BuildPlanBuilder { acc, current_provides, current_requires } = self;
        let mut acc = acc;
        acc.push((current_provides, current_requires));
        let r = BuildPlanBuilder { acc, current_provides: Vec::new(), current_requires: Vec::new() };
        assert(alternatives(r) =~= alternatives(self).push((Seq::<Provide>::empty(), Seq::<Require>::empty())));
        r
    }

    /// The build plan of the alternatives so far, the current one included.
    pub fn build(self) -> (r: BuildPlan)
        ensures
            plan_of(alternatives(self), r),
    {
        let ghost alts = alternatives(self);
        let closed = self.or();
        let ghost empty = (Seq::<Provide>::empty(), Seq::<Require>::empty());
        assert(alternatives(closed).drop_last() =~= closed.acc@.map_values(
            |a: (Vec<Provide>, Vec<Require>)| (a.0@, a.1@),
        ));
        assert(alts.push(empty).drop_last() =~= alts);
        let BuildPlanBuilder { acc, .. } = closed;
        let mut rest = acc;
        assert(rest@.map_values(|a: (Vec<Provide>, Vec<Require>)| (a.0@, a.1@)) =~= alts);
        let head = rest.remove(0);
        let mut plan = BuildPlan::new();
        plan.provides = head.0;
        plan.requires = head.1;
        let ghost tail = alts.drop_first();
        assert(rest@.map_values(|a: (Vec<Provide>, Vec<Require>)| (a.0@, a.1@)) =~= tail);
        while rest.len() > 0
            invariant
                tail == alts.drop_first(),
                alts.len() > 0,
                plan.provides@ == alts[0].0,
                plan.requires@ == alts[0].1,
                plan.or@.len() + rest@.len() == tail.len(),
                rest@.map_values(|a: (Vec<Provide>, Vec<Require>)| (a.0@, a.1@)) == tail.skip(plan.or@.len() as int),
                forall|k: int|
                    0 <= k < plan.or@.len() ==> (#[trigger] plan.or@[k]).provides@ == tail[k].0
                        && plan.or@[k].requires@ == tail[k].1,
            decreases rest@.len(),
        {
            let ghost before = rest@;
            let ghost m = plan.or@.len();
            let alternative = rest.remove(0);
            assert(before.map_values(|a: (Vec<Provide>, Vec<Require>)| (a.0@, a.1@))[0] == tail[m as int]);
            plan.or.push(Or { provides: alternative.0, requires: alternative.1 });
            assert(rest@ =~= before.drop_first());
            assert(before.drop_first().map_values(|a: (Vec<Provide>, Vec<Require>)| (a.0@, a.1@)) =~= before.map_values(
                |a: (Vec<Provide>, Vec<Require>)| (a.0@, a.1@),
            ).drop_first());
            assert(tail.skip(m as int).drop_first() =~= tail.skip((m + 1) as int));
            assert(rest@.map_values(|a: (Vec<Provide>, Vec<Require>)| (a.0@, a.1@)) =~= tail.skip(
                plan.or@.len() as int,
            ));
        }
        plan
    }
}

} // verus!
