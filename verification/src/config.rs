use vstd::prelude::*;

use crate::errors::DashboardError;

verus! {

/// One named broker configuration entry: a lookup key and the broker address
/// it resolves to.
#[derive(Debug, Clone)]
pub struct KafkaConfig {
    pub name: String,
    pub broker: String,
}

impl KafkaConfig {
    /// The key under which this entry is found.
    pub fn name(&self) -> (r: &String)
        ensures
            r == &self.name,
    {
        &self.name
    }

    /// The broker address this entry resolves to.
    pub fn broker(&self) -> (r: &String)
        ensures
            r == &self.broker,
    {
        &self.broker
    }
}

/// True when some entry of `configs` carries the name `key`.
pub open spec fn has_match(configs: Seq<KafkaConfig>, key: Seq<char>) -> bool {
    exists|i: int| 0 <= i < configs.len() && #[trigger] configs[i].name@ == key
}

/// True when entry `i` is the first entry of `configs` whose name is `key`.
pub open spec fn first_match(configs: Seq<KafkaConfig>, key: Seq<char>, i: int) -> bool {
    &&& 0 <= i < configs.len()
    &&& configs[i].name@ == key
    &&& forall|j: int| 0 <= j < i ==> #[trigger] configs[j].name@ != key
}

/// Returns a copy of the first entry of `configs` named `key`, if any.
pub fn lookup(configs: &Vec<KafkaConfig>, key: &String) -> (r: Option<KafkaConfig>)
    ensures
        r is Some <==> has_match(configs@, key@),
        r matches Some(c) ==> exists|i: int|
            {
                &&& #[trigger] first_match(configs@, key@, i)
                &&& c.name@ == configs@[i].name@
                &&& c.broker@ == configs@[i].broker@
            },
{
    let mut i: usize = 0;
    while i < configs.len()
        invariant
            i <= configs@.len(),
            forall|j: int| 0 <= j < i ==> #[trigger] configs@[j].name@ != key@,
        decreases configs@.len() - i,
    {
        if configs[i].name == *key {
            let c = KafkaConfig {
                name: configs[i].name.clone(),
                broker: configs[i].broker.clone(),
            };
            assert(first_match(configs@, key@, i as int));
            return Some(c);
        }
        i += 1;
    }
    None
}

/// Resolves the named configuration entry from the parsed configuration
/// store.  `parsed` is `None` when the store itself could not be read or
/// decoded; that and a missing entry are the two startup-fatal failures.
pub fn resolve_config(parsed: Option<Vec<KafkaConfig>>, key: &String) -> (r: Result<
    KafkaConfig,
    DashboardError,
>)
    ensures
        parsed is None ==> (r matches Err(e) && e == DashboardError::ConfigUnreadable),
        parsed matches Some(cs) ==> {
            &&& (r is Ok <==> has_match(cs@, key@))
            &&& !has_match(cs@, key@) ==> (r matches Err(e) && e == DashboardError::ConfigNotFound)
            &&& (r matches Ok(c) ==> exists|i: int|
                {
                    &&& #[trigger] first_match(cs@, key@, i)
                    &&& c.name@ == cs@[i].name@
                    &&& c.broker@ == cs@[i].broker@
                })
        },
{
    match parsed {
        None => Err(DashboardError::ConfigUnreadable),
        Some(cs) => match lookup(&cs, key) {
            Some(c) => Ok(c),
            None => Err(DashboardError::ConfigNotFound),
        },
    }
}

} // verus!
