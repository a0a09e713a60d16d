//! The system configuration: which services the init process starts and how
//! the network interfaces should look.
//!
//! Maps of the configuration file are kept as vectors of `(name, value)`
//! entries whose names are pairwise distinct, in the order in which the
//! system visits them: the services in name order, the interfaces in any.

use vstd::prelude::*;
use crate::search::{first_match, lemma_first_match_at, lemma_first_match_none};

verus! {

/// True when no two entries share a name: the entries form a map.
pub open spec fn names_distinct<V>(entries: Seq<(String, V)>) -> bool {
    forall|i: int, j: int|
        0 <= i < entries.len() && 0 <= j < entries.len() && i != j ==> entries[i].0@
            != entries[j].0@
}

/// The order of `String`'s `Ord`, on characters: the first differing
/// character decides by its code point, and a proper prefix comes first.
/// UTF-8 keeps code-point order, so this is the byte order `String` uses.
pub open spec fn name_lt(a: Seq<char>, b: Seq<char>) -> bool
    decreases a.len(),
{
    if b.len() == 0 {
        false
    } else if a.len() == 0 {
        true
    } else if a[0] != b[0] {
        (a[0] as int) < (b[0] as int)
    } else {
        name_lt(a.drop_first(), b.drop_first())
    }
}

/// No name comes before itself.
pub proof fn lemma_name_lt_irreflexive(a: Seq<char>)
    ensures
        !name_lt(a, a),
    decreases a.len(),
{
    if a.len() > 0 {
        lemma_name_lt_irreflexive(a.drop_first());
    }
}

/// True when the entries are named in strictly increasing order, as a map
/// ordered by name is walked.
pub open spec fn names_increasing<V>(entries: Seq<(String, V)>) -> bool {
    forall|i: int, j: int|
        0 <= i < j < entries.len() ==> name_lt(#[trigger] entries[i].0@, #[trigger] entries[j].0@)
}

/// Entries named in increasing order are named each once.
pub proof fn lemma_increasing_names_distinct<V>(entries: Seq<(String, V)>)
    requires
        names_increasing(entries),
    ensures
        names_distinct(entries),
{
    assert forall|i: int, j: int|
        0 <= i < entries.len() && 0 <= j < entries.len() && i != j implies entries[i].0@
        != entries[j].0@ by {
        lemma_name_lt_irreflexive(entries[i].0@);
        if i < j {
            assert(name_lt(entries[i].0@, entries[j].0@));
        } else {
            assert(name_lt(entries[j].0@, entries[i].0@));
        }
    }
}

/// True when `name` is the name of some entry.
pub open spec fn has_name<V>(entries: Seq<(String, V)>, name: Seq<char>) -> bool {
    exists|i: int| 0 <= i < entries.len() && entries[i].0@ == name
}

/// Whether an entry is named `name`.
pub open spec fn named<V>(name: Seq<char>) -> spec_fn((String, V)) -> bool {
    |e: (String, V)| e.0@ == name
}

/// The value of the first entry named `name`, if any.
pub open spec fn entry_named<V>(entries: Seq<(String, V)>, name: Seq<char>) -> Option<V> {
    let k = first_match(entries, named(name), 0);
    if k < entries.len() {
        Some(entries[k].1)
    } else {
        None
    }
}

/// Index of the first entry named `name`.
pub fn find_entry<V>(entries: &Vec<(String, V)>, name: &String) -> (r: Option<usize>)
    ensures
        match r {
            Some(i) => i < entries@.len() && i == first_match(entries@, named(name@), 0)
                && entries@[i as int].0@ == name@,
            None => !has_name(entries@, name@) && first_match(entries@, named(name@), 0)
                == entries@.len(),
        },
{
    let mut i: usize = 0;
    while i < entries.len()
        invariant
            i <= entries@.len(),
            forall|j: int| 0 <= j < i ==> entries@[j].0@ != name@,
        decreases entries@.len() - i,
    {
        if entries[i].0 == *name {
            proof {
                lemma_first_match_at(entries@, named(name@), i as int);
            }
            return Some(i);
        }
        i = i + 1;
    }
    proof {
        lemma_first_match_none(entries@, named(name@));
    }
    None
}

/// The whole system configuration.
pub struct Configuration {
    pub network: NetworkConfiguration,
    /// Services by name, in the order in which they are started.
    pub services: Vec<(String, ServiceConfiguration)>,
}

impl Configuration {
    /// The services are keyed by name and kept in name order, and no
    /// interface is configured twice.
    pub open spec fn wf(&self) -> bool {
        names_increasing(self.services@) && self.network.wf()
    }
}

/// What the supervisor does when a service process exits.
#[derive(Debug, Clone, Copy, PartialEq, Eq, Structural)]
pub enum RestartStrategy {
    Never,
    RestartProcess,
    Reboot,
}

/// The strategy a service gets when its configuration names none.
pub fn default_restart_strategy() -> (s: RestartStrategy)
    ensures
        s == RestartStrategy::Reboot,
{
    RestartStrategy::Reboot
}

/// One service that the init process runs.
pub struct ServiceConfiguration {
    /// The executable.
    pub file: String,
    pub args: Vec<String>,
    pub restart_strategy: RestartStrategy,
}

/// Desired operational state of an interface.
#[derive(Debug, Clone, Copy, PartialEq, Eq, Structural)]
pub enum ConfigOperState {
    Up,
    Down,
}

/// Desired state of the network interfaces.
pub struct NetworkConfiguration {
    /// Interfaces by name.
    pub interfaces: Vec<(String, NetworkInterfaceConfiguration)>,
}

impl NetworkConfiguration {
    /// No interface is configured twice.
    pub open spec fn wf(&self) -> bool {
        names_distinct(self.interfaces@)
    }

    /// The configuration of the interface named `name`, if any.
    pub open spec fn interface_spec(&self, name: Seq<char>) -> Option<NetworkInterfaceConfiguration> {
        entry_named(self.interfaces@, name)
    }

    /// The configuration of the interface named `name`.
    pub fn interface(&self, name: &String) -> (r: Option<&NetworkInterfaceConfiguration>)
        ensures
            match r {
                Some(c) => self.interface_spec(name@) == Some(*c),
                None => self.interface_spec(name@) is None && !has_name(self.interfaces@, name@),
            },
    {
        match find_entry(&self.interfaces, name) {
            Some(i) => Some(&self.interfaces[i].1),
            None => None,
        }
    }
}

/// The value of `accept_ra` when the configuration leaves it out.
pub fn true_value() -> (b: bool)
    ensures
        b,
{
    true
}

/// Desired state of one interface.
pub struct NetworkInterfaceConfiguration {
    pub oper_state: ConfigOperState,
    /// Whether router advertisements are accepted (default: yes).
    pub accept_ra: bool,
    /// What kind of link the interface is (default: a plain link).
    pub link_config: LinkConfig,
}

/// What kind of link an interface is, and what creating it takes.
pub enum LinkConfig {
    /// A link that exists on its own (`None` in the configuration file).
    Plain,
    /// A bridge, created when missing.
    Bridge { vlan_filtering: bool },
    /// A port of the bridge `bridge_name`.
    BridgeMember { bridge_name: String },
}

impl Default for LinkConfig {
    fn default() -> (c: Self)
        ensures
            c is Plain,
    {
        LinkConfig::Plain
    }
}

} // verus!
