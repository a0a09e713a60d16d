//! Reconciliation of the network interfaces with the configuration.
//!
//! Every round the network task looks up each configured interface (in the
//! order of the configuration). A found interface is brought to its
//! configured operational state at once; a missing one is remembered. After
//! the lookups, missing bridges are created and missing bridge members are
//! considered for attachment. The lookups and the changes are netlink
//! requests made by the caller; this module decides what to request.

use vstd::prelude::*;
use crate::config::{
    ConfigOperState, LinkConfig, NetworkConfiguration, NetworkInterfaceConfiguration, entry_named, named,
    find_entry,
};
use crate::initd::error::{strerror, errno_description};
use crate::search::lemma_first_match_none;
use crate::netconf::netlink::{LinkExt, LinkMessage, OperState, oper_state_of};

verus! {

/// Address family of a bridge link.
pub const AF_BRIDGE: u8 = 7;

/// Errno of a device that does not exist.
pub const ENODEV: i32 = 19;

/// What the network task needs to know of an existing link.
#[derive(Debug, Clone, Copy, PartialEq, Eq, Structural)]
pub struct LinkState {
    /// Interface index.
    pub index: u32,
    /// Address family of the link.
    pub family: u8,
    /// Whether the link is operationally up.
    pub up: bool,
}

/// The state of a link that the kernel described.
pub fn link_state(m: &LinkMessage) -> (s: LinkState)
    ensures
        s == (LinkState {
            index: m.index,
            family: m.family,
            up: oper_state_of(m.attrs@) == Some(OperState::Up),
        }),
{
    LinkState { index: m.index, family: m.family, up: m.is_link_up() }
}

/// The answer to looking up a configured interface.
#[derive(Debug, Clone, Copy, PartialEq, Eq, Structural)]
pub enum LookupOutcome {
    /// The interface exists.
    Found(LinkState),
    /// No such interface.
    Absent,
    /// The lookup failed for another reason; the interface is left alone.
    Unavailable,
}

/// The outcome of a lookup that returned no link (`None`) or failed with a
/// netlink error code (`Some(code)`, a negative errno): no link and "no such
/// device" mean the interface is missing; any other code leaves it alone.
pub fn lookup_failure(netlink_code: Option<i32>) -> (o: LookupOutcome)
    ensures
        o == (match netlink_code {
            None => LookupOutcome::Absent,
            Some(c) => if c == -ENODEV {
                LookupOutcome::Absent
            } else {
                LookupOutcome::Unavailable
            },
        }),
{
    match netlink_code {
        None => LookupOutcome::Absent,
        Some(c) => {
            if c == -ENODEV {
                LookupOutcome::Absent
            } else {
                LookupOutcome::Unavailable
            }
        },
    }
}

/// A change of the network that the task requests.
pub enum LinkAction {
    /// Set the link with this index up.
    SetUp { index: u32 },
    /// Set the link with this index down.
    SetDown { index: u32 },
    /// Create a bridge.
    CreateBridge { name: String, vlan_filtering: bool },
    /// Make the link `index` a port of the bridge `master`.
    SetMaster { index: u32, master: u32 },
}

/// The operational state change that brings `link` to `desired`, if any.
pub open spec fn oper_state_change(desired: ConfigOperState, link: LinkState) -> Option<LinkAction> {
    match (desired, link.up) {
        (ConfigOperState::Up, false) => Some(LinkAction::SetUp { index: link.index }),
        (ConfigOperState::Down, true) => Some(LinkAction::SetDown { index: link.index }),
        _ => None,
    }
}

/// Whether a link is up after `action` (or no action) was applied.
pub open spec fn up_after(link: LinkState, action: Option<LinkAction>) -> bool {
    match action {
        Some(LinkAction::SetUp { index }) => if index == link.index { true } else { link.up },
        Some(LinkAction::SetDown { index }) => if index == link.index { false } else { link.up },
        _ => link.up,
    }
}

/// The request that brings an existing link to its configured operational
/// state: none when it is there already.
pub fn ensure_oper_state(oper_state: ConfigOperState, link: &LinkState) -> (a: Option<LinkAction>)
    ensures
        a == oper_state_change(oper_state, *link),
{
    match (oper_state, link.up) {
        (ConfigOperState::Up, true) => None,
        (ConfigOperState::Up, _) => Some(LinkAction::SetUp { index: link.index }),
        (ConfigOperState::Down, true) => Some(LinkAction::SetDown { index: link.index }),
        _ => None,
    }
}

/// The request that would bring the acceptance of router advertisements to
/// its configured value: the task does not manage it yet, so none.
pub fn ensure_accept_ra(accept_ra: bool, link: &LinkState) -> (a: Option<LinkAction>)
    ensures
        a is None,
{
    None
}

/// The request that creates the bridge `name`.
pub fn create_bridge(name: &String, vlan_filtering: bool) -> (a: LinkAction)
    ensures
        a matches LinkAction::CreateBridge { name: n, vlan_filtering: v } && n@ == name@ && v
            == vlan_filtering,
{
    LinkAction::CreateBridge { name: name.clone(), vlan_filtering }
}

/// The errno that a netlink error code stands for.
pub fn netlink_errno(code: i32) -> (errno: i32)
    requires
        code > i32::MIN,
    ensures
        errno as int == (if code < 0 { -(code as int) } else { code as int }),
{
    if code < 0 {
        -code
    } else {
        code
    }
}

/// The description of the netlink error code that ended the task.
pub fn failure_message(code: i32) -> (text: &'static str)
    requires
        code > i32::MIN,
    ensures
        text@ == errno_description((if code < 0 { -(code as int) } else { code as int }) as i32),
{
    strerror(netlink_errno(code))
}

/// Whether `name` is in `names`.
pub fn contains_name(names: &Vec<String>, name: &String) -> (b: bool)
    ensures
        b == names@.map_values(|n: String| n@).contains(name@),
{
    let ghost view = names@.map_values(|n: String| n@);
    let mut i: usize = 0;
    while i < names.len()
        invariant
            i <= names@.len(),
            view == names@.map_values(|n: String| n@),
            forall|j: int| 0 <= j < i ==> names@[j]@ != name@,
        decreases names@.len() - i,
    {
        if names[i] == *name {
            assert(view[i as int] == name@);
            return true;
        }
        i = i + 1;
    }
    proof {
        if view.contains(name@) {
            let j = choose|j: int| 0 <= j < view.len() && view[j] == name@;
            assert(names@[j]@ == name@);
        }
    }
    false
}

/// The lookups of one round so far: the links found, by name, and the names
/// found missing, each once, in the order they were looked up.
pub struct RoundState {
    pub found: Vec<(String, LinkState)>,
    pub missing: Vec<String>,
}

/// The names of a list of strings.
pub open spec fn names_of(v: Seq<String>) -> Seq<Seq<char>> {
    v.map_values(|n: String| n@)
}

/// The names and states of found links.
pub open spec fn found_view(v: Seq<(String, LinkState)>) -> Seq<(Seq<char>, LinkState)> {
    v.map_values(|e: (String, LinkState)| (e.0@, e.1))
}

/// The round state after looking up `name` with `outcome`.
pub open spec fn observed(
    found: Seq<(Seq<char>, LinkState)>,
    missing: Seq<Seq<char>>,
    name: Seq<char>,
    outcome: LookupOutcome,
) -> (Seq<(Seq<char>, LinkState)>, Seq<Seq<char>>) {
    match outcome {
        LookupOutcome::Found(link) => (found.push((name, link)), missing),
        LookupOutcome::Absent => if missing.contains(name) {
            (found, missing)
        } else {
            (found, missing.push(name))
        },
        LookupOutcome::Unavailable => (found, missing),
    }
}

/// The round state after looking up each of `names` with the matching
/// outcome, from an empty round.
pub open spec fn round(names: Seq<Seq<char>>, outcomes: Seq<LookupOutcome>) -> (
    Seq<(Seq<char>, LinkState)>,
    Seq<Seq<char>>,
)
    decreases names.len(),
{
    if names.len() == 0 || outcomes.len() < names.len() {
        (Seq::empty(), Seq::empty())
    } else {
        let n = (names.len() - 1) as int;
        let before = round(names.take(n), outcomes.take(n));
        observed(before.0, before.1, names[n], outcomes[n])
    }
}

impl RoundState {
    /// A round before any lookup.
    pub fn new() -> (r: Self)
        ensures
            r.found@.len() == 0,
            r.missing@.len() == 0,
    {
        RoundState { found: Vec::new(), missing: Vec::new() }
    }

    /// Records the lookup of the configured interface `name` and returns the
    /// requests that bring it to its configured state when it exists.
    pub fn observe(
        &mut self,
        name: &String,
        iface: &NetworkInterfaceConfiguration,
        outcome: LookupOutcome,
    ) -> (actions: Vec<LinkAction>)
        ensures
            (found_view(final(self).found@), names_of(final(self).missing@)) == observed(
                found_view(old(self).found@),
                names_of(old(self).missing@),
                name@,
                outcome,
            ),
            match outcome {
                LookupOutcome::Found(link) => match oper_state_change(iface.oper_state, link) {
                    Some(a) => actions@ == seq![a],
                    None => actions@.len() == 0,
                },
                _ => actions@.len() == 0,
            },
    {
        let mut actions: Vec<LinkAction> = Vec::new();
        let ghost old_found = self.found@;
        let ghost old_missing = self.missing@;
        match outcome {
            LookupOutcome::Found(link) => {
                self.found.push((name.clone(), link));
                if let Some(a) = ensure_oper_state(iface.oper_state, &link) {
                    actions.push(a);
                }
                if let Some(a) = ensure_accept_ra(iface.accept_ra, &link) {
                    actions.push(a);
                }
                proof {
                    assert(found_view(self.found@) =~= found_view(old_found).push((name@, link)));
                    match oper_state_change(iface.oper_state, link) {
                        Some(a) => assert(actions@ =~= seq![a]),
                        None => {},
                    }
                }
            },
            LookupOutcome::Absent => {
                if !contains_name(&self.missing, name) {
                    self.missing.push(name.clone());
                    proof {
                        assert(names_of(self.missing@) =~= names_of(old_missing).push(name@));
                    }
                }
            },
            LookupOutcome::Unavailable => {},
        }
        actions
    }
}

/// The network task's own state: the configuration, and the links found by
/// name in the last round.
pub struct NetworkTaskImpl {
    pub configuration: NetworkConfiguration,
    pub interfaces: Vec<(String, LinkState)>,
}

/// The link state recorded under `name`, if any.
pub open spec fn link_named(v: Seq<(String, LinkState)>, name: Seq<char>) -> Option<LinkState> {
    entry_named(v, name)
}

/// The attachment that `join_bridge` requests: only when the bridge is a
/// known bridge link and the member is a known link.
pub open spec fn join_action(interfaces: Seq<(String, LinkState)>, bridge: Seq<char>, member: Seq<char>) -> Option<(u32, u32)> {
    match link_named(interfaces, bridge) {
        Some(b) => if b.family != AF_BRIDGE {
            None
        } else {
            match link_named(interfaces, member) {
                Some(m) => Some((m.index, b.index)),
                None => None,
            }
        },
        None => None,
    }
}

/// Looks up a link by name.
fn find_link(interfaces: &Vec<(String, LinkState)>, name: &String) -> (r: Option<LinkState>)
    ensures
        r == link_named(interfaces@, name@),
{
    match find_entry(interfaces, name) {
        Some(i) => Some(interfaces[i].1),
        None => None,
    }
}

impl NetworkTaskImpl {
    pub fn new(configuration: NetworkConfiguration) -> (t: Self)
        requires
            configuration.wf(),
        ensures
            t.configuration == configuration,
            t.interfaces@.len() == 0,
    {
        Self { configuration, interfaces: Vec::new() }
    }

    /// Ends the lookups of a round: the links found become the known links,
    /// and the names found missing are returned.
    pub fn finish_lookups(&mut self, round: RoundState) -> (missing: Vec<String>)
        ensures
            final(self).configuration == old(self).configuration,
            final(self).interfaces == round.found,
            missing == round.missing,
    {
        self.interfaces = round.found;
        round.missing
    }

    /// The request that attaches the interface `name` to the bridge
    /// `bridge_name`: none unless the bridge is a known bridge link and the
    /// interface a known link.
    pub fn join_bridge(&self, bridge_name: &String, name: &String) -> (a: Option<LinkAction>)
        ensures
            match join_action(self.interfaces@, bridge_name@, name@) {
                Some((index, master)) => a == Some(LinkAction::SetMaster { index, master }),
                None => a is None,
            },
            a matches Some(LinkAction::SetMaster { index, master }) ==> {
                &&& link_named(self.interfaces@, bridge_name@) matches Some(b)
                &&& b.family == AF_BRIDGE
                &&& master == b.index
                &&& link_named(self.interfaces@, name@) matches Some(m)
                &&& index == m.index
            },
            !(link_named(self.interfaces@, bridge_name@) matches Some(b) && b.family == AF_BRIDGE)
                ==> a is None,
    {
        proof {
            lemma_join_only_known_bridge(self.interfaces@, bridge_name@, name@);
        }
        let bridge = find_link(&self.interfaces, bridge_name);
        let bridge_id = match bridge {
            Some(b) => {
                if b.family != AF_BRIDGE {
                    return None;
                }
                b.index
            },
            None => return None,
        };
        match find_link(&self.interfaces, name) {
            Some(m) => Some(LinkAction::SetMaster { index: m.index, master: bridge_id }),
            None => None,
        }
    }

    /// The request for an interface found missing: create it when it is a
    /// bridge, attach it when it is a bridge member, nothing otherwise.
    pub fn missing_interface_action(&self, name: &String) -> (a: Option<LinkAction>)
        ensures
            match self.configuration.interface_spec(name@) {
                None => a is None,
                Some(iface) => match iface.link_config {
                    LinkConfig::Plain => a is None,
                    LinkConfig::Bridge { vlan_filtering } => a matches Some(
                        LinkAction::CreateBridge { name: n, vlan_filtering: v },
                    ) && n@ == name@ && v == vlan_filtering,
                    LinkConfig::BridgeMember { bridge_name } => match join_action(
                        self.interfaces@,
                        bridge_name@,
                        name@,
                    ) {
                        Some((index, master)) => a == Some(LinkAction::SetMaster { index, master }),
                        None => a is None,
                    },
                },
            },
    {
        let iface = match self.configuration.interface(name) {
            Some(i) => i,
            None => return None,
        };
        match &iface.link_config {
            LinkConfig::Plain => None,
            LinkConfig::Bridge { vlan_filtering } => Some(create_bridge(name, *vlan_filtering)),
            LinkConfig::BridgeMember { bridge_name } => self.join_bridge(bridge_name, name),
        }
    }
}

/// The configured interface names, in the order a round looks them up.
pub open spec fn configured_names(config: NetworkConfiguration) -> Seq<Seq<char>> {
    config.interfaces@.map_values(|e: (String, NetworkInterfaceConfiguration)| e.0@)
}

/// Looking up the configured interfaces one after another, each with
/// `observe`, builds the round: the state after `k + 1` lookups is the state
/// after `k` lookups with the next one observed.
pub proof fn lemma_round_step(names: Seq<Seq<char>>, outcomes: Seq<LookupOutcome>, k: int)
    requires
        0 <= k < names.len(),
        outcomes.len() == names.len(),
    ensures
        round(names.take(k + 1), outcomes.take(k + 1)) == ({
            let before = round(names.take(k), outcomes.take(k));
            observed(before.0, before.1, names[k], outcomes[k])
        }),
{
    assert(names.take(k + 1).take(k) =~= names.take(k));
    assert(outcomes.take(k + 1).take(k) =~= outcomes.take(k));
}

/// A name the round looked up with the given outcome.
pub open spec fn looked_up(
    names: Seq<Seq<char>>,
    outcomes: Seq<LookupOutcome>,
    x: Seq<char>,
    p: spec_fn(LookupOutcome) -> bool,
) -> bool {
    exists|i: int| 0 <= i < names.len() && names[i] == x && p(outcomes[i])
}

/// What a round of lookups records: a name is found missing exactly when its
/// lookup said it is absent, each such name once; a link is recorded under a
/// name exactly when the lookup of that name found it.
pub proof fn lemma_round(names: Seq<Seq<char>>, outcomes: Seq<LookupOutcome>)
    requires
        outcomes.len() == names.len(),
    ensures
        forall|x: Seq<char>|
            round(names, outcomes).1.contains(x) <==> looked_up(
                names,
                outcomes,
                x,
                |o: LookupOutcome| o is Absent,
            ),
        round(names, outcomes).1.no_duplicates(),
        forall|x: Seq<char>, l: LinkState|
            round(names, outcomes).0.contains((x, l)) <==> looked_up(
                names,
                outcomes,
                x,
                |o: LookupOutcome| o == LookupOutcome::Found(l),
            ),
    decreases names.len(),
{
    if names.len() == 0 {
        assert forall|x: Seq<char>| !round(names, outcomes).1.contains(x) by {}
    } else {
        let n = (names.len() - 1) as int;
        let pn = names.take(n);
        let po = outcomes.take(n);
        lemma_round(pn, po);
        let before = round(pn, po);
        let after = round(names, outcomes);
        assert(after == observed(before.0, before.1, names[n], outcomes[n]));
        assert forall|x: Seq<char>|
            after.1.contains(x) <==> looked_up(names, outcomes, x, |o: LookupOutcome| o is Absent) by {
            if looked_up(names, outcomes, x, |o: LookupOutcome| o is Absent) {
                let i = choose|i: int| 0 <= i < names.len() && names[i] == x && outcomes[i] is Absent;
                if i < n {
                    assert(pn[i] == x && po[i] is Absent);
                    assert(before.1.contains(x));
                    let k = choose|k: int| 0 <= k < before.1.len() && before.1[k] == x;
                    if outcomes[n] is Absent && !before.1.contains(names[n]) {
                        assert(after.1[k] == x);
                    }
                } else {
                    assert(outcomes[n] is Absent);
                    if !before.1.contains(names[n]) {
                        assert(after.1 == before.1.push(names[n]));
                        assert(after.1[before.1.len() as int] == x);
                    }
                }
                assert(after.1.contains(x));
            }
            if after.1.contains(x) {
                if before.1.contains(x) {
                    let i = choose|i: int| 0 <= i < pn.len() && pn[i] == x && po[i] is Absent;
                    assert(names[i] == x && outcomes[i] is Absent);
                } else {
                    assert(outcomes[n] is Absent);
                    assert(after.1 == before.1.push(names[n]));
                    assert(x == names[n]);
                }
            }
        }
        assert forall|x: Seq<char>, l: LinkState|
            after.0.contains((x, l)) <==> looked_up(
                names,
                outcomes,
                x,
                |o: LookupOutcome| o == LookupOutcome::Found(l),
            ) by {
            if looked_up(names, outcomes, x, |o: LookupOutcome| o == LookupOutcome::Found(l)) {
                let i = choose|i: int|
                    0 <= i < names.len() && names[i] == x && outcomes[i] == LookupOutcome::Found(l);
                if i < n {
                    assert(pn[i] == x && po[i] == LookupOutcome::Found(l));
                    assert(before.0.contains((x, l)));
                    let k = choose|k: int| 0 <= k < before.0.len() && before.0[k] == (x, l);
                    if outcomes[n] is Found {
                        assert(after.0[k] == (x, l));
                    }
                } else {
                    assert(after.0[before.0.len() as int] == (x, l));
                }
            }
            if after.0.contains((x, l)) {
                let k = choose|k: int| 0 <= k < after.0.len() && after.0[k] == (x, l);
                if k < before.0.len() {
                    if outcomes[n] is Found {
                        assert(before.0[k] == (x, l));
                    }
                    assert(before.0.contains((x, l)));
                    let i = choose|i: int|
                        0 <= i < pn.len() && pn[i] == x && po[i] == LookupOutcome::Found(l);
                    assert(names[i] == x && outcomes[i] == LookupOutcome::Found(l));
                } else {
                    assert(outcomes[n] == LookupOutcome::Found(l));
                }
            }
        }
    }
}

/// With distinct configured names, an interface that a round found missing
/// is never attached to a bridge in that round: the links known after the
/// round do not include it.
pub proof fn lemma_missing_member_not_attached(
    config: NetworkConfiguration,
    outcomes: Seq<LookupOutcome>,
    found: Seq<(String, LinkState)>,
    bridge: Seq<char>,
    x: Seq<char>,
)
    requires
        config.wf(),
        outcomes.len() == config.interfaces@.len(),
        found_view(found) == round(configured_names(config), outcomes).0,
        round(configured_names(config), outcomes).1.contains(x),
    ensures
        link_named(found, x) is None,
        join_action(found, bridge, x) is None,
{
    let names = configured_names(config);
    assert forall|i: int, j: int| 0 <= i < names.len() && 0 <= j < names.len() && i != j implies names[i] != names[j] by {
        assert(names[i] == config.interfaces@[i].0@);
        assert(names[j] == config.interfaces@[j].0@);
    }
    lemma_round(names, outcomes);
    let i = choose|i: int| 0 <= i < names.len() && names[i] == x && outcomes[i] is Absent;
    assert forall|k: int| 0 <= k < found.len() implies !(#[trigger] named::<LinkState>(x)(found[k])) by {
        if found[k].0@ == x {
            let l = found[k].1;
            assert(found_view(found)[k] == (x, l));
            assert(round(names, outcomes).0.contains((x, l)));
            let j = choose|j: int| 0 <= j < names.len() && names[j] == x && outcomes[j] == LookupOutcome::Found(l);
        }
    }
    lemma_first_match_none(found, named::<LinkState>(x));
}

/// The change that `ensure_oper_state` requests brings the link to the
/// configured operational state, and no change is requested for a link that
/// is there already.
pub proof fn lemma_oper_state_reached(desired: ConfigOperState, link: LinkState)
    ensures
        up_after(link, oper_state_change(desired, link)) == (desired == ConfigOperState::Up),
        (link.up == (desired == ConfigOperState::Up)) ==> oper_state_change(desired, link) is None,
{
}

/// A bridge port is requested only for known links: the master is the index
/// of the link named after the bridge, which must be a bridge link (family
/// `AF_BRIDGE`, 7), and the port is the index of the link named after the
/// member. Without such a bridge link nothing is requested; with it and a
/// known member, the attachment is always requested.
pub proof fn lemma_join_only_known_bridge(
    interfaces: Seq<(String, LinkState)>,
    bridge: Seq<char>,
    member: Seq<char>,
)
    ensures
        AF_BRIDGE == 7,
        join_action(interfaces, bridge, member) matches Some((index, master)) ==> {
            &&& link_named(interfaces, bridge) matches Some(b)
            &&& b.family == AF_BRIDGE
            &&& master == b.index
            &&& link_named(interfaces, member) matches Some(m)
            &&& index == m.index
        },
        !(link_named(interfaces, bridge) matches Some(b) && b.family == AF_BRIDGE) ==> join_action(
            interfaces,
            bridge,
            member,
        ) is None,
        (link_named(interfaces, bridge) matches Some(b) && b.family == AF_BRIDGE) && link_named(
            interfaces,
            member,
        ) is Some ==> join_action(interfaces, bridge, member) is Some,
{
}

} // verus!
