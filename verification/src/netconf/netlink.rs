//! The attributes of netlink link messages that the network task reads and
//! writes, held as plain values.
//!
//! Attributes that the task does not look at are kept as `Other(token)`: the
//! token lets the caller put the original attribute back in its place.

use vstd::prelude::*;
use crate::search::{first_match, lemma_first_match, lemma_first_match_skip, lemma_first_match_at};
use rtnetlink::packet::traits::Parseable;

verus! {

/// Operational state of a link, as the kernel reports it.
#[derive(Debug, Clone, Copy, PartialEq, Eq, Structural)]
pub enum OperState {
    Unknown,
    NotPresent,
    Down,
    LowerLayerDown,
    Testing,
    Dormant,
    Up,
    Other(u8),
}

/// An option of a bridge.
#[derive(Debug, Clone, Copy, PartialEq, Eq, Structural)]
pub enum BridgeInfo {
    /// VLAN filtering, 1 when on and 0 when off.
    VlanFiltering(u8),
    Other(u32),
}

/// An item of a link's information attribute.
pub enum LinkInfo {
    /// The options of a bridge.
    BridgeData(Vec<BridgeInfo>),
    Other(u32),
}

/// An item of the IPv6 part of a link's per-family attribute.
pub enum Inet6Attr {
    /// The raw IPv6 device configuration.
    DevConf(Vec<u8>),
    Other(u32),
}

/// An item of a link's per-family attribute.
pub enum AfSpecInetAttr {
    Inet6(Vec<Inet6Attr>),
    Other(u32),
}

/// An attribute of a link message.
pub enum LinkAttr {
    IfName(String),
    OperState(OperState),
    AfSpecInet(Vec<AfSpecInetAttr>),
    PhysPortName(String),
    Info(Vec<LinkInfo>),
    Other(u32),
}

/// A link as the kernel describes it.
pub struct LinkMessage {
    /// Interface index.
    pub index: u32,
    /// Address family of the link (7 for a bridge).
    pub family: u8,
    pub attrs: Vec<LinkAttr>,
}

/// The attributes of a request that creates a link.
pub struct LinkAddRequest {
    pub attrs: Vec<LinkAttr>,
}

pub open spec fn is_oper_state() -> spec_fn(LinkAttr) -> bool {
    |a: LinkAttr| a is OperState
}

pub open spec fn is_if_name() -> spec_fn(LinkAttr) -> bool {
    |a: LinkAttr| a is IfName
}

pub open spec fn is_phys_port_name() -> spec_fn(LinkAttr) -> bool {
    |a: LinkAttr| a is PhysPortName
}

pub open spec fn is_af_spec_inet() -> spec_fn(LinkAttr) -> bool {
    |a: LinkAttr| a is AfSpecInet
}

pub open spec fn is_info() -> spec_fn(LinkAttr) -> bool {
    |a: LinkAttr| a is Info
}

pub open spec fn is_inet6() -> spec_fn(AfSpecInetAttr) -> bool {
    |a: AfSpecInetAttr| a is Inet6
}

pub open spec fn is_dev_conf() -> spec_fn(Inet6Attr) -> bool {
    |a: Inet6Attr| a is DevConf
}

pub open spec fn is_bridge_data() -> spec_fn(LinkInfo) -> bool {
    |a: LinkInfo| a is BridgeData
}

pub open spec fn is_vlan_filtering() -> spec_fn(BridgeInfo) -> bool {
    |a: BridgeInfo| a is VlanFiltering
}

/// The operational state that the first such attribute gives.
pub open spec fn oper_state_of(attrs: Seq<LinkAttr>) -> Option<OperState> {
    let k = first_match(attrs, is_oper_state(), 0);
    if k < attrs.len() {
        Some(attrs[k]->OperState_0)
    } else {
        None
    }
}

/// The interface name that the first such attribute gives.
pub open spec fn if_name_of(attrs: Seq<LinkAttr>) -> Option<Seq<char>> {
    let k = first_match(attrs, is_if_name(), 0);
    if k < attrs.len() {
        Some(attrs[k]->IfName_0@)
    } else {
        None
    }
}

/// The physical port name that the first such attribute gives.
pub open spec fn phys_port_name_of(attrs: Seq<LinkAttr>) -> Option<Seq<char>> {
    let k = first_match(attrs, is_phys_port_name(), 0);
    if k < attrs.len() {
        Some(attrs[k]->PhysPortName_0@)
    } else {
        None
    }
}

/// The raw IPv6 device configuration: the first one in the first IPv6 part
/// of the first per-family attribute.
pub open spec fn dev_conf_of(attrs: Seq<LinkAttr>) -> Option<Seq<u8>> {
    let a = first_match(attrs, is_af_spec_inet(), 0);
    if a >= attrs.len() {
        None
    } else {
        let l = attrs[a]->AfSpecInet_0@;
        let b = first_match(l, is_inet6(), 0);
        if b >= l.len() {
            None
        } else {
            let m = l[b]->Inet6_0@;
            let c = first_match(m, is_dev_conf(), 0);
            if c >= m.len() {
                None
            } else {
                Some(m[c]->DevConf_0@)
            }
        }
    }
}

/// Size of the IPv6 device configuration that the kernel sends.
pub const INET6_DEV_CONF_LEN: usize = 204;

/// The unsigned value of four bytes, the least significant first.
pub open spec fn u32_le(b: Seq<u8>) -> int {
    b[0] + 0x100 * b[1] + 0x1_0000 * b[2] + 0x100_0000 * b[3]
}

/// The unsigned value of four bytes, the most significant first.
pub open spec fn u32_be(b: Seq<u8>) -> int {
    b[3] + 0x100 * b[2] + 0x1_0000 * b[1] + 0x100_0000 * b[0]
}

/// The two's complement reading of a 32-bit unsigned value.
pub open spec fn as_i32(u: int) -> int {
    if u >= 0x8000_0000 { u - 0x1_0000_0000 } else { u }
}

/// The signed 32-bit integer that four bytes hold, the least significant first.
pub open spec fn i32_le(b: Seq<u8>) -> int {
    as_i32(u32_le(b))
}

/// The signed 32-bit integer that four bytes hold, the most significant first.
pub open spec fn i32_be(b: Seq<u8>) -> int {
    as_i32(u32_be(b))
}

/// Reads the `accept_ra` field of a raw IPv6 device configuration with
/// `netlink_packet_route`'s `Inet6DevConfBuffer::new_checked`, which refuses
/// fewer than 204 bytes, and `Inet6DevConf::parse`, which then always
/// succeeds. The field is the signed 32-bit integer at bytes 12 to 16, read
/// with `byteorder`'s `NativeEndian`, which is little-endian or big-endian
/// after the machine: the contract says that the value is one of those two
/// readings and leaves open which.
#[verifier::external_body]
fn parse_accept_ra(dev_conf: &[u8]) -> (r: Option<i32>)
    ensures
        r is Some <==> dev_conf@.len() >= INET6_DEV_CONF_LEN,
        r matches Some(v) ==> (v == i32_le(dev_conf@.subrange(12, 16)) || v == i32_be(
            dev_conf@.subrange(12, 16),
        )),
{
    let buffer = rtnetlink::packet::nlas::link::Inet6DevConfBuffer::new_checked(dev_conf).ok()?;
    let conf = rtnetlink::packet::nlas::link::Inet6DevConf::parse(&buffer).ok()?;
    Some(conf.accept_ra)
}

pub(crate) fn find_oper_state(attrs: &Vec<LinkAttr>) -> (r: Option<OperState>)
    ensures
        r == oper_state_of(attrs@),
{
    let mut i: usize = 0;
    while i < attrs.len()
        invariant
            i <= attrs@.len(),
            forall|j: int| 0 <= j < i ==> !(#[trigger] attrs@[j] is OperState),
        decreases attrs@.len() - i,
    {
        if let LinkAttr::OperState(s) = &attrs[i] {
            proof {
                lemma_first_match_skip(attrs@, is_oper_state(), i as int);
            }
            return Some(*s);
        }
        i = i + 1;
    }
    proof {
        lemma_first_match_skip(attrs@, is_oper_state(), i as int);
    }
    None
}

pub(crate) fn find_if_name(attrs: &Vec<LinkAttr>) -> (r: Option<&String>)
    ensures
        match r {
            Some(n) => if_name_of(attrs@) == Some(n@),
            None => if_name_of(attrs@) is None,
        },
{
    let mut i: usize = 0;
    while i < attrs.len()
        invariant
            i <= attrs@.len(),
            forall|j: int| 0 <= j < i ==> !(#[trigger] attrs@[j] is IfName),
        decreases attrs@.len() - i,
    {
        if let LinkAttr::IfName(n) = &attrs[i] {
            proof {
                lemma_first_match_skip(attrs@, is_if_name(), i as int);
            }
            return Some(n);
        }
        i = i + 1;
    }
    proof {
        lemma_first_match_skip(attrs@, is_if_name(), i as int);
    }
    None
}

pub(crate) fn find_phys_port_name(attrs: &Vec<LinkAttr>) -> (r: Option<&String>)
    ensures
        match r {
            Some(n) => phys_port_name_of(attrs@) == Some(n@),
            None => phys_port_name_of(attrs@) is None,
        },
{
    let mut i: usize = 0;
    while i < attrs.len()
        invariant
            i <= attrs@.len(),
            forall|j: int| 0 <= j < i ==> !(#[trigger] attrs@[j] is PhysPortName),
        decreases attrs@.len() - i,
    {
        if let LinkAttr::PhysPortName(n) = &attrs[i] {
            proof {
                lemma_first_match_skip(attrs@, is_phys_port_name(), i as int);
            }
            return Some(n);
        }
        i = i + 1;
    }
    proof {
        lemma_first_match_skip(attrs@, is_phys_port_name(), i as int);
    }
    None
}

fn find_af_spec_inet(attrs: &Vec<LinkAttr>) -> (r: Option<&Vec<AfSpecInetAttr>>)
    ensures
        ({
            let k = first_match(attrs@, is_af_spec_inet(), 0);
            match r {
                Some(l) => k < attrs@.len() && attrs@[k]->AfSpecInet_0 == *l,
                None => k >= attrs@.len(),
            }
        }),
{
    let mut i: usize = 0;
    while i < attrs.len()
        invariant
            i <= attrs@.len(),
            forall|j: int| 0 <= j < i ==> !(#[trigger] attrs@[j] is AfSpecInet),
        decreases attrs@.len() - i,
    {
        if let LinkAttr::AfSpecInet(l) = &attrs[i] {
            proof {
                lemma_first_match_skip(attrs@, is_af_spec_inet(), i as int);
            }
            return Some(l);
        }
        i = i + 1;
    }
    proof {
        lemma_first_match_skip(attrs@, is_af_spec_inet(), i as int);
    }
    None
}

fn find_inet6(items: &Vec<AfSpecInetAttr>) -> (r: Option<&Vec<Inet6Attr>>)
    ensures
        ({
            let k = first_match(items@, is_inet6(), 0);
            match r {
                Some(l) => k < items@.len() && items@[k]->Inet6_0 == *l,
                None => k >= items@.len(),
            }
        }),
{
    let mut i: usize = 0;
    while i < items.len()
        invariant
            i <= items@.len(),
            forall|j: int| 0 <= j < i ==> !(#[trigger] items@[j] is Inet6),
        decreases items@.len() - i,
    {
        if let AfSpecInetAttr::Inet6(l) = &items[i] {
            proof {
                lemma_first_match_skip(items@, is_inet6(), i as int);
            }
            return Some(l);
        }
        i = i + 1;
    }
    proof {
        lemma_first_match_skip(items@, is_inet6(), i as int);
    }
    None
}

fn find_dev_conf(items: &Vec<Inet6Attr>) -> (r: Option<&Vec<u8>>)
    ensures
        ({
            let k = first_match(items@, is_dev_conf(), 0);
            match r {
                Some(b) => k < items@.len() && items@[k]->DevConf_0 == *b,
                None => k >= items@.len(),
            }
        }),
{
    let mut i: usize = 0;
    while i < items.len()
        invariant
            i <= items@.len(),
            forall|j: int| 0 <= j < i ==> !(#[trigger] items@[j] is DevConf),
        decreases items@.len() - i,
    {
        if let Inet6Attr::DevConf(b) = &items[i] {
            proof {
                lemma_first_match_skip(items@, is_dev_conf(), i as int);
            }
            return Some(b);
        }
        i = i + 1;
    }
    proof {
        lemma_first_match_skip(items@, is_dev_conf(), i as int);
    }
    None
}

/// Reading a link message.
pub trait LinkExt {
    spec fn link_attrs(&self) -> Seq<LinkAttr>;

    /// The operational state, if the message gives one.
    fn get_oper_state(&self) -> (r: Option<OperState>)
        ensures
            r == oper_state_of(self.link_attrs()),
    ;

    /// The per-family attribute, if the message has one.
    fn get_af_spec_inet(&self) -> (r: Option<&Vec<AfSpecInetAttr>>)
        ensures
            ({
                let a = self.link_attrs();
                let k = first_match(a, is_af_spec_inet(), 0);
                match r {
                    Some(l) => k < a.len() && a[k]->AfSpecInet_0 == *l,
                    None => k >= a.len(),
                }
            }),
    ;

    /// Whether the link is operationally up.
    fn is_link_up(&self) -> (b: bool)
        ensures
            b == (oper_state_of(self.link_attrs()) == Some(OperState::Up)),
    ;

    /// The interface name, if the message gives one.
    fn name(&self) -> (r: Option<&str>)
        ensures
            match r {
                Some(n) => if_name_of(self.link_attrs()) == Some(n@),
                None => if_name_of(self.link_attrs()) is None,
            },
    ;

    /// Whether the link accepts IPv6 router advertisements: absent when the
    /// message carries no IPv6 device configuration or a short one, else
    /// whether its `accept_ra` field, read in the machine's byte order, is
    /// positive.
    fn accept_ra(&self) -> (r: Option<bool>)
        ensures
            match dev_conf_of(self.link_attrs()) {
                None => r is None,
                Some(conf) => {
                    &&& (r is Some <==> conf.len() >= INET6_DEV_CONF_LEN)
                    &&& (conf.len() >= INET6_DEV_CONF_LEN ==> (r == Some(i32_le(conf.subrange(12, 16)) > 0)
                        || r == Some(i32_be(conf.subrange(12, 16)) > 0)))
                },
            },
    ;
}

impl LinkExt for LinkMessage {
    open spec fn link_attrs(&self) -> Seq<LinkAttr> {
        self.attrs@
    }

    fn get_oper_state(&self) -> (r: Option<OperState>) {
        find_oper_state(&self.attrs)
    }

    fn get_af_spec_inet(&self) -> (r: Option<&Vec<AfSpecInetAttr>>) {
        find_af_spec_inet(&self.attrs)
    }

    fn is_link_up(&self) -> (b: bool) {
        match self.get_oper_state() {
            Some(OperState::Up) => true,
            _ => false,
        }
    }

    fn name(&self) -> (r: Option<&str>) {
        match find_if_name(&self.attrs) {
            Some(n) => Some(n.as_str()),
            None => None,
        }
    }

    fn accept_ra(&self) -> (r: Option<bool>) {
        let af_spec_inet = self.get_af_spec_inet()?;
        let inet6 = find_inet6(af_spec_inet)?;
        let dev_conf = find_dev_conf(inet6)?;
        let accept_ra = parse_accept_ra(dev_conf.as_slice())?;
        Some(accepts_router_advertisements(accept_ra))
    }
}

/// Whether an `accept_ra` value lets the link accept router advertisements:
/// any positive value does.
pub fn accepts_router_advertisements(accept_ra: i32) -> (b: bool)
    ensures
        b == (accept_ra > 0),
{
    accept_ra > 0
}

/// The VLAN filtering option for `on`.
pub open spec fn vlan_option(on: bool) -> BridgeInfo {
    BridgeInfo::VlanFiltering(if on { 1 } else { 0 })
}

/// Bridge options with `x` in place of the first VLAN filtering option, or
/// appended when there is none.
pub open spec fn opts_with_vlan(old: Seq<BridgeInfo>, x: BridgeInfo) -> Seq<BridgeInfo> {
    let k = first_match(old, is_vlan_filtering(), 0);
    if k < old.len() {
        old.update(k, x)
    } else {
        old.push(x)
    }
}

/// `new` is `old` with `x` set in the first bridge data item, or with bridge
/// data holding only `x` appended when there is none.
pub open spec fn infos_with_vlan(old: Seq<LinkInfo>, new: Seq<LinkInfo>, x: BridgeInfo) -> bool {
    let k = first_match(old, is_bridge_data(), 0);
    if k < old.len() {
        &&& new.len() == old.len()
        &&& forall|j: int| 0 <= j < old.len() && j != k ==> new[j] == old[j]
        &&& new[k] is BridgeData
        &&& new[k]->BridgeData_0@ == opts_with_vlan(old[k]->BridgeData_0@, x)
    } else {
        &&& new.len() == old.len() + 1
        &&& forall|j: int| 0 <= j < old.len() ==> new[j] == old[j]
        &&& new[old.len() as int] is BridgeData
        &&& new[old.len() as int]->BridgeData_0@ == seq![x]
    }
}

/// `new` is `old` with `x` set in the first information attribute, or with
/// an information attribute holding only bridge data with `x` appended when
/// there is none.
pub open spec fn attrs_with_vlan(old: Seq<LinkAttr>, new: Seq<LinkAttr>, x: BridgeInfo) -> bool {
    let k = first_match(old, is_info(), 0);
    if k < old.len() {
        &&& new.len() == old.len()
        &&& forall|j: int| 0 <= j < old.len() && j != k ==> new[j] == old[j]
        &&& new[k] is Info
        &&& infos_with_vlan(old[k]->Info_0@, new[k]->Info_0@, x)
    } else {
        &&& new.len() == old.len() + 1
        &&& forall|j: int| 0 <= j < old.len() ==> new[j] == old[j]
        &&& new[old.len() as int] is Info
        &&& infos_with_vlan(Seq::empty(), new[old.len() as int]->Info_0@, x)
    }
}

/// The VLAN filtering option that the kernel will see: the first one of the
/// first bridge data of the first information attribute.
pub open spec fn vlan_setting(attrs: Seq<LinkAttr>) -> Option<BridgeInfo> {
    let a = first_match(attrs, is_info(), 0);
    if a >= attrs.len() {
        None
    } else {
        let infos = attrs[a]->Info_0@;
        let b = first_match(infos, is_bridge_data(), 0);
        if b >= infos.len() {
            None
        } else {
            let opts = infos[b]->BridgeData_0@;
            let c = first_match(opts, is_vlan_filtering(), 0);
            if c >= opts.len() {
                None
            } else {
                Some(opts[c])
            }
        }
    }
}

/// Index of the first information attribute.
pub fn info_nlas(attrs: &Vec<LinkAttr>) -> (r: Option<usize>)
    ensures
        ({
            let k = first_match(attrs@, is_info(), 0);
            match r {
                Some(i) => i == k && k < attrs@.len(),
                None => k >= attrs@.len(),
            }
        }),
{
    let mut i: usize = 0;
    while i < attrs.len()
        invariant
            i <= attrs@.len(),
            forall|j: int| 0 <= j < i ==> !(#[trigger] attrs@[j] is Info),
        decreases attrs@.len() - i,
    {
        if let LinkAttr::Info(_) = &attrs[i] {
            proof {
                lemma_first_match_skip(attrs@, is_info(), i as int);
            }
            return Some(i);
        }
        i = i + 1;
    }
    proof {
        lemma_first_match_skip(attrs@, is_info(), i as int);
    }
    None
}

/// Index of the first bridge data item.
pub fn info_data_bridge(infos: &Vec<LinkInfo>) -> (r: Option<usize>)
    ensures
        ({
            let k = first_match(infos@, is_bridge_data(), 0);
            match r {
                Some(i) => i == k && k < infos@.len(),
                None => k >= infos@.len(),
            }
        }),
{
    let mut i: usize = 0;
    while i < infos.len()
        invariant
            i <= infos@.len(),
            forall|j: int| 0 <= j < i ==> !(#[trigger] infos@[j] is BridgeData),
        decreases infos@.len() - i,
    {
        if let LinkInfo::BridgeData(_) = &infos[i] {
            proof {
                lemma_first_match_skip(infos@, is_bridge_data(), i as int);
            }
            return Some(i);
        }
        i = i + 1;
    }
    proof {
        lemma_first_match_skip(infos@, is_bridge_data(), i as int);
    }
    None
}

/// Index of the first VLAN filtering option.
pub fn info_bridge_vlan_filtering(opts: &Vec<BridgeInfo>) -> (r: Option<usize>)
    ensures
        ({
            let k = first_match(opts@, is_vlan_filtering(), 0);
            match r {
                Some(i) => i == k && k < opts@.len(),
                None => k >= opts@.len(),
            }
        }),
{
    let mut i: usize = 0;
    while i < opts.len()
        invariant
            i <= opts@.len(),
            forall|j: int| 0 <= j < i ==> !(#[trigger] opts@[j] is VlanFiltering),
        decreases opts@.len() - i,
    {
        if let BridgeInfo::VlanFiltering(_) = opts[i] {
            proof {
                lemma_first_match_skip(opts@, is_vlan_filtering(), i as int);
            }
            return Some(i);
        }
        i = i + 1;
    }
    proof {
        lemma_first_match_skip(opts@, is_vlan_filtering(), i as int);
    }
    None
}

/// Building a request that creates a link.
pub trait LinkAddExt: Sized {
    spec fn added_attrs(&self) -> Seq<LinkAttr>;

    /// Sets the VLAN filtering of the bridge being created: the existing
    /// option is replaced, or one is added where the bridge's options go.
    fn vlan_filtering(self, vlan_filtering: bool) -> (r: Self)
        ensures
            attrs_with_vlan(self.added_attrs(), r.added_attrs(), vlan_option(vlan_filtering)),
    ;
}

impl LinkAddExt for LinkAddRequest {
    open spec fn added_attrs(&self) -> Seq<LinkAttr> {
        self.attrs@
    }

    fn vlan_filtering(self, vlan_filtering: bool) -> (r: Self) {
        let x = BridgeInfo::VlanFiltering(if vlan_filtering { 1 } else { 0 });
        let mut attrs = self.attrs;
        let ghost old_attrs = attrs@;
        match info_nlas(&attrs) {
            Some(k) => {
                proof {
                    lemma_first_match(old_attrs, is_info(), 0);
                }
                let a = attrs.remove(k);
                if let LinkAttr::Info(mut infos) = a {
                    let ghost old_infos = infos@;
                    match info_data_bridge(&infos) {
                        Some(b) => {
                            proof {
                                lemma_first_match(old_infos, is_bridge_data(), 0);
                            }
                            let d = infos.remove(b);
                            if let LinkInfo::BridgeData(mut opts) = d {
                                match info_bridge_vlan_filtering(&opts) {
                                    Some(v) => opts.set(v, x),
                                    None => opts.push(x),
                                }
                                infos.insert(b, LinkInfo::BridgeData(opts));
                            } else {
                                infos.insert(b, d);
                            }
                            proof {
                                assert(infos@ =~= old_infos.update(b as int, infos@[b as int]));
                            }
                        },
                        None => {
                            let mut opts: Vec<BridgeInfo> = Vec::new();
                            opts.push(x);
                            infos.push(LinkInfo::BridgeData(opts));
                            proof {
                                assert(opts@ =~= seq![x]);
                            }
                        },
                    }
                    attrs.insert(k, LinkAttr::Info(infos));
                } else {
                    attrs.insert(k, a);
                }
                proof {
                    assert(attrs@ =~= old_attrs.update(k as int, attrs@[k as int]));
                }
            },
            None => {
                let mut opts: Vec<BridgeInfo> = Vec::new();
                opts.push(x);
                let mut infos: Vec<LinkInfo> = Vec::new();
                infos.push(LinkInfo::BridgeData(opts));
                attrs.push(LinkAttr::Info(infos));
                proof {
                    assert(opts@ =~= seq![x]);
                    assert(first_match(Seq::<LinkInfo>::empty(), is_bridge_data(), 0) == 0);
                }
            },
        }
        LinkAddRequest { attrs }
    }
}

/// The first match of `new` is at `k` when `new` agrees with `old` before
/// `k`, `old` has no match there, and `new` matches at `k`.
proof fn lemma_first_match_kept<A>(old: Seq<A>, new: Seq<A>, p: spec_fn(A) -> bool, k: int)
    requires
        0 <= k < new.len(),
        k <= old.len(),
        forall|j: int| 0 <= j < k ==> new[j] == old[j],
        forall|j: int| 0 <= j < k ==> !p(#[trigger] old[j]),
        p(new[k]),
    ensures
        first_match(new, p, 0) == k,
{
    assert forall|j: int| 0 <= j < k implies !p(#[trigger] new[j]) by {
        assert(new[j] == old[j]);
    }
    lemma_first_match_at(new, p, k);
}

/// Bridge options updated with `x` have `x` as their first VLAN option.
proof fn lemma_opts_read_back(old: Seq<BridgeInfo>, x: BridgeInfo)
    requires
        x is VlanFiltering,
    ensures
        ({
            let n = opts_with_vlan(old, x);
            let c = first_match(n, is_vlan_filtering(), 0);
            c < n.len() && n[c] == x
        }),
{
    lemma_first_match(old, is_vlan_filtering(), 0);
    let k = first_match(old, is_vlan_filtering(), 0);
    let n = opts_with_vlan(old, x);
    lemma_first_match_kept(old, n, is_vlan_filtering(), k);
}

/// Link information updated with `x` reads back `x`.
proof fn lemma_infos_read_back(old: Seq<LinkInfo>, new: Seq<LinkInfo>, x: BridgeInfo)
    requires
        x is VlanFiltering,
        infos_with_vlan(old, new, x),
    ensures
        ({
            let b = first_match(new, is_bridge_data(), 0);
            &&& b < new.len()
            &&& ({
                let opts = new[b]->BridgeData_0@;
                let c = first_match(opts, is_vlan_filtering(), 0);
                c < opts.len() && opts[c] == x
            })
        }),
{
    lemma_first_match(old, is_bridge_data(), 0);
    let k = first_match(old, is_bridge_data(), 0);
    lemma_first_match_kept(old, new, is_bridge_data(), k);
    if k < old.len() {
        lemma_opts_read_back(old[k]->BridgeData_0@, x);
    } else {
        let opts = new[k]->BridgeData_0@;
        assert(opts[0] == x);
        lemma_first_match_at(opts, is_vlan_filtering(), 0);
    }
}

/// Setting VLAN filtering is what the kernel then sees: the option that
/// counts is the one just set.
pub proof fn lemma_vlan_filtering_read_back(old: Seq<LinkAttr>, new: Seq<LinkAttr>, on: bool)
    requires
        attrs_with_vlan(old, new, vlan_option(on)),
    ensures
        vlan_setting(new) == Some(vlan_option(on)),
{
    let x = vlan_option(on);
    lemma_first_match(old, is_info(), 0);
    let k = first_match(old, is_info(), 0);
    lemma_first_match_kept(old, new, is_info(), k);
    if k < old.len() {
        lemma_infos_read_back(old[k]->Info_0@, new[k]->Info_0@, x);
    } else {
        lemma_infos_read_back(Seq::empty(), new[k]->Info_0@, x);
    }
}

/// Once VLAN filtering is set, setting it again replaces the option in
/// place: the request keeps its number of attributes.
pub proof fn lemma_vlan_filtering_replaces(
    a: Seq<LinkAttr>,
    b: Seq<LinkAttr>,
    c: Seq<LinkAttr>,
    first: bool,
    second: bool,
)
    requires
        attrs_with_vlan(a, b, vlan_option(first)),
        attrs_with_vlan(b, c, vlan_option(second)),
    ensures
        c.len() == b.len(),
        vlan_setting(c) == Some(vlan_option(second)),
{
    lemma_vlan_filtering_read_back(a, b, first);
    lemma_vlan_filtering_read_back(b, c, second);
}


/// Two link information items hold the same value: bridge data with the same
/// options, or equal items.
pub open spec fn same_link_info(a: LinkInfo, b: LinkInfo) -> bool {
    match (a, b) {
        (LinkInfo::BridgeData(x), LinkInfo::BridgeData(y)) => x@ == y@,
        _ => a == b,
    }
}

/// Two sequences of link information items hold the same values, item by item.
pub open spec fn same_link_infos(a: Seq<LinkInfo>, b: Seq<LinkInfo>) -> bool {
    &&& a.len() == b.len()
    &&& forall|i: int| 0 <= i < a.len() ==> #[trigger] same_link_info(a[i], b[i])
}

/// Two link attributes hold the same value: information attributes with the
/// same items, or equal attributes.
pub open spec fn same_link_attr(a: LinkAttr, b: LinkAttr) -> bool {
    match (a, b) {
        (LinkAttr::Info(x), LinkAttr::Info(y)) => same_link_infos(x@, y@),
        _ => a == b,
    }
}

/// Two sequences of link attributes hold the same values, attribute by
/// attribute: the requests that carry them send the same message.
pub open spec fn same_link_attrs(a: Seq<LinkAttr>, b: Seq<LinkAttr>) -> bool {
    &&& a.len() == b.len()
    &&& forall|i: int| 0 <= i < a.len() ==> #[trigger] same_link_attr(a[i], b[i])
}

/// Setting a VLAN option over bridge options that already had one set gives
/// the options that setting it once gives.
proof fn lemma_opts_last_wins(o: Seq<BridgeInfo>, x: BridgeInfo, y: BridgeInfo)
    requires
        x is VlanFiltering,
    ensures
        opts_with_vlan(opts_with_vlan(o, x), y) == opts_with_vlan(o, y),
{
    lemma_first_match(o, is_vlan_filtering(), 0);
    let k = first_match(o, is_vlan_filtering(), 0);
    let n = opts_with_vlan(o, x);
    lemma_first_match_kept(o, n, is_vlan_filtering(), k);
    if k < o.len() {
        assert(n.update(k, y) =~= o.update(k, y));
    } else {
        assert(n.update(k, y) =~= o.push(y));
    }
}

/// The link information level of the VLAN law.
proof fn lemma_infos_last_wins(
    a: Seq<LinkInfo>,
    b: Seq<LinkInfo>,
    c: Seq<LinkInfo>,
    d: Seq<LinkInfo>,
    x: BridgeInfo,
    y: BridgeInfo,
)
    requires
        x is VlanFiltering,
        infos_with_vlan(a, b, x),
        infos_with_vlan(b, c, y),
        infos_with_vlan(a, d, y),
    ensures
        same_link_infos(c, d),
{
    lemma_first_match(a, is_bridge_data(), 0);
    let m = first_match(a, is_bridge_data(), 0);
    lemma_first_match_kept(a, b, is_bridge_data(), m);
    if m < a.len() {
        lemma_opts_last_wins(a[m]->BridgeData_0@, x, y);
    } else {
        assert(opts_with_vlan(seq![x], y) =~= seq![y]) by {
            lemma_first_match_at(seq![x], is_vlan_filtering(), 0);
        }
    }
    assert forall|i: int| 0 <= i < c.len() implies #[trigger] same_link_info(c[i], d[i]) by {
        if i != m {
            assert(c[i] == b[i]);
            assert(d[i] == a[i]);
        }
    }
}

/// Setting VLAN filtering twice sends the message that setting it once, to
/// the second value, sends: the last setting wins and no second option is
/// added. In particular, setting the same value twice is setting it once.
pub proof fn lemma_vlan_filtering_last_wins(
    a: Seq<LinkAttr>,
    b: Seq<LinkAttr>,
    c: Seq<LinkAttr>,
    d: Seq<LinkAttr>,
    first: bool,
    second: bool,
)
    requires
        attrs_with_vlan(a, b, vlan_option(first)),
        attrs_with_vlan(b, c, vlan_option(second)),
        attrs_with_vlan(a, d, vlan_option(second)),
    ensures
        same_link_attrs(c, d),
{
    let x = vlan_option(first);
    let y = vlan_option(second);
    lemma_first_match(a, is_info(), 0);
    let k = first_match(a, is_info(), 0);
    lemma_first_match_kept(a, b, is_info(), k);
    if k < a.len() {
        lemma_infos_last_wins(a[k]->Info_0@, b[k]->Info_0@, c[k]->Info_0@, d[k]->Info_0@, x, y);
    } else {
        lemma_infos_last_wins(Seq::empty(), b[k]->Info_0@, c[k]->Info_0@, d[k]->Info_0@, x, y);
    }
    assert forall|i: int| 0 <= i < c.len() implies #[trigger] same_link_attr(c[i], d[i]) by {
        if i != k {
            assert(c[i] == b[i]);
            assert(d[i] == a[i]);
        }
    }
}

} // verus!
