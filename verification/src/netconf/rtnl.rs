//! Talking to the kernel's routing netlink directly: reading the replies to
//! a dump request and turning link replies into interface descriptions.
//!
//! Sending, receiving and decoding single messages is the caller's part;
//! this module decides how a receive buffer is walked and what the replies
//! mean.

use vstd::prelude::*;
use crate::initd::util::AutoCloseFD;
use crate::netconf::task::{POLLIN, RestartStrategy};
use crate::netconf::netlink::{
    LinkMessage, OperState, find_if_name, find_oper_state, find_phys_port_name, if_name_of,
    oper_state_of, phys_port_name_of,
};

verus! {

#[verifier::external_type_specification]
#[verifier::external_body]
pub struct ExDecodeError(rtnetlink::packet::DecodeError);

/// What can go wrong when talking to the kernel.
#[derive(Debug)]
pub enum NetlinkError {
    FailedToSendNetlinkRequest { error: std::io::Error },
    FailedTOReadFromNetlinkSocket { error: std::io::Error },
    FailedToDeserialize { error: rtnetlink::packet::DecodeError },
    /// The kernel had more to say than fitted in its reply.
    ResponseOverrun,
    /// A link reply lacked a field that every link has.
    MissingNetlinkResponseField { field: &'static str },
}

/// Writes an `std::io::Error` as its `Debug` implementation does; nothing is
/// claimed of the text.
#[verifier::external_body]
fn io_error_debug(error: &std::io::Error) -> String {
    format!("{:?}", error)
}

/// Writes a `DecodeError` of `netlink_packet_utils` as its `Debug`
/// implementation does; nothing is claimed of the text.
#[verifier::external_body]
fn decode_error_debug(error: &rtnetlink::packet::DecodeError) -> String {
    format!("{:?}", error)
}

/// `prefix` followed by `rest`.
fn prefixed(prefix: &str, rest: String) -> (m: String)
    ensures
        prefix@.is_prefix_of(m@),
{
    let mut m = String::from_str(prefix);
    m.append(rest.as_str());
    assert(m@.subrange(0, prefix@.len() as int) =~= prefix@);
    m
}

impl NetlinkError {
    /// The text that the error reports.
    pub fn message(&self) -> (m: String)
        ensures
            match self {
                NetlinkError::FailedToSendNetlinkRequest { .. } =>
                    "Failed to send netlink request: "@.is_prefix_of(m@),
                NetlinkError::FailedTOReadFromNetlinkSocket { .. } =>
                    "Failed to read from netlink socket: "@.is_prefix_of(m@),
                NetlinkError::FailedToDeserialize { .. } =>
                    "Failed to deserialize netlink message: "@.is_prefix_of(m@),
                NetlinkError::ResponseOverrun => m@ == "Response didn't fit in the provided buffer"@,
                NetlinkError::MissingNetlinkResponseField { field } => m@ == "Missing field "@
                    + field@ + " from netlink response"@,
            },
    {
        match self {
            NetlinkError::FailedToSendNetlinkRequest { error } => prefixed(
                "Failed to send netlink request: ",
                io_error_debug(error),
            ),
            NetlinkError::FailedTOReadFromNetlinkSocket { error } => prefixed(
                "Failed to read from netlink socket: ",
                io_error_debug(error),
            ),
            NetlinkError::FailedToDeserialize { error } => prefixed(
                "Failed to deserialize netlink message: ",
                decode_error_debug(error),
            ),
            NetlinkError::ResponseOverrun => String::from_str(
                "Response didn't fit in the provided buffer",
            ),
            NetlinkError::MissingNetlinkResponseField { field } => {
                let mut m = String::from_str("Missing field ");
                m.append(field);
                m.append(" from netlink response");
                m
            },
        }
    }
}

/// An interface as the network task reports it.
#[derive(Debug)]
pub struct NetworkInterface {
    pub id: u32,
    pub name: String,
    pub oper_state: OperState,
    pub physical_port_name: Option<String>,
    pub physical_switch_name: Option<String>,
}

/// The plain values of an interface.
pub struct InterfaceView {
    pub id: u32,
    pub name: Seq<char>,
    pub oper_state: OperState,
    pub physical_port_name: Option<Seq<char>>,
    pub physical_switch_name: Option<Seq<char>>,
}

pub open spec fn opt_view(o: Option<String>) -> Option<Seq<char>> {
    match o {
        Some(s) => Some(s@),
        None => None,
    }
}

impl View for NetworkInterface {
    type V = InterfaceView;

    open spec fn view(&self) -> InterfaceView {
        InterfaceView {
            id: self.id,
            name: self.name@,
            oper_state: self.oper_state,
            physical_port_name: opt_view(self.physical_port_name),
            physical_switch_name: opt_view(self.physical_switch_name),
        }
    }
}

/// The interface that a link reply describes, or the name of the field it
/// lacks: a name and an operational state are required; the port name is
/// also reported as the switch name.
pub open spec fn interface_of(m: LinkMessage) -> Result<InterfaceView, Seq<char>> {
    match if_name_of(m.attrs@) {
        None => Err("name"@),
        Some(name) => match oper_state_of(m.attrs@) {
            None => Err("oper_state"@),
            Some(oper_state) => Ok(
                InterfaceView {
                    id: m.index,
                    name,
                    oper_state,
                    physical_port_name: phys_port_name_of(m.attrs@),
                    physical_switch_name: phys_port_name_of(m.attrs@),
                },
            ),
        },
    }
}

fn clone_opt(o: Option<&String>) -> (r: Option<String>)
    ensures
        opt_view(r) == (match o {
            Some(s) => Some(s@),
            None => None,
        }),
{
    match o {
        Some(s) => Some(s.clone()),
        None => None,
    }
}

/// The interface that a link reply describes.
pub fn interface_from_link(m: &LinkMessage) -> (r: Result<NetworkInterface, NetlinkError>)
    ensures
        match interface_of(*m) {
            Ok(v) => r matches Ok(i) && i@ == v,
            Err(f) => r matches Err(NetlinkError::MissingNetlinkResponseField { field }) && field@ == f,
        },
{
    let name = match find_if_name(&m.attrs) {
        Some(n) => n.clone(),
        None => return Err(NetlinkError::MissingNetlinkResponseField { field: "name" }),
    };
    let oper_state = match find_oper_state(&m.attrs) {
        Some(s) => s,
        None => return Err(NetlinkError::MissingNetlinkResponseField { field: "oper_state" }),
    };
    let physical_port_name = clone_opt(find_phys_port_name(&m.attrs));
    let physical_switch_name = clone_opt(find_phys_port_name(&m.attrs));
    Ok(NetworkInterface { id: m.index, name, oper_state, physical_port_name, physical_switch_name })
}

/// A reply to a link dump.
pub enum RtnlReply {
    /// A link.
    NewLink(LinkMessage),
    /// A routing message of another kind.
    OtherMessage,
    /// A control message.
    Control,
}

/// The interfaces that the first `n` replies describe, or the field that the
/// first incomplete link reply lacks.
pub open spec fn interfaces_upto(replies: Seq<RtnlReply>, n: int) -> Result<Seq<InterfaceView>, Seq<char>>
    decreases n,
{
    if n <= 0 {
        Ok(Seq::empty())
    } else {
        match interfaces_upto(replies, n - 1) {
            Err(f) => Err(f),
            Ok(v) => match replies[n - 1] {
                RtnlReply::NewLink(m) => match interface_of(m) {
                    Ok(i) => Ok(v.push(i)),
                    Err(f) => Err(f),
                },
                _ => Ok(v),
            },
        }
    }
}

/// The link messages among the first `n` replies, in order.
pub open spec fn links_upto(replies: Seq<RtnlReply>, n: int) -> Seq<LinkMessage>
    decreases n,
{
    if n <= 0 {
        Seq::empty()
    } else {
        match replies[n - 1] {
            RtnlReply::NewLink(m) => links_upto(replies, n - 1).push(m),
            _ => links_upto(replies, n - 1),
        }
    }
}

/// A link message that names its interface and gives its operational state.
pub open spec fn complete_link(m: LinkMessage) -> bool {
    if_name_of(m.attrs@) is Some && oper_state_of(m.attrs@) is Some
}

/// The replies of a dump describe one interface per link message, in order:
/// its id is the kernel's index of that link, its name, operational state
/// and port names are the message's. The answer is an error exactly when a
/// link message lacks its name or its operational state, and then it names
/// the field that the first such message lacks.
pub proof fn lemma_interfaces_from_links(replies: Seq<RtnlReply>, n: int)
    requires
        0 <= n <= replies.len(),
    ensures
        ({
            let links = links_upto(replies, n);
            match interfaces_upto(replies, n) {
                Ok(v) => {
                    &&& forall|j: int| 0 <= j < links.len() ==> complete_link(#[trigger] links[j])
                    &&& v.len() == links.len()
                    &&& forall|j: int|
                        0 <= j < v.len() ==> {
                            &&& (#[trigger] v[j]).id == links[j].index
                            &&& if_name_of(links[j].attrs@) == Some(v[j].name)
                            &&& oper_state_of(links[j].attrs@) == Some(v[j].oper_state)
                            &&& v[j].physical_port_name == phys_port_name_of(links[j].attrs@)
                            &&& v[j].physical_switch_name == phys_port_name_of(links[j].attrs@)
                        }
                },
                Err(f) => exists|j: int|
                    0 <= j < links.len() && !complete_link(#[trigger] links[j]) && (forall|k: int|
                        0 <= k < j ==> complete_link(#[trigger] links[k])) && f == (if if_name_of(
                        links[j].attrs@,
                    ) is None {
                        "name"@
                    } else {
                        "oper_state"@
                    }),
            }
        }),
    decreases n,
{
    if n > 0 {
        lemma_interfaces_from_links(replies, n - 1);
        let before = links_upto(replies, n - 1);
        let links = links_upto(replies, n);
        match interfaces_upto(replies, n - 1) {
            Ok(v) => {
                match replies[n - 1] {
                    RtnlReply::NewLink(m) => {
                        assert(links == before.push(m));
                        assert(links[before.len() as int] == m);
                        match interface_of(m) {
                            Ok(i) => {
                                let w = v.push(i);
                                assert(forall|j: int| 0 <= j < before.len() ==> links[j] == before[j]);
                                assert(w[v.len() as int] == i);
                                assert forall|j: int| 0 <= j < links.len() implies complete_link(
                                    #[trigger] links[j],
                                ) by {
                                    if j < before.len() {
                                        assert(links[j] == before[j]);
                                    }
                                }
                            },
                            Err(f) => {
                                let j = before.len() as int;
                                assert forall|k: int| 0 <= k < j implies complete_link(
                                    #[trigger] links[k],
                                ) by {
                                    assert(links[k] == before[k]);
                                }
                                assert(!complete_link(links[j]));
                            },
                        }
                    },
                    _ => {
                        assert(links == before);
                    },
                }
            },
            Err(f) => {
                let j = choose|j: int|
                    0 <= j < before.len() && !complete_link(#[trigger] before[j]) && (forall|k: int|
                        0 <= k < j ==> complete_link(#[trigger] before[k])) && f == (if if_name_of(
                        before[j].attrs@,
                    ) is None {
                        "name"@
                    } else {
                        "oper_state"@
                    });
                match replies[n - 1] {
                    RtnlReply::NewLink(m) => {
                        assert(links == before.push(m));
                        assert(links[j] == before[j]);
                        assert forall|k: int| 0 <= k < j implies complete_link(#[trigger] links[k]) by {
                            assert(links[k] == before[k]);
                        }
                    },
                    _ => {
                        assert(links == before);
                    },
                }
            },
        }
    }
}

/// Once a reply is found incomplete, the answer stays that error.
proof fn lemma_error_persists(replies: Seq<RtnlReply>, n: int, m: int)
    requires
        0 < n <= m,
        interfaces_upto(replies, n) is Err,
    ensures
        interfaces_upto(replies, m) == interfaces_upto(replies, n),
    decreases m - n,
{
    if m > n {
        lemma_error_persists(replies, n, m - 1);
    }
}

/// The interfaces that the replies to a link dump describe, in order; other
/// replies are skipped, and a link reply without a name or an operational
/// state makes the whole answer an error.
pub fn get_interfaces(replies: &Vec<RtnlReply>) -> (r: Result<Vec<NetworkInterface>, NetlinkError>)
    ensures
        match interfaces_upto(replies@, replies@.len() as int) {
            Ok(v) => r matches Ok(list) && list@.map_values(|i: NetworkInterface| i@) == v,
            Err(f) => r matches Err(NetlinkError::MissingNetlinkResponseField { field }) && field@ == f,
        },
        r is Ok <==> (forall|j: int|
            0 <= j < links_upto(replies@, replies@.len() as int).len() ==> complete_link(
                #[trigger] links_upto(replies@, replies@.len() as int)[j],
            )),
        r matches Ok(list) ==> {
            let links = links_upto(replies@, replies@.len() as int);
            &&& list@.len() == links.len()
            &&& forall|j: int|
                0 <= j < list@.len() ==> {
                    &&& (#[trigger] list@[j]).id == links[j].index
                    &&& if_name_of(links[j].attrs@) == Some(list@[j].name@)
                    &&& oper_state_of(links[j].attrs@) == Some(list@[j].oper_state)
                }
        },
{
    let mut list: Vec<NetworkInterface> = Vec::new();
    proof {
        assert(list@.map_values(|i: NetworkInterface| i@) =~= Seq::<InterfaceView>::empty());
    }
    let mut k: usize = 0;
    while k < replies.len()
        invariant
            k <= replies@.len(),
            interfaces_upto(replies@, k as int) == Ok::<Seq<InterfaceView>, Seq<char>>(
                list@.map_values(|i: NetworkInterface| i@),
            ),
        decreases replies@.len() - k,
    {
        if let RtnlReply::NewLink(m) = &replies[k] {
            let ghost before = list@;
            let i = match interface_from_link(m) {
                Ok(i) => i,
                Err(e) => {
                    proof {
                        lemma_error_persists(replies@, k + 1, replies@.len() as int);
                        lemma_interfaces_from_links(replies@, replies@.len() as int);
                    }
                    return Err(e);
                },
            };
            list.push(i);
            proof {
                assert(list@.map_values(|i: NetworkInterface| i@) =~= before.map_values(
                    |i: NetworkInterface| i@,
                ).push(i@));
            }
        }
        k = k + 1;
    }
    proof {
        lemma_interfaces_from_links(replies@, replies@.len() as int);
        let views = list@.map_values(|i: NetworkInterface| i@);
        let links = links_upto(replies@, replies@.len() as int);
        assert(interfaces_upto(replies@, replies@.len() as int) == Ok::<Seq<InterfaceView>, Seq<char>>(views));
        assert forall|j: int| 0 <= j < list@.len() implies {
            &&& (#[trigger] list@[j]).id == links[j].index
            &&& if_name_of(links[j].attrs@) == Some(list@[j].name@)
            &&& oper_state_of(links[j].attrs@) == Some(list@[j].oper_state)
        } by {
            assert(views[j] == list@[j]@);
        }
    }
    Ok(list)
}

/// The kind of a decoded message.
#[derive(Debug, Clone, Copy, PartialEq, Eq, Structural)]
pub enum PayloadKind {
    /// The reply did not fit.
    Overrun,
    /// The end of a multi-part reply.
    Done,
    /// Anything else: a reply to keep.
    Message,
}

/// What reading the replies does after decoding one message.
pub enum ReplyStep {
    /// Give up with this error; the message is not kept.
    Failed(NetlinkError),
    /// All replies are in; the message is not kept.
    Finished,
    /// Keep the message and decode the next one at this offset of the same
    /// buffer, or in the next buffer received.
    Keep(Option<usize>),
}

/// The step after decoding, at `offset` of a buffer of `buffer_len` bytes, a
/// message of kind `kind` whose header gives its length as `msg_len`.
pub fn after_message(offset: usize, kind: PayloadKind, msg_len: usize, buffer_len: usize) -> (s: ReplyStep)
    requires
        offset + msg_len <= usize::MAX,
    ensures
        kind == PayloadKind::Overrun ==> s matches ReplyStep::Failed(NetlinkError::ResponseOverrun),
        kind == PayloadKind::Done ==> s is Finished,
        kind == PayloadKind::Message ==> (s matches ReplyStep::Keep(next) && next == (if offset
            + msg_len >= buffer_len || msg_len == 0 {
            None
        } else {
            Some((offset + msg_len) as usize)
        })),
        s matches ReplyStep::Keep(Some(next)) ==> offset < next < buffer_len,
{
    match kind {
        PayloadKind::Overrun => ReplyStep::Failed(NetlinkError::ResponseOverrun),
        PayloadKind::Done => ReplyStep::Finished,
        PayloadKind::Message => {
            let next = offset + msg_len;
            if next >= buffer_len || msg_len == 0 {
                ReplyStep::Keep(None)
            } else {
                ReplyStep::Keep(Some(next))
            }
        },
    }
}

/// The network process as a task of its parent, watched through the
/// descriptor of the child process. It cannot be restarted: when it dies,
/// the system reboots.
pub struct NetworkTask {
    child_fd: AutoCloseFD,
}

impl NetworkTask {
    /// The task around the network child process, watched through `child_fd`.
    pub fn new(child_fd: AutoCloseFD) -> (t: Self)
        ensures
            t.fd()@ == child_fd@,
    {
        Self { child_fd }
    }

    pub closed spec fn fd(&self) -> AutoCloseFD {
        self.child_fd
    }

    pub fn name(&self) -> (n: &'static str)
        ensures
            n@ == "network"@,
    {
        "network"
    }

    pub fn restart_strategy(&self) -> (s: RestartStrategy)
        ensures
            s == RestartStrategy::Reboot,
    {
        RestartStrategy::Reboot
    }

    /// The descriptor to poll, and for what: the child's, for reading.
    pub fn poll_fd(&self) -> (r: Option<(&AutoCloseFD, i16)>)
        ensures
            r matches Some((f, ev)) && f@ == self.fd()@ && ev == POLLIN,
    {
        Some((&self.child_fd, POLLIN))
    }
}

} // verus!
