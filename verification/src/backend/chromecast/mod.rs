//! The Chromecast backend: discovery of the devices on the local network.
//! Sending the mDNS query and reading the responses is done by the caller;
//! the functions here turn the records of a response into a device address
//! and keep one address per device name.
pub mod media_server;
pub mod parser;

use vstd::prelude::*;

use crate::backend::chromecast::parser::{dns_txt, record_views, records_map};

verus! {

/// Google Chromecast multicast service identifier.
pub const SERVICE_NAME: &'static str = "_googlecast._tcp.local";

/// Key in DNS TXT record for Chromecast "friendly name".
pub const CHROMECAST_NAME_KEY: &'static str = "fn";

/// Timeout for discovering Chromecast devices with mDNS, in milliseconds.
pub const DISCOVER_TIMEOUT_MILLIS: u64 = 3000;

/// An IP address.
#[derive(Clone, Copy, Debug)]
pub enum IpAddress {
    V4([u8; 4]),
    V6([u16; 8]),
}

/// A record of an mDNS response, as far as discovery reads it.
#[derive(Clone, Debug)]
pub enum Record {
    /// An IPv4 address.
    A([u8; 4]),
    /// An IPv6 address.
    Aaaa([u16; 8]),
    /// A service record, giving the port of the service.
    Srv { port: u16 },
    /// A TXT record: `key=value` strings.
    Txt(Vec<String>),
    /// Any other record.
    Other,
}

/// Address of a Chromecast: its name, as given by the `fn` field of its DNS
/// TXT record, and the IP address and port found by mDNS.
#[derive(Clone, Debug)]
pub struct CastAddr {
    pub name: String,
    pub ip: IpAddress,
    pub port: u16,
}

/// The characters of the strings of a TXT record.
pub open spec fn txt_views(v: Seq<String>) -> Seq<Seq<char>> {
    v.map_values(|s: String| s@)
}

/// What the records say, read in order: the last address, the last port and
/// the last friendly name given by a TXT record.
pub open spec fn discovered(records: Seq<Record>) -> (Option<IpAddress>, Option<u16>, Option<Seq<char>>)
    decreases records.len(),
{
    if records.len() == 0 {
        (None, None, None)
    } else {
        let (ip, port, name) = discovered(records.drop_last());
        match records.last() {
            Record::A(v4) => (Some(IpAddress::V4(v4)), port, name),
            Record::Aaaa(v6) => (Some(IpAddress::V6(v6)), port, name),
            Record::Srv { port: p } => (ip, Some(p), name),
            Record::Txt(text) => {
                let m = records_map(txt_views(text@));
                (ip, port, if m.contains_key(CHROMECAST_NAME_KEY@) { Some(m[CHROMECAST_NAME_KEY@]) } else { name })
            },
            Record::Other => (ip, port, name),
        }
    }
}

/// The friendly name given by a TXT record, if it gives one.
fn txt_name(text: &Vec<String>) -> (r: Option<String>)
    ensures
        match r {
            Some(n) => records_map(txt_views(text@)).contains_key(CHROMECAST_NAME_KEY@)
                && n@ == records_map(txt_views(text@))[CHROMECAST_NAME_KEY@],
            None => !records_map(txt_views(text@)).contains_key(CHROMECAST_NAME_KEY@),
        },
{
    let mut strs: Vec<&str> = Vec::new();
    let mut i: usize = 0;
    while i < text.len()
        invariant
            i <= text@.len(),
            strs@.len() == i,
            forall|j: int| 0 <= j < i ==> (#[trigger] strs@[j])@ == text@[j]@,
        decreases text@.len() - i,
    {
        strs.push(text[i].as_str());
        i = i + 1;
    }
    assert(record_views(strs@) =~= txt_views(text@));
    let metadata = dns_txt(strs.as_slice());
    match metadata.get(CHROMECAST_NAME_KEY) {
        Some(name) => Some(name.clone()),
        None => None,
    }
}

/// The address of the device that answered with `records`: known when the
/// records give an address, a port and a friendly name.
pub fn cast_addr(records: &Vec<Record>) -> (r: Option<CastAddr>)
    ensures
        match discovered(records@) {
            (Some(ip), Some(port), Some(name)) => r matches Some(c) && c.name@ == name && c.ip == ip && c.port
                == port,
            _ => r is None,
        },
{
    let mut ip: Option<IpAddress> = None;
    let mut port: Option<u16> = None;
    let mut name: Option<String> = None;
    let mut i: usize = 0;
    while i < records.len()
        invariant
            i <= records@.len(),
            discovered(records@.take(i as int)) == (ip, port, match name {
                Some(n) => Some(n@),
                None => None,
            }),
        decreases records@.len() - i,
    {
        let ghost prev = records@.take(i as int);
        let ghost next = records@.take(i + 1);
        assert(next.drop_last() =~= prev);
        match &records[i] {
            Record::A(v4) => {
                ip = Some(IpAddress::V4(*v4));
            },
            Record::Aaaa(v6) => {
                ip = Some(IpAddress::V6(*v6));
            },
            Record::Srv { port: p } => {
                port = Some(*p);
            },
            Record::Txt(text) => {
                if let Some(n) = txt_name(text) {
                    name = Some(n);
                }
            },
            Record::Other => {},
        }
        i = i + 1;
    }
    assert(records@.take(records@.len() as int) =~= records@);
    match (name, ip, port) {
        (Some(name), Some(ip), Some(port)) => Some(CastAddr { name, ip, port }),
        _ => None,
    }
}

/// The devices found so far, one per name, in the order they were first
/// found.
#[derive(Debug)]
pub struct Devices {
    found: Vec<CastAddr>,
}

/// Model of a found device: its name, address and port.
pub type CastAddrView = (Seq<char>, IpAddress, u16);

pub open spec fn cast_addr_view(c: CastAddr) -> CastAddrView {
    (c.name@, c.ip, c.port)
}

/// Whether no two devices have the same name.
pub open spec fn names_distinct(s: Seq<CastAddrView>) -> bool {
    forall|i: int, j: int| 0 <= i < j < s.len() ==> (#[trigger] s[i]).0 != (#[trigger] s[j]).0
}

/// Whether a device named `name` is among `s`.
pub open spec fn has_name(s: Seq<CastAddrView>, name: Seq<char>) -> bool {
    exists|i: int| 0 <= i < s.len() && (#[trigger] s[i]).0 == name
}

impl View for Devices {
    type V = Seq<CastAddrView>;

    closed spec fn view(&self) -> Seq<CastAddrView> {
        self.found@.map_values(|c: CastAddr| cast_addr_view(c))
    }
}

impl Devices {
    /// No device found yet.
    pub fn new() -> (d: Self)
        ensures
            d@ == Seq::<CastAddrView>::empty(),
    {
        let d = Devices { found: Vec::new() };
        assert(d@ =~= Seq::<CastAddrView>::empty());
        d
    }

    /// Number of devices found.
    pub fn len(&self) -> (r: usize)
        ensures
            r == self@.len(),
    {
        self.found.len()
    }

    /// Adds a device unless one with the same name was found before, which
    /// is then kept; returns whether the device was added.
    pub fn insert(&mut self, addr: CastAddr) -> (inserted: bool)
        ensures
            inserted == !has_name(old(self)@, addr.name@),
            final(self)@ == if inserted { old(self)@.push(cast_addr_view(addr)) } else { old(self)@ },
    {
        let mut i: usize = 0;
        while i < self.found.len()
            invariant
                i <= self@.len(),
                self@ == self.found@.map_values(|c: CastAddr| cast_addr_view(c)),
                forall|j: int| 0 <= j < i ==> (#[trigger] self@[j]).0 != addr.name@,
            decreases self@.len() - i,
        {
            if crate::util::str_eq(self.found[i].name.as_str(), addr.name.as_str()) {
                assert(self@[i as int].0 == addr.name@);
                return false;
            }
            i = i + 1;
        }
        let ghost before = self@;
        self.found.push(addr);
        assert(self@ =~= before.push(cast_addr_view(addr)));
        true
    }

    /// Takes the device found first, if any.
    pub fn next(&mut self) -> (r: Option<CastAddr>)
        ensures
            old(self)@.len() == 0 ==> r is None && final(self)@ == old(self)@,
            old(self)@.len() > 0 ==> (r matches Some(c) && cast_addr_view(c) == old(self)@[0]),
            old(self)@.len() > 0 ==> final(self)@ == old(self)@.drop_first(),
    {
        if self.found.len() == 0 {
            return None;
        }
        let ghost before = self@;
        let c = self.found.remove(0);
        assert(self@ =~= before.drop_first());
        Some(c)
    }
}

/// Adding devices never gives two with the same name.
pub proof fn lemma_insert_keeps_names_distinct(before: Seq<CastAddrView>, addr: CastAddrView)
    requires
        names_distinct(before),
    ensures
        names_distinct(if has_name(before, addr.0) { before } else { before.push(addr) }),
{
    if !has_name(before, addr.0) {
        let after = before.push(addr);
        assert forall|i: int, j: int| 0 <= i < j < after.len() implies (#[trigger] after[i]).0 != (
        #[trigger] after[j]).0 by {
            if j == before.len() {
                assert(before[i].0 != addr.0);
            } else {
                assert(before[i] == after[i] && before[j] == after[j]);
            }
        }
    }
}

} // verus!
