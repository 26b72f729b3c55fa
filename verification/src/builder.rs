use std::sync::Arc;
use vstd::prelude::*;
use vstd::rwlock::RwLock;

use crate::error::Error;
use crate::sonyflake::{
    spec_ticks, to_sonyflake_time, Internals, InternalsPred, SharedSonyflake, Sonyflake,
    Timestamp, MAX_TICKS,
};

verus! {

/// The default start epoch, 2014-09-01 00:00:00 UTC, as a tick count since
/// the Unix epoch: 1_409_529_600 seconds at 100 ticks a second.
pub const SONYFLAKE_EPOCH_TICKS: i64 = 140_952_960_000;

/// A source for a generator's machine id, consulted once when the
/// configuration is finalized; a failure is reported as a message.
pub trait MachineIdProvider {
    fn provide(&self) -> Result<u16, String>;
}

/// An acceptance rule for a resolved machine id, consulted once when the
/// configuration is finalized.
pub trait MachineIdCheck {
    fn check(&self, machine_id: u16) -> bool;
}

/// The machine-id source a builder starts from: the lowest 16 bits of the
/// host's first private IPv4 address.
pub struct DefaultMachineId;

impl MachineIdProvider for DefaultMachineId {
    fn provide(&self) -> Result<u16, String> {
        match lower_16_bit_private_ip() {
            Ok(machine_id) => Ok(machine_id),
            Err(_) => Err("could not find any private ipv4 address".to_string()),
        }
    }
}

/// The acceptance rule a builder starts from: every machine id is accepted.
pub struct DefaultMachineIdCheck;

impl MachineIdCheck for DefaultMachineIdCheck {
    fn check(&self, _machine_id: u16) -> bool {
        true
    }
}

/// A builder to build a [`Sonyflake`] generator.
pub struct Builder<'a, F, G> {
    pub start_time: Option<Timestamp>,
    pub machine_id: Option<&'a F>,
    pub check_machine_id: Option<&'a G>,
}

/// The tick count a finalized generator counts from: the supplied start
/// time's tick, or the default epoch when none was supplied.
pub open spec fn spec_start_ticks(start_time: Option<Timestamp>) -> int {
    match start_time {
        Some(t) => spec_ticks(t.nanos as int),
        None => SONYFLAKE_EPOCH_TICKS as int,
    }
}

impl<'a> Builder<'a, DefaultMachineId, DefaultMachineIdCheck> {
    /// Construct a new builder to call methods on for the [`Sonyflake`]
    /// construction.
    pub fn new() -> (r: Self)
        ensures
            r.start_time is None,
            r.machine_id is None,
            r.check_machine_id is None,
    {
        Builder { start_time: None, machine_id: None, check_machine_id: None }
    }
}

impl<'a> Default for Builder<'a, DefaultMachineId, DefaultMachineIdCheck> {
    fn default() -> (r: Self)
        ensures
            r.start_time is None,
            r.machine_id is None,
            r.check_machine_id is None,
    {
        Builder::new()
    }
}

impl<'a, F, G> Builder<'a, F, G> {
    /// Sets the start time. If the time is ahead of current time, finalize
    /// will fail.
    pub fn start_time(self, start_time: Timestamp) -> (r: Self)
        ensures
            r.start_time == Some(start_time),
            r.machine_id == self.machine_id,
            r.check_machine_id == self.check_machine_id,
    {
        Builder {
            start_time: Some(start_time),
            machine_id: self.machine_id,
            check_machine_id: self.check_machine_id,
        }
    }

    /// Sets the machine-id source. If it reports a failure, finalize will
    /// fail.
    pub fn machine_id<F2>(self, machine_id: &'a F2) -> (r: Builder<'a, F2, G>)
        ensures
            r.start_time == self.start_time,
            r.machine_id == Some(machine_id),
            r.check_machine_id == self.check_machine_id,
    {
        Builder {
            start_time: self.start_time,
            machine_id: Some(machine_id),
            check_machine_id: self.check_machine_id,
        }
    }

    /// Sets an acceptance rule for the machine id. If it rejects the
    /// resolved id, finalize will fail.
    pub fn check_machine_id<G2>(self, check_machine_id: &'a G2) -> (r: Builder<'a, F, G2>)
        ensures
            r.start_time == self.start_time,
            r.machine_id == self.machine_id,
            r.check_machine_id == Some(check_machine_id),
    {
        Builder {
            start_time: self.start_time,
            machine_id: self.machine_id,
            check_machine_id: Some(check_machine_id),
        }
    }
}

impl<'a, F: MachineIdProvider, G: MachineIdCheck> Builder<'a, F, G> {
    /// Finalize the builder to create a Sonyflake, reading the current
    /// wall-clock time from the system clock; see [`Builder::finalize_at`]
    /// for the validation this performs.
    pub fn finalize(self) -> (r: Result<Sonyflake, Error>)
        ensures
            r matches Ok(sf) ==> sf.spec_start_time() == spec_start_ticks(self.start_time),
            r matches Err(Error::StartTimeAheadOfCurrentTime(t)) ==> self.start_time == Some(t),
            r matches Err(Error::MachineIdFailed(_)) ==> self.machine_id is Some,
            r == Err::<Sonyflake, Error>(Error::CheckMachineIdFailed) ==> self.check_machine_id
                is Some,
            r == Err::<Sonyflake, Error>(Error::NoPrivateIPv4) ==> self.machine_id is None,
            !(r matches Err(Error::OverTimeLimit)),
            !(r matches Err(Error::OverSequenceLimit)),
    {
        let now = now_timestamp();
        self.finalize_at(now)
    }

    /// Finalize the builder to create a Sonyflake, taking the instant `now`
    /// as the current time. A supplied start time strictly later than `now`
    /// is rejected, and only then; then the machine id is resolved, from
    /// the supplied source or from the host's private IPv4 address, and
    /// held against the supplied acceptance rule; the generator starts with
    /// elapsed time 0 and sequence 256.
    pub fn finalize_at(self, now: Timestamp) -> (r: Result<Sonyflake, Error>)
        ensures
            self.start_time matches Some(t) ==> t.nanos > now.nanos ==> r == Err::<
                Sonyflake,
                Error,
            >(Error::StartTimeAheadOfCurrentTime(t)),
            r matches Err(Error::StartTimeAheadOfCurrentTime(t)) ==> self.start_time == Some(t)
                && t.nanos > now.nanos,
            r matches Ok(sf) ==> sf.spec_start_time() == spec_start_ticks(self.start_time),
            r matches Err(Error::MachineIdFailed(_)) ==> self.machine_id is Some,
            r == Err::<Sonyflake, Error>(Error::CheckMachineIdFailed) ==> self.check_machine_id
                is Some,
            r == Err::<Sonyflake, Error>(Error::NoPrivateIPv4) ==> self.machine_id is None,
            !(r matches Err(Error::OverTimeLimit)),
            !(r matches Err(Error::OverSequenceLimit)),
    {
        let sequence: u16 = 256;

        let start_time: i64 = match self.start_time {
            Some(start_time) => {
                if start_time.nanos > now.nanos {
                    return Err(Error::StartTimeAheadOfCurrentTime(start_time));
                }
                to_sonyflake_time(start_time)
            },
            None => SONYFLAKE_EPOCH_TICKS,
        };

        let machine_id: u16 = match self.machine_id {
            Some(provider) => match provider.provide() {
                Ok(machine_id) => machine_id,
                Err(e) => return Err(Error::MachineIdFailed(e)),
            },
            None => match lower_16_bit_private_ip() {
                Ok(machine_id) => machine_id,
                Err(e) => return Err(e),
            },
        };

        if let Some(check) = self.check_machine_id {
            if !check.check(machine_id) {
                return Err(Error::CheckMachineIdFailed);
            }
        }

        let shared = Arc::new(
            SharedSonyflake {
                start_time,
                machine_id,
                internals: RwLock::new(
                    Internals { elapsed_time: 0, sequence },
                    Ghost(InternalsPred),
                ),
            },
        );
        Ok(Sonyflake::new_inner(shared))
    }
}

/// One address of a host network interface: an IPv4 address as its four
/// octets, or an IPv6 address, whose bits the generator never reads.
#[derive(Clone, Copy, Debug, PartialEq, Eq, Structural)]
pub enum InterfaceAddress {
    V4(u8, u8, u8, u8),
    V6,
}

/// What the generator reads of one host network interface: whether it is
/// up, whether it is a loopback interface, and its addresses in order.
#[derive(Debug)]
pub struct HostInterface {
    pub up: bool,
    pub loopback: bool,
    pub addresses: Vec<InterfaceAddress>,
}

/// Relies on `pnet::datalink::interfaces`: it lists the host's network
/// interfaces, with their up and loopback flags and their addresses in
/// enumeration order.
#[verifier::external_body]
fn host_interfaces() -> (r: Vec<HostInterface>) {
    pnet::datalink::interfaces().into_iter().map(|i| HostInterface {
        up: i.is_up(),
        loopback: i.is_loopback(),
        addresses: i.ips.into_iter().map(|n| match n {
            pnet::ipnetwork::IpNetwork::V4(v4) => {
                let o = v4.ip().octets();
                InterfaceAddress::V4(o[0], o[1], o[2], o[3])
            },
            pnet::ipnetwork::IpNetwork::V6(_) => InterfaceAddress::V6,
        }).collect(),
    }).collect()
}

/// Relies on `time::OffsetDateTime::now_utc` (read through
/// `unix_timestamp_nanos`): the current wall-clock time as nanoseconds
/// since the Unix epoch.
#[verifier::external_body]
fn now_timestamp() -> (r: Timestamp) {
    Timestamp { nanos: time::OffsetDateTime::now_utc().unix_timestamp_nanos() as i64 }
}

/// The address is an IPv4 address in one of the RFC 1918 private ranges:
/// 10.0.0.0/8, 172.16.0.0/12 or 192.168.0.0/16.
pub open spec fn spec_is_private_ipv4(addr: InterfaceAddress) -> bool {
    match addr {
        InterfaceAddress::V4(o0, o1, _, _) => o0 == 10 || (o0 == 172 && 16 <= o1 && o1 < 32) || (
        o0 == 192 && o1 == 168),
        InterfaceAddress::V6 => false,
    }
}

/// Decides whether an address is a private IPv4 address.
pub fn is_private_ipv4(addr: InterfaceAddress) -> (r: bool)
    ensures
        r == spec_is_private_ipv4(addr),
{
    match addr {
        InterfaceAddress::V4(o0, o1, _, _) => o0 == 10 || (o0 == 172 && 16 <= o1 && o1 < 32) || (
        o0 == 192 && o1 == 168),
        InterfaceAddress::V6 => false,
    }
}

/// The first private IPv4 address of an address list, if any.
pub open spec fn spec_first_private_v4(addrs: Seq<InterfaceAddress>) -> Option<InterfaceAddress>
    decreases addrs.len(),
{
    if addrs.len() == 0 {
        None
    } else if spec_is_private_ipv4(addrs[0]) {
        Some(addrs[0])
    } else {
        spec_first_private_v4(addrs.drop_first())
    }
}

/// The first private IPv4 address reachable through the interface list: the
/// first private IPv4 address of the first up, non-loopback interface that
/// has one.
pub open spec fn spec_private_ipv4(interfaces: Seq<HostInterface>) -> Option<InterfaceAddress>
    decreases interfaces.len(),
{
    if interfaces.len() == 0 {
        None
    } else if interfaces[0].up && !interfaces[0].loopback && spec_first_private_v4(
        interfaces[0].addresses@,
    ) is Some {
        spec_first_private_v4(interfaces[0].addresses@)
    } else {
        spec_private_ipv4(interfaces.drop_first())
    }
}

/// What `spec_first_private_v4` finds is a private IPv4 address.
proof fn lemma_first_private_is_private(addrs: Seq<InterfaceAddress>)
    ensures
        spec_first_private_v4(addrs) matches Some(a) ==> spec_is_private_ipv4(a),
    decreases addrs.len(),
{
    if addrs.len() > 0 && !spec_is_private_ipv4(addrs[0]) {
        lemma_first_private_is_private(addrs.drop_first());
    }
}

/// What `spec_private_ipv4` finds is a private IPv4 address.
proof fn lemma_private_ipv4_is_private(interfaces: Seq<HostInterface>)
    ensures
        spec_private_ipv4(interfaces) matches Some(a) ==> spec_is_private_ipv4(a),
    decreases interfaces.len(),
{
    if interfaces.len() > 0 {
        if interfaces[0].up && !interfaces[0].loopback && spec_first_private_v4(
            interfaces[0].addresses@,
        ) is Some {
            lemma_first_private_is_private(interfaces[0].addresses@);
        } else {
            lemma_private_ipv4_is_private(interfaces.drop_first());
        }
    }
}

/// The first private IPv4 address of an address list, if any.
fn first_private_v4(addrs: &Vec<InterfaceAddress>) -> (r: Option<InterfaceAddress>)
    ensures
        r == spec_first_private_v4(addrs@),
{
    let mut idx: usize = 0;
    proof {
        assert(addrs@.skip(0) =~= addrs@);
    }
    while idx < addrs.len()
        invariant
            0 <= idx <= addrs@.len(),
            spec_first_private_v4(addrs@) == spec_first_private_v4(addrs@.skip(idx as int)),
        decreases addrs@.len() - idx,
    {
        let addr = addrs[idx];
        proof {
            assert(addrs@.skip(idx as int)[0] == addrs@[idx as int]);
            assert(addrs@.skip(idx as int).drop_first() =~= addrs@.skip(idx as int + 1));
        }
        if is_private_ipv4(addr) {
            return Some(addr);
        }
        idx = idx + 1;
    }
    proof {
        assert(addrs@.skip(addrs@.len() as int) =~= Seq::<InterfaceAddress>::empty());
    }
    None
}

/// Finds the first private IPv4 address among the given interfaces: the
/// first private IPv4 address of the first up, non-loopback interface that
/// has one.
pub fn private_ipv4(interfaces: &Vec<HostInterface>) -> (r: Option<InterfaceAddress>)
    ensures
        r == spec_private_ipv4(interfaces@),
{
    let mut idx: usize = 0;
    proof {
        assert(interfaces@.skip(0) =~= interfaces@);
    }
    while idx < interfaces.len()
        invariant
            0 <= idx <= interfaces@.len(),
            spec_private_ipv4(interfaces@) == spec_private_ipv4(interfaces@.skip(idx as int)),
        decreases interfaces@.len() - idx,
    {
        let iface = &interfaces[idx];
        proof {
            assert(interfaces@.skip(idx as int)[0] == interfaces@[idx as int]);
            assert(interfaces@.skip(idx as int).drop_first() =~= interfaces@.skip(idx as int + 1));
        }
        if iface.up && !iface.loopback {
            let found = first_private_v4(&iface.addresses);
            if found.is_some() {
                return found;
            }
        }
        idx = idx + 1;
    }
    proof {
        assert(interfaces@.skip(interfaces@.len() as int) =~= Seq::<HostInterface>::empty());
    }
    None
}

/// The lowest 16 bits of an IPv4 address: its third octet over its fourth.
pub open spec fn spec_lower_16(addr: InterfaceAddress) -> u16 {
    match addr {
        InterfaceAddress::V4(_, _, o2, o3) => (o2 * 256 + o3) as u16,
        InterfaceAddress::V6 => 0,
    }
}

/// The lowest 16 bits of the first private IPv4 address of the given
/// interfaces, or `NoPrivateIPv4` when they hold none.
pub fn lower_16_bit_private_ip_from(interfaces: &Vec<HostInterface>) -> (r: Result<u16, Error>)
    ensures
        spec_private_ipv4(interfaces@) matches Some(a) ==> r == Ok::<u16, Error>(
            spec_lower_16(a),
        ),
        spec_private_ipv4(interfaces@) is None <==> r == Err::<u16, Error>(Error::NoPrivateIPv4),
{
    proof {
        lemma_private_ipv4_is_private(interfaces@);
    }
    match private_ipv4(interfaces) {
        Some(addr) => match addr {
            InterfaceAddress::V4(_, _, o2, o3) => {
                let o2w: u16 = o2 as u16;
                let o3w: u16 = o3 as u16;
                proof {
                    assert(o2w << 8 == o2w * 256 && o2w << 8 <= 0xFF00) by (bit_vector)
                        requires
                            o2w < 256,
                    ;
                }
                Ok((o2w << 8) + o3w)
            },
            InterfaceAddress::V6 => {
                assert(false);
                Err(Error::NoPrivateIPv4)
            },
        },
        None => Err(Error::NoPrivateIPv4),
    }
}

/// The lowest 16 bits of the host's first private IPv4 address, read from
/// the host's network interfaces; fails with `NoPrivateIPv4` when no active
/// interface has a private IPv4 address.
pub fn lower_16_bit_private_ip() -> (r: Result<u16, Error>)
    ensures
        r matches Err(e) ==> e == Error::NoPrivateIPv4,
{
    let interfaces = host_interfaces();
    lower_16_bit_private_ip_from(&interfaces)
}

} // verus!
