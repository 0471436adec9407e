use std::collections::HashMap;
use vstd::prelude::*;
use vstd::string::*;

use crate::client::{DeviceConnInfo, DeviceConnState};

verus! {

/// How long, in milliseconds, a client entry stays alive without a ping or a message.
pub const TIME_OUT_MS: u64 = 120_000;

/// The number `2^64`: the client id occupies the bits above it in a pool key.
pub open spec fn pow64() -> int {
    0x1_0000_0000_0000_0000
}

/// The pool key of device `deviceid` of client `clientid`: the client id in the high
/// 64 bits, the device id in the low bits.
pub open spec fn key_of(clientid: u64, deviceid: u32) -> u128 {
    (clientid as int * pow64() + deviceid as int) as u128
}

/// The client id that a pool key carries.
pub open spec fn key_client(key: u128) -> u64 {
    (key as int / pow64()) as u64
}

/// The device id that a pool key carries (its low 32 bits).
pub open spec fn key_device(key: u128) -> u32 {
    (key as int % 0x1_0000_0000) as u32
}

/// Whether a clock reading leaves room for a full time-out without overflow.
pub open spec fn time_ok(now: u64) -> bool {
    now + TIME_OUT_MS <= u64::MAX
}

/// Builds the pool key of a client and one of its devices.
pub fn get_key(clientid: u64, deviceid: u32) -> (key: u128)
    ensures
        key == key_of(clientid, deviceid),
{
    let c: u128 = clientid as u128;
    let d: u128 = deviceid as u128;
    assert(((c << 64u128) | d) == c * 0x1_0000_0000_0000_0000u128 + d) by (bit_vector)
        requires
            c < 0x1_0000_0000_0000_0000u128,
            d < 0x1_0000_0000u128,
    ;
    (c << 64u128) | d
}

/// Splits a pool key into the client id (the high 64 bits) and the device id (the
/// low 32 bits).
pub fn get_cd_by_key(key: u128) -> (cd: (u64, u32))
    ensures
        cd.0 == key_client(key),
        cd.1 == key_device(key),
{
    let clientid: u64 = (key >> 64u128) as u64;
    let deviceid: u32 = key as u32;
    assert((key >> 64u128) == key / 0x1_0000_0000_0000_0000u128) by (bit_vector);
    assert((key as u32) == key % 0x1_0000_0000u128) by (bit_vector);
    (clientid, deviceid)
}

/// A live session: the stream of the device and the clock reading at which the
/// session expires.
#[derive(Clone, Copy, Debug, PartialEq, Eq, Structural)]
pub struct ClientEntry {
    pub stream: u64,
    pub expires: u64,
}

/// Whether a key carries nothing between its device id and its client id, so that
/// it is the key of the device it names.
pub open spec fn normal_key(key: u128) -> bool {
    key_of(key_client(key), key_device(key)) == key
}

/// Splitting the key of a client's device gives back the client and the device.
pub proof fn lemma_key_roundtrip(clientid: u64, deviceid: u32)
    ensures
        key_client(key_of(clientid, deviceid)) == clientid,
        key_device(key_of(clientid, deviceid)) == deviceid,
        normal_key(key_of(clientid, deviceid)),
{
    let k = clientid as int * pow64() + deviceid as int;
    assert(0 <= k < 0x1_0000_0000_0000_0000_0000_0000_0000_0000) by (nonlinear_arith)
        requires
            k == clientid as int * pow64() + deviceid as int,
            0 <= clientid < pow64(),
            0 <= deviceid < 0x1_0000_0000,
            pow64() == 0x1_0000_0000_0000_0000,
    ;
    assert(k / pow64() == clientid as int) by (nonlinear_arith)
        requires
            k == clientid as int * pow64() + deviceid as int,
            0 <= deviceid < 0x1_0000_0000,
            pow64() == 0x1_0000_0000_0000_0000,
    ;
    assert(k % 0x1_0000_0000 == deviceid as int) by (nonlinear_arith)
        requires
            k == clientid as int * pow64() + deviceid as int,
            0 <= deviceid < 0x1_0000_0000,
            pow64() == 0x1_0000_0000_0000_0000,
    ;
}

/// Two devices have the same key only if they are the same device of the same client.
pub proof fn lemma_key_injective(c1: u64, d1: u32, c2: u64, d2: u32)
    ensures
        key_of(c1, d1) == key_of(c2, d2) <==> (c1 == c2 && d1 == d2),
{
    lemma_key_roundtrip(c1, d1);
    lemma_key_roundtrip(c2, d2);
}

/// The abstract content of a [`ClientPoolManager`].
pub struct PoolView {
    /// Live sessions by pool key.
    pub clients: Map<u128, ClientEntry>,
    /// Known devices of each client, by device id.
    pub devices: Map<u64, Map<u32, DeviceConnInfo>>,
    /// Client key of each peer address.
    pub addresses: Map<Seq<char>, u128>,
}

impl PoolView {
    /// What every pool that the operations build satisfies: each session's key names a
    /// device that is listed for its client, each address maps to such a key, and each
    /// device record carries the id it is listed under.
    pub open spec fn consistent(self) -> bool {
        &&& forall|k: u128| #[trigger]
            self.clients.contains_key(k) ==> normal_key(k) && self.devices.contains_key(
                key_client(k),
            ) && self.devices[key_client(k)].contains_key(key_device(k))
        &&& forall|a: Seq<char>| #[trigger]
            self.addresses.contains_key(a) ==> normal_key(self.addresses[a])
        &&& forall|c: u64, d: u32|
            self.devices.contains_key(c) && #[trigger] self.devices[c].contains_key(d)
                ==> self.devices[c][d].deviceid == d
    }

    /// The stream of the live session of device `dev` of client `clt`.
    pub open spec fn get_client(self, clt: u64, dev: u32) -> Option<u64> {
        if self.clients.contains_key(key_of(clt, dev)) {
            Some(self.clients[key_of(clt, dev)].stream)
        } else {
            None
        }
    }

    /// The devices known of client `clt`.
    pub open spec fn get_device_pool(self, clt: u64) -> Option<Map<u32, DeviceConnInfo>> {
        if self.devices.contains_key(clt) {
            Some(self.devices[clt])
        } else {
            None
        }
    }

    /// The pool with device `dev` of client `clt` in state `st`, the client and the device
    /// being recorded when new.
    pub open spec fn set_device_state(self, clt: u64, dev: u32, st: DeviceConnState) -> PoolView {
        let inner = if self.devices.contains_key(clt) {
            self.devices[clt]
        } else {
            Map::empty()
        };
        let info = if inner.contains_key(dev) {
            DeviceConnInfo { deviceid: inner[dev].deviceid, device_state: st }
        } else {
            DeviceConnInfo { deviceid: dev, device_state: st }
        };
        PoolView { devices: self.devices.insert(clt, inner.insert(dev, info)), ..self }
    }

    /// The pool with a session of device `dev` of client `clt` on `stream`, expiring a
    /// time-out after `now`, and the device online.
    pub open spec fn put_client(self, clt: u64, dev: u32, stream: u64, now: u64) -> PoolView {
        let p = self.set_device_state(clt, dev, DeviceConnState::StateOnline);
        PoolView {
            clients: p.clients.insert(
                key_of(clt, dev),
                ClientEntry { stream, expires: (now + TIME_OUT_MS) as u64 },
            ),
            ..p
        }
    }

    /// The pool without the session of device `dev` of client `clt`, and with the device
    /// offline when it is known.
    pub open spec fn remove_client(self, clt: u64, dev: u32) -> PoolView {
        PoolView {
            clients: self.clients.remove(key_of(clt, dev)),
            devices: if self.devices.contains_key(clt) && self.devices[clt].contains_key(dev) {
                self.devices.insert(
                    clt,
                    self.devices[clt].insert(
                        dev,
                        DeviceConnInfo {
                            deviceid: self.devices[clt][dev].deviceid,
                            device_state: DeviceConnState::StateOffline,
                        },
                    ),
                )
            } else {
                self.devices
            },
            ..self
        }
    }

    /// The pool with the session of device `dev` of client `clt`, if any, expiring a
    /// time-out after `now`.
    pub open spec fn update_client(self, clt: u64, dev: u32, now: u64) -> PoolView {
        let k = key_of(clt, dev);
        if self.clients.contains_key(k) {
            PoolView {
                clients: self.clients.insert(
                    k,
                    ClientEntry {
                        stream: self.clients[k].stream,
                        expires: (now + TIME_OUT_MS) as u64,
                    },
                ),
                ..self
            }
        } else {
            self
        }
    }

    /// The pool keeping only the sessions that expire after `now`.
    pub open spec fn remove_expired(self, now: u64) -> PoolView {
        PoolView {
            clients: Map::new(
                |k: u128| self.clients.contains_key(k) && self.clients[k].expires > now,
                |k: u128| self.clients[k],
            ),
            ..self
        }
    }

    /// The client key that peer address `address` maps to.
    pub open spec fn get_addres(self, address: Seq<char>) -> Option<u128> {
        if self.addresses.contains_key(address) {
            Some(self.addresses[address])
        } else {
            None
        }
    }

    /// The pool with peer address `address` mapped to device `dev` of client `clt`.
    pub open spec fn put_addres(self, address: Seq<char>, clt: u64, dev: u32) -> PoolView {
        PoolView { addresses: self.addresses.insert(address, key_of(clt, dev)), ..self }
    }

    /// The pool without peer address `address`.
    pub open spec fn remove_addres(self, address: Seq<char>) -> PoolView {
        PoolView { addresses: self.addresses.remove(address), ..self }
    }
}

/// Every operation keeps a pool consistent.
pub proof fn lemma_consistent_kept(p: PoolView, clt: u64, dev: u32, st: DeviceConnState, stream: u64, now: u64, address: Seq<char>)
    requires
        p.consistent(),
    ensures
        p.set_device_state(clt, dev, st).consistent(),
        p.put_client(clt, dev, stream, now).consistent(),
        p.remove_client(clt, dev).consistent(),
        p.update_client(clt, dev, now).consistent(),
        p.remove_expired(now).consistent(),
        p.put_addres(address, clt, dev).consistent(),
        p.remove_addres(address).consistent(),
{
    lemma_key_roundtrip(clt, dev);
    let q = p.set_device_state(clt, dev, st);
    assert(q.consistent()) by {
        assert forall|c: u64, d: u32| q.devices.contains_key(c) && #[trigger] q.devices[c].contains_key(d)
            implies q.devices[c][d].deviceid == d by {
            if c == clt && d == dev && p.devices.contains_key(clt) && p.devices[clt].contains_key(dev) {
                assert(p.devices[clt][dev].deviceid == dev);
            }
        }
    }
    let q = p.put_client(clt, dev, stream, now);
    assert(q.consistent()) by {
        let r = p.set_device_state(clt, dev, DeviceConnState::StateOnline);
        assert forall|c: u64, d: u32| q.devices.contains_key(c) && #[trigger] q.devices[c].contains_key(d)
            implies q.devices[c][d].deviceid == d by {
            if c == clt && d == dev && p.devices.contains_key(clt) && p.devices[clt].contains_key(dev) {
                assert(p.devices[clt][dev].deviceid == dev);
            }
        }
        assert(r.devices[clt].contains_key(dev));
    }
    let q = p.remove_client(clt, dev);
    assert(q.consistent());
    let q = p.remove_expired(now);
    assert(q.consistent());
}

/// The map of peer addresses that an address list stands for.
pub open spec fn addr_map(s: Seq<(String, u128)>) -> Map<Seq<char>, u128>
    decreases s.len(),
{
    if s.len() == 0 {
        Map::empty()
    } else {
        addr_map(s.drop_last()).insert(s.last().0@, s.last().1)
    }
}

/// No peer address occurs twice in an address list.
pub open spec fn distinct_addrs(s: Seq<(String, u128)>) -> bool {
    forall|i: int, j: int| 0 <= i < j < s.len() ==> s[i].0@ != s[j].0@
}

proof fn lemma_addr_map(s: Seq<(String, u128)>)
    requires
        distinct_addrs(s),
    ensures
        forall|a: Seq<char>|
            addr_map(s).contains_key(a) <==> exists|i: int| 0 <= i < s.len() && s[i].0@ == a,
        forall|i: int| 0 <= i < s.len() ==> addr_map(s)[#[trigger] s[i].0@] == s[i].1,
    decreases s.len(),
{
    if s.len() > 0 {
        let t = s.drop_last();
        assert(distinct_addrs(t));
        lemma_addr_map(t);
        assert forall|a: Seq<char>|
            addr_map(s).contains_key(a) <==> exists|i: int| 0 <= i < s.len() && s[i].0@ == a by {
            let n = s.len() - 1;
            if addr_map(s).contains_key(a) {
                if a == s.last().0@ {
                    assert(s[n].0@ == a);
                } else {
                    assert(addr_map(t).contains_key(a));
                    let i = choose|i: int| 0 <= i < t.len() && t[i].0@ == a;
                    assert(t[i] == s[i]);
                    assert(s[i].0@ == a);
                }
            }
            if exists|i: int| 0 <= i < s.len() && s[i].0@ == a {
                let i = choose|i: int| 0 <= i < s.len() && s[i].0@ == a;
                if i < n {
                    assert(t[i] == s[i]);
                    assert(t[i].0@ == a);
                    assert(addr_map(t).contains_key(a));
                }
            }
        }
        assert forall|i: int| 0 <= i < s.len() implies addr_map(s)[#[trigger] s[i].0@] == s[i].1 by {
            if i < s.len() - 1 {
                assert(t[i] == s[i]);
            }
        }
    }
}

proof fn lemma_addr_update(s: Seq<(String, u128)>, i: int, x: (String, u128))
    requires
        distinct_addrs(s),
        0 <= i < s.len(),
        x.0@ == s[i].0@,
    ensures
        distinct_addrs(s.update(i, x)),
        addr_map(s.update(i, x)) == addr_map(s).insert(x.0@, x.1),
{
    let u = s.update(i, x);
    assert(distinct_addrs(u)) by {
        assert forall|j: int, k: int| 0 <= j < k < u.len() implies u[j].0@ != u[k].0@ by {
            assert(u[j].0@ == s[j].0@);
            assert(u[k].0@ == s[k].0@);
        }
    }
    lemma_addr_map(s);
    lemma_addr_map(u);
    assert forall|a: Seq<char>| addr_map(u).contains_key(a) <==> addr_map(s).insert(x.0@, x.1).contains_key(a) by {
        if exists|j: int| 0 <= j < u.len() && u[j].0@ == a {
            let j = choose|j: int| 0 <= j < u.len() && u[j].0@ == a;
            assert(s[j].0@ == a);
        }
        if exists|j: int| 0 <= j < s.len() && s[j].0@ == a {
            let j = choose|j: int| 0 <= j < s.len() && s[j].0@ == a;
            assert(u[j].0@ == a);
        }
        if a == x.0@ {
            assert(u[i].0@ == a);
        }
    }
    assert forall|a: Seq<char>| #[trigger] addr_map(u).contains_key(a) implies addr_map(u)[a] == addr_map(s).insert(x.0@, x.1)[a] by {
        let j = choose|j: int| 0 <= j < u.len() && u[j].0@ == a;
        assert(addr_map(u)[u[j].0@] == u[j].1);
        if j != i {
            assert(s[j].0@ == a);
            assert(addr_map(s)[s[j].0@] == s[j].1);
        }
    }
    assert(addr_map(u) =~= addr_map(s).insert(x.0@, x.1));
}

proof fn lemma_addr_remove(s: Seq<(String, u128)>, i: int)
    requires
        distinct_addrs(s),
        0 <= i < s.len(),
    ensures
        distinct_addrs(s.remove(i)),
        addr_map(s.remove(i)) == addr_map(s).remove(s[i].0@),
{
    let u = s.remove(i);
    assert(distinct_addrs(u)) by {
        assert forall|j: int, k: int| 0 <= j < k < u.len() implies u[j].0@ != u[k].0@ by {
            let jj = if j < i { j } else { j + 1 };
            let kk = if k < i { k } else { k + 1 };
            assert(u[j] == s[jj]);
            assert(u[k] == s[kk]);
        }
    }
    lemma_addr_map(s);
    lemma_addr_map(u);
    assert forall|a: Seq<char>| addr_map(u).contains_key(a) <==> addr_map(s).remove(s[i].0@).contains_key(a) by {
        if exists|j: int| 0 <= j < u.len() && u[j].0@ == a {
            let j = choose|j: int| 0 <= j < u.len() && u[j].0@ == a;
            let jj = if j < i { j } else { j + 1 };
            assert(u[j] == s[jj]);
        }
        if a != s[i].0@ && exists|j: int| 0 <= j < s.len() && s[j].0@ == a {
            let j = choose|j: int| 0 <= j < s.len() && s[j].0@ == a;
            let jj = if j < i { j } else { j - 1 };
            assert(u[jj] == s[j]);
        }
    }
    assert forall|a: Seq<char>| #[trigger] addr_map(u).contains_key(a) implies addr_map(u)[a] == addr_map(s)[a] by {
        let j = choose|j: int| 0 <= j < u.len() && u[j].0@ == a;
        let jj = if j < i { j } else { j + 1 };
        assert(u[j] == s[jj]);
        assert(addr_map(u)[u[j].0@] == u[j].1);
        assert(addr_map(s)[s[jj].0@] == s[jj].1);
    }
    assert(addr_map(u) =~= addr_map(s).remove(s[i].0@));
}

/// The three pools of the server: live sessions by client and device, the devices
/// known of each client with their connection states, and the client key of each
/// peer address.
pub struct ClientPoolManager {
    client_pool: HashMap<u128, ClientEntry>,
    device_pool: HashMap<u64, HashMap<u32, DeviceConnInfo>>,
    ipadrs_pool: Vec<(String, u128)>,
}

impl View for ClientPoolManager {
    type V = PoolView;

    closed spec fn view(&self) -> PoolView {
        PoolView {
            clients: self.client_pool@,
            devices: Map::new(
                |k: u64| self.device_pool@.contains_key(k),
                |k: u64| self.device_pool@[k]@,
            ),
            addresses: addr_map(self.ipadrs_pool@),
        }
    }
}

impl ClientPoolManager {
    /// The invariant: the pool's view is consistent, and no address occurs twice in the
    /// address pool.
    pub closed spec fn wf(&self) -> bool {
        &&& self@.consistent()
        &&& distinct_addrs(self.ipadrs_pool@)
    }

    /// The view of a well-formed pool is consistent.
    pub proof fn lemma_wf_consistent(&self)
        requires
            self.wf(),
        ensures
            self@.consistent(),
    {
    }

    /// An empty pool.
    pub fn new() -> (pool: ClientPoolManager)
        ensures
            pool.wf(),
            pool@.clients == Map::<u128, ClientEntry>::empty(),
            pool@.devices == Map::<u64, Map<u32, DeviceConnInfo>>::empty(),
            pool@.addresses == Map::<Seq<char>, u128>::empty(),
    {
        let pool = ClientPoolManager {
            client_pool: HashMap::new(),
            device_pool: HashMap::new(),
            ipadrs_pool: Vec::new(),
        };
        assert(pool@.devices =~= Map::<u64, Map<u32, DeviceConnInfo>>::empty());
        pool
    }
}

impl ClientPoolManager {
    proof fn lemma_devices_insert(&self, other: &ClientPoolManager, clt: u64, devs: Map<u32, DeviceConnInfo>)
        requires
            other.device_pool@ == self.device_pool@.insert(clt, other.device_pool@[clt]),
            other.device_pool@[clt]@ == devs,
        ensures
            other@.devices == self@.devices.insert(clt, devs),
    {
        assert(other@.devices =~= self@.devices.insert(clt, devs));
    }

    /// The devices known of client `clt`, by device id.
    pub fn get_device_pool(&self, clt: u64) -> (devs: Option<HashMap<u32, DeviceConnInfo>>)
        ensures
            devs matches Some(m) ==> self@.get_device_pool(clt) == Some(m@),
            devs is None ==> self@.get_device_pool(clt) is None,
    {
        match self.device_pool.get(&clt) {
            Some(m) => Some(m.clone()),
            None => None,
        }
    }

    /// The stream of the live session of device `dev` of client `clt`.
    pub fn get_client(&self, clt: u64, dev: u32) -> (stream: Option<u64>)
        ensures
            stream == self@.get_client(clt, dev),
    {
        match self.client_pool.get(&get_key(clt, dev)) {
            Some(e) => Some(e.stream),
            None => None,
        }
    }

    /// Sets the connection state of device `dev` of client `clt`, recording the client
    /// and the device when they are new.
    pub fn set_device_state(&mut self, clt: u64, dev: u32, state: DeviceConnState)
        requires
            old(self).wf(),
        ensures
            final(self).wf(),
            final(self)@ == old(self)@.set_device_state(clt, dev, state),
    {
        let ghost pre = *self;
        let mut inner = match self.device_pool.remove(&clt) {
            Some(m) => m,
            None => HashMap::new(),
        };
        proof {
            if pre.device_pool@.contains_key(clt) {
                assert(pre@.devices[clt] == inner@);
            } else {
                assert(inner@ =~= Map::<u32, DeviceConnInfo>::empty());
            }
        }
        let info = match inner.get(&dev) {
            Some(i) => DeviceConnInfo { deviceid: i.deviceid, device_state: state },
            None => DeviceConnInfo::new(dev, state),
        };
        inner.insert(dev, info);
        let ghost new_inner = inner@;
        self.device_pool.insert(clt, inner);
        proof {
            assert(self.device_pool@ =~= pre.device_pool@.insert(clt, self.device_pool@[clt]));
            pre.lemma_devices_insert(self, clt, new_inner);
            lemma_consistent_kept(pre@, clt, dev, state, 0, 0, Seq::empty());
        }
        assert(self@ =~= pre@.set_device_state(clt, dev, state));
    }

    /// Removes the session of device `dev` of client `clt`, marks the device offline
    /// when it is known, and returns the stream of the removed session.
    pub fn remove_client(&mut self, clt: u64, dev: u32) -> (stream: Option<u64>)
        requires
            old(self).wf(),
        ensures
            final(self).wf(),
            final(self)@ == old(self)@.remove_client(clt, dev),
            stream == old(self)@.get_client(clt, dev),
    {
        let ghost pre = *self;
        let mut marked = false;
        match self.device_pool.remove(&clt) {
            Some(m) => {
                let mut inner = m;
                let found = match inner.get(&dev) {
                    Some(i) => Some(*i),
                    None => None,
                };
                match found {
                    Some(i) => {
                        inner.insert(dev, DeviceConnInfo { deviceid: i.deviceid, device_state: DeviceConnState::StateOffline });
                        marked = true;
                    },
                    None => {},
                }
                let ghost new_inner = inner@;
                self.device_pool.insert(clt, inner);
                proof {
                    assert(self.device_pool@ =~= pre.device_pool@.insert(clt, self.device_pool@[clt]));
                    pre.lemma_devices_insert(self, clt, new_inner);
                    if !marked {
                        assert(new_inner == pre@.devices[clt]);
                        assert(pre@.devices.insert(clt, new_inner) =~= pre@.devices);
                    }
                }
            },
            None => {
                assert(self.device_pool@ =~= pre.device_pool@);
            },
        }
        let ghost mid = *self;
        let r = match self.client_pool.remove(&get_key(clt, dev)) {
            Some(e) => Some(e.stream),
            None => None,
        };
        assert(self@.devices =~= mid@.devices);
        proof {
            lemma_consistent_kept(pre@, clt, dev, DeviceConnState::StateOffline, 0, 0, Seq::empty());
        }
        assert(self@ =~= pre@.remove_client(clt, dev));
        r
    }

    /// Records the session of device `dev` of client `clt` on `stream`, expiring a
    /// time-out after `now`, marks the device online, and returns the inserted stream.
    pub fn put_client(&mut self, clt: u64, dev: u32, stream: u64, now: u64) -> (inserted: Option<u64>)
        requires
            old(self).wf(),
            time_ok(now),
        ensures
            final(self).wf(),
            final(self)@ == old(self)@.put_client(clt, dev, stream, now),
            inserted == Some(stream),
    {
        self.set_device_state(clt, dev, DeviceConnState::StateOnline);
        let ghost mid = *self;
        let key = get_key(clt, dev);
        self.client_pool.insert(key, ClientEntry { stream, expires: now + TIME_OUT_MS });
        let r = Some(stream);
        assert(self@.devices =~= mid@.devices);
        proof {
            lemma_consistent_kept(old(self)@, clt, dev, DeviceConnState::StateOnline, stream, now, Seq::empty());
        }
        assert(self@ =~= old(self)@.put_client(clt, dev, stream, now));
        r
    }

    /// Moves the expiry of the session of device `dev` of client `clt` to a time-out
    /// after `now` and returns the new expiry; `None` when there is no such session.
    pub fn update_client(&mut self, clt: u64, dev: u32, now: u64) -> (expires: Option<u64>)
        requires
            old(self).wf(),
            time_ok(now),
        ensures
            final(self).wf(),
            final(self)@ == old(self)@.update_client(clt, dev, now),
            old(self)@.clients.contains_key(key_of(clt, dev)) ==> expires == Some((now + TIME_OUT_MS) as u64),
            !old(self)@.clients.contains_key(key_of(clt, dev)) ==> expires is None,
    {
        let key = get_key(clt, dev);
        let found = match self.client_pool.get(&key) {
            Some(e) => Some(*e),
            None => None,
        };
        match found {
            Some(e) => {
                let ghost mid = *self;
                let ne = ClientEntry { stream: e.stream, expires: now + TIME_OUT_MS };
                self.client_pool.insert(key, ne);
                assert(self@.devices =~= mid@.devices);
                proof {
                    lemma_consistent_kept(old(self)@, clt, dev, DeviceConnState::StateOnline, 0, now, Seq::empty());
                }
                assert(self@ =~= old(self)@.update_client(clt, dev, now));
                Some(ne.expires)
            },
            None => None,
        }
    }

    /// Maps peer address `address` to the key of device `dev` of client `clt`, and
    /// returns the inserted key.
    #[verifier::loop_isolation(false)]
    pub fn put_addres(&mut self, address: String, clt: u64, dev: u32) -> (inserted: Option<u128>)
        requires
            old(self).wf(),
        ensures
            final(self).wf(),
            final(self)@ == old(self)@.put_addres(address@, clt, dev),
            inserted == Some(key_of(clt, dev)),
    {
        let ghost pre = *self;
        let key = get_key(clt, dev);
        proof {
            lemma_addr_map(self.ipadrs_pool@);
            lemma_consistent_kept(pre@, clt, dev, DeviceConnState::StateOnline, 0, 0, address@);
        }
        let mut i: usize = 0;
        while i < self.ipadrs_pool.len()
            invariant
                0 <= i <= self.ipadrs_pool@.len(),
                self.ipadrs_pool@ == pre.ipadrs_pool@,
                self.device_pool == pre.device_pool,
                self.client_pool == pre.client_pool,
                forall|j: int| 0 <= j < i ==> self.ipadrs_pool@[j].0@ != address@,
            decreases self.ipadrs_pool@.len() - i,
        {
            if self.ipadrs_pool[i].0 == address {
                let ghost s = self.ipadrs_pool@;
                self.ipadrs_pool.set(i, (address, key));
                proof {
                    lemma_addr_update(s, i as int, self.ipadrs_pool@[i as int]);
                }
                assert(self.device_pool@ == pre.device_pool@);
                assert(self@ =~= pre@.put_addres(self.ipadrs_pool@[i as int].0@, clt, dev));
                return Some(key);
            }
            i = i + 1;
        }
        let ghost s = self.ipadrs_pool@;
        let ghost a = address@;
        self.ipadrs_pool.push((address, key));
        proof {
            assert(self.ipadrs_pool@.drop_last() == s);
            assert(!addr_map(s).contains_key(a));
            assert(distinct_addrs(self.ipadrs_pool@)) by {
                assert forall|j: int, k: int| 0 <= j < k < self.ipadrs_pool@.len() implies
                    self.ipadrs_pool@[j].0@ != self.ipadrs_pool@[k].0@ by {
                    if k < s.len() {
                        assert(self.ipadrs_pool@[j] == s[j]);
                        assert(self.ipadrs_pool@[k] == s[k]);
                    } else {
                        assert(self.ipadrs_pool@[j] == s[j]);
                    }
                }
            }
        }
        assert(self@ =~= pre@.put_addres(a, clt, dev));
        Some(key)
    }

    /// The client key that peer address `address` maps to.
    #[verifier::loop_isolation(false)]
    pub fn get_addres(&self, address: &String) -> (key: Option<u128>)
        requires
            self.wf(),
        ensures
            key == self@.get_addres(address@),
    {
        proof {
            lemma_addr_map(self.ipadrs_pool@);
        }
        let mut i: usize = 0;
        while i < self.ipadrs_pool.len()
            invariant
                0 <= i <= self.ipadrs_pool@.len(),
                forall|j: int| 0 <= j < i ==> self.ipadrs_pool@[j].0@ != address@,
            decreases self.ipadrs_pool@.len() - i,
        {
            if self.ipadrs_pool[i].0 == *address {
                return Some(self.ipadrs_pool[i].1);
            }
            i = i + 1;
        }
        None
    }

    /// Removes peer address `address` from the address pool and returns the key it
    /// mapped to.
    #[verifier::loop_isolation(false)]
    pub fn remove_addres(&mut self, address: &String) -> (key: Option<u128>)
        requires
            old(self).wf(),
        ensures
            final(self).wf(),
            final(self)@ == old(self)@.remove_addres(address@),
            key == old(self)@.get_addres(address@),
    {
        let ghost pre = *self;
        proof {
            lemma_addr_map(self.ipadrs_pool@);
            lemma_consistent_kept(pre@, 0, 0, DeviceConnState::StateOnline, 0, 0, address@);
        }
        let mut i: usize = 0;
        while i < self.ipadrs_pool.len()
            invariant
                0 <= i <= self.ipadrs_pool@.len(),
                self.ipadrs_pool@ == pre.ipadrs_pool@,
                self.device_pool == pre.device_pool,
                self.client_pool == pre.client_pool,
                forall|j: int| 0 <= j < i ==> self.ipadrs_pool@[j].0@ != address@,
            decreases self.ipadrs_pool@.len() - i,
        {
            if self.ipadrs_pool[i].0 == *address {
                let ghost s = self.ipadrs_pool@;
                let removed = self.ipadrs_pool.remove(i);
                proof {
                    lemma_addr_remove(s, i as int);
                    assert(self.ipadrs_pool@ == s.remove(i as int));
                    assert(s[i as int].0@ == address@);
                    assert(self.device_pool@ == pre.device_pool@);
                    assert(self@.devices == pre@.devices);
                    assert(self@.addresses == pre@.addresses.remove(address@));
                }
                assert(self@ =~= pre@.remove_addres(address@));
                return Some(removed.1);
            }
            i = i + 1;
        }
        assert(!addr_map(pre.ipadrs_pool@).contains_key(address@));
        assert(pre@.addresses.remove(address@) =~= pre@.addresses);
        assert(self@ =~= pre@.remove_addres(address@));
        None
    }
}

impl ClientPoolManager {
    /// Drops every session whose expiry is not after `now`; the device and address
    /// pools stay.
    pub fn remove_expired(&mut self, now: u64)
        requires
            old(self).wf(),
        ensures
            final(self).wf(),
            final(self)@ == old(self)@.remove_expired(now),
    {
        let ghost pre = *self;
        let mut expired: Vec<u128> = Vec::new();
        for k in it: self.client_pool.keys()
            invariant
                self.client_pool@ == pre.client_pool@,
                it.seq().unref().to_set() == pre.client_pool@.dom(),
                forall|j: int| 0 <= j < expired@.len() ==> pre.client_pool@.contains_key(#[trigger] expired@[j])
                    && pre.client_pool@[expired@[j]].expires <= now,
                forall|j: int| 0 <= j < it.index() ==> pre.client_pool@.contains_key(*it.seq()[j])
                    && (#[trigger] pre.client_pool@[*it.seq()[j]]).expires <= now
                    ==> expired@.contains(*it.seq()[j]),
                it.index() == it.seq().len() ==> forall|key: u128| #[trigger] pre.client_pool@.contains_key(key)
                    && pre.client_pool@[key].expires <= now ==> expired@.contains(key),
        {
            let ghost before = expired@;
            match self.client_pool.get(k) {
                Some(e) => {
                    if e.expires <= now {
                        expired.push(*k);
                        assert(expired@[expired@.len() - 1] == *k);
                    }
                },
                None => {},
            }
            proof {
                assert forall|j: int| 0 <= j < before.len() implies expired@[j] == before[j] by {}
                assert forall|j: int| 0 <= j < it.index() && pre.client_pool@.contains_key(*it.seq()[j])
                    && (#[trigger] pre.client_pool@[*it.seq()[j]]).expires <= now
                    implies expired@.contains(*it.seq()[j]) by {
                    if j < it.index() - 1 {
                        let w = choose|w: int| 0 <= w < before.len() && before[w] == *it.seq()[j];
                        assert(expired@[w] == before[w]);
                    }
                }
                assert forall|key: u128| it.index() == it.seq().len() && #[trigger] pre.client_pool@.contains_key(key)
                    && pre.client_pool@[key].expires <= now implies expired@.contains(key) by {
                    assert(it.seq().unref().to_set().contains(key));
                    let j = choose|j: int| 0 <= j < it.seq().unref().len() && it.seq().unref()[j] == key;
                    assert(*it.seq()[j] == key);
                }
            }
        }
        let mut i: usize = 0;
        while i < expired.len()
            invariant
                0 <= i <= expired@.len(),
                self.device_pool == pre.device_pool,
                self.ipadrs_pool == pre.ipadrs_pool,
                forall|key: u128| #[trigger] self.client_pool@.contains_key(key) <==> (pre.client_pool@.contains_key(key)
                    && !(exists|j: int| 0 <= j < i && expired@[j] == key)),
                forall|key: u128| #[trigger] self.client_pool@.contains_key(key) ==> self.client_pool@[key] == pre.client_pool@[key],
            decreases expired@.len() - i,
        {
            let key = expired[i];
            self.client_pool.remove(&key);
            i = i + 1;
        }
        proof {
            assert forall|key: u128| #[trigger] self.client_pool@.contains_key(key) <==> (pre.client_pool@.contains_key(key)
                && pre.client_pool@[key].expires > now) by {
                if pre.client_pool@.contains_key(key) && pre.client_pool@[key].expires <= now {
                    assert(expired@.contains(key));
                    let j = choose|j: int| 0 <= j < expired@.len() && expired@[j] == key;
                }
                if exists|j: int| 0 <= j < expired@.len() && expired@[j] == key {
                    let j = choose|j: int| 0 <= j < expired@.len() && expired@[j] == key;
                    assert(pre.client_pool@[expired@[j]].expires <= now);
                }
            }
            assert(self@.clients =~= pre@.remove_expired(now).clients);
            assert(self@.devices =~= pre@.devices);
            lemma_consistent_kept(pre@, 0, 0, DeviceConnState::StateOnline, 0, now, Seq::empty());
        }
    }
}

} // verus!

verus! {

/// The text of an optional peer address.
pub open spec fn opt_addr(address: Option<String>) -> Option<Seq<char>> {
    match address {
        Some(a) => Some(a@),
        None => None,
    }
}

} // verus!
