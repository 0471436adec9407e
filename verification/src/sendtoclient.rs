use std::collections::HashMap;
use vstd::prelude::*;
use vstd::std_specs::iter::IteratorSpec;

use crate::action::ServerAction;
use crate::client::{DeviceConnInfo, DeviceConnState};
use crate::connservice::{key_of, ClientEntry, ClientPoolManager, PoolView};
use crate::datagram::MessageInfo;

verus! {

/// A listing of a device map: each device once, with its record, in some order.
pub open spec fn enumerates(e: Seq<(u32, DeviceConnInfo)>, m: Map<u32, DeviceConnInfo>) -> bool {
    &&& forall|i: int| 0 <= i < e.len() ==> m.contains_key(#[trigger] e[i].0) && m[e[i].0] == e[i].1
    &&& forall|i: int, j: int| 0 <= i < j < e.len() ==> e[i].0 != e[j].0
    &&& forall|d: u32| #[trigger] m.contains_key(d) ==> exists|i: int| 0 <= i < e.len() && e[i].0 == d
}

/// The pairs that a map iterator yields, as plain values.
pub open spec fn plain(s: Seq<(&u32, &DeviceConnInfo)>) -> Seq<(u32, DeviceConnInfo)> {
    s.map_values(|p: (&u32, &DeviceConnInfo)| (*p.0, *p.1))
}

/// The forwards of a message to client `receiver`, one for each online device in the
/// listing `devs` that has a live session, in the order of `devs`.
pub open spec fn deliveries(clients: Map<u128, ClientEntry>, receiver: u64, devs: Seq<(u32, DeviceConnInfo)>) -> Seq<
    ServerAction,
>
    decreases devs.len(),
{
    if devs.len() == 0 {
        Seq::empty()
    } else {
        let prev = deliveries(clients, receiver, devs.drop_last());
        let (did, info) = devs.last();
        let k = key_of(receiver, did);
        if info.device_state == DeviceConnState::StateOnline && clients.contains_key(k) {
            prev.push(ServerAction::Forward { stream: clients[k].stream })
        } else {
            prev
        }
    }
}

/// Whether `actions` deliver a message to client `receiver`: one forward to every
/// online device of the receiver with a live session on this server, taken in some
/// order of the receiver's devices; nothing when the receiver is unknown here.
pub open spec fn delivers_to(pool: PoolView, receiver: u64, actions: Seq<ServerAction>) -> bool {
    match pool.get_device_pool(receiver) {
        Some(devs) => exists|e: Seq<(u32, DeviceConnInfo)>|
            enumerates(e, devs) && actions == #[trigger] deliveries(pool.clients, receiver, e),
        None => actions == Seq::<ServerAction>::empty(),
    }
}

/// Whether `actions` deliver a queued person-to-person message to its receiver.
pub open spec fn delivers(pool: PoolView, m: MessageInfo, actions: Seq<ServerAction>) -> bool {
    delivers_to(pool, m.receiver, actions)
}

/// Lists the devices of a device map, each once, in the order the map yields them.
pub fn device_listing(devhash: &HashMap<u32, DeviceConnInfo>) -> (listing: Vec<(u32, DeviceConnInfo)>)
    ensures
        enumerates(listing@, devhash@),
{
    let ghost devs = devhash@;
    let iter = devhash.iter();
    proof {
        let v = iter.remaining();
        assert(v == vstd::std_specs::hash::spec_hash_map_iter(devhash).remaining());
        let e = plain(v);
        assert forall|i: int, j: int| 0 <= i < j < e.len() implies e[i].0 != e[j].0 by {
            if e[i].0 == e[j].0 {
                assert(devs[*v[i].0] == *v[i].1);
                assert(devs[*v[j].0] == *v[j].1);
                assert(v[i] == v[j]);
            }
        }
        assert forall|d: u32| #[trigger] devs.contains_key(d) implies exists|i: int|
            0 <= i < e.len() && e[i].0 == d by {
            assert(v.contains((&d, &devs[d])));
            let i = choose|i: int| 0 <= i < v.len() && v[i] == (&d, &devs[d]);
            assert(e[i].0 == d);
        }
    }
    let mut listing: Vec<(u32, DeviceConnInfo)> = Vec::new();
    for pair in it: iter
        invariant
            devs == devhash@,
            enumerates(plain(it.seq()), devs),
            listing@ == plain(it.seq()).take(it.index()),
            it.index() == it.seq().len() ==> enumerates(listing@, devs),
    {
        let (did, dci) = pair;
        assert(it.seq()[it.index()] == pair);
        listing.push((*did, *dci));
        assert(plain(it.seq()).take(it.index() + 1) =~= listing@);
        assert forall|d: u32| it.index() + 1 == it.seq().len() && #[trigger] devs.contains_key(d)
            implies exists|i: int| 0 <= i < listing@.len() && listing@[i].0 == d by {
            let e = plain(it.seq());
            let i = choose|i: int| 0 <= i < e.len() && e[i].0 == d;
            assert(e.take(e.len() as int) =~= e);
            assert(listing@[i] == e[i]);
        }
    }
    listing
}

/// Nothing is done yet for a device that is offline.
pub fn send_request_offline() {
}

/// Nothing is done yet for a device that runs in the background.
pub fn send_request_onback() {
}

/// The forward of the message to device `did` of client `clt`, when it has a live
/// session.
pub fn send_request_online(pool: &ClientPoolManager, clt: u64, did: u32) -> (action: Option<ServerAction>)
    ensures
        action == (match pool@.get_client(clt, did) {
            Some(s) => Some(ServerAction::Forward { stream: s }),
            None => None,
        }),
{
    match pool.get_client(clt, did) {
        Some(value) => Some(ServerAction::Forward { stream: value }),
        None => None,
    }
}

/// Forwards a message to the online devices of client `receiver`.
pub fn deliver_to(pool: &ClientPoolManager, receiver: u64) -> (actions: Vec<ServerAction>)
    ensures
        delivers_to(pool@, receiver, actions@),
{
    let mut actions: Vec<ServerAction> = Vec::new();
    match pool.get_device_pool(receiver) {
        Some(devhash) => {
            let listing = device_listing(&devhash);
            let ghost e = listing@;
            let mut i: usize = 0;
            while i < listing.len()
                invariant
                    0 <= i <= listing@.len(),
                    e == listing@,
                    actions@ == deliveries(pool@.clients, receiver, e.take(i as int)),
                decreases listing@.len() - i,
            {
                let (did, dci) = listing[i];
                assert(e.take(i as int + 1).drop_last() =~= e.take(i as int));
                match dci.device_state() {
                    DeviceConnState::StateOffline => {
                        send_request_offline();
                    },
                    DeviceConnState::StateOnBack => {
                        send_request_onback();
                    },
                    DeviceConnState::StateOnline => {
                        match send_request_online(pool, receiver, did) {
                            Some(a) => actions.push(a),
                            None => {},
                        }
                    },
                    DeviceConnState::StateOther => {},
                }
                i = i + 1;
            }
            assert(e.take(e.len() as int) =~= e);
        },
        None => {},
    }
    actions
}

/// Delivers a queued person-to-person message to the receiver's devices.
pub fn send_message_to_client(pool: &ClientPoolManager, reqmsggram: &MessageInfo) -> (actions: Vec<ServerAction>)
    ensures
        delivers(pool@, *reqmsggram, actions@),
{
    deliver_to(pool, reqmsggram.receiver)
}

} // verus!
