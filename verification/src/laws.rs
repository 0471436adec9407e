use vstd::prelude::*;

use crate::action::ServerAction;
use crate::client::{DeviceConnInfo, DeviceConnState};
use crate::connservice::{
    key_client, key_device, key_of, lemma_key_injective, ClientEntry, lemma_key_roundtrip, pow64, PoolView,
    TIME_OUT_MS,
};
use crate::message::{direct_delivers, session_forwards};
use crate::group::grpmessage::{fans_out, group_outcome, joined};
use crate::sendtoclient::{deliveries, delivers_to, enumerates};
use crate::datagram::{CommandInfo, MessageInfo, ReturnCode};
use crate::login::{login_outcome, OT_LOGIN_CODE};
use crate::logout::logout_outcome;
use crate::propingpong::flag_outcome;
use crate::recefromclient::{rece_outcome, receipt};

verus! {

/// Joining the two halves of a key gives the key back exactly when the bits between
/// the device id and the client id are clear.
pub proof fn lemma_key_rejoin(key: u128)
    ensures
        key_of(key_client(key), key_device(key)) == key <==> key as int % pow64() < 0x1_0000_0000,
{
    let k = key as int;
    let c = k / pow64();
    let r = k % pow64();
    assert(k == c * pow64() + r && 0 <= r < pow64() && 0 <= c < pow64()) by (nonlinear_arith)
        requires
            c == k / pow64(),
            r == k % pow64(),
            0 <= k < 0x1_0000_0000_0000_0000_0000_0000_0000_0000,
            pow64() == 0x1_0000_0000_0000_0000,
    ;
    assert(k % 0x1_0000_0000 == r % 0x1_0000_0000) by (nonlinear_arith)
        requires
            k == c * pow64() + r,
            pow64() == 0x1_0000_0000_0000_0000,
    ;
    assert(key_client(key) as int == c);
    assert(key_device(key) as int == r % 0x1_0000_0000);
    let v = c * pow64() + r % 0x1_0000_0000;
    assert(0 <= v < 0x1_0000_0000_0000_0000_0000_0000_0000_0000) by (nonlinear_arith)
        requires
            v == c * pow64() + r % 0x1_0000_0000,
            0 <= c < pow64(),
            0 <= r < pow64(),
            pow64() == 0x1_0000_0000_0000_0000,
    ;
    assert(key_of(key_client(key), key_device(key)) as int == v);
}

/// After a session is recorded, looking the device up gives the recorded stream, and
/// the device is listed as online.
pub proof fn lemma_put_then_get(pool: PoolView, clt: u64, dev: u32, stream: u64, now: u64)
    ensures
        pool.put_client(clt, dev, stream, now).get_client(clt, dev) == Some(stream),
        pool.put_client(clt, dev, stream, now).devices[clt].contains_key(dev),
        pool.put_client(clt, dev, stream, now).devices[clt][dev].device_state
            == DeviceConnState::StateOnline,
{
}

/// After a session is removed, the device has no session, and when it is listed it is
/// offline.
pub proof fn lemma_remove_then_get(pool: PoolView, clt: u64, dev: u32)
    ensures
        pool.remove_client(clt, dev).get_client(clt, dev) is None,
        pool.devices.contains_key(clt) && pool.devices[clt].contains_key(dev) ==> pool.remove_client(
            clt,
            dev,
        ).devices[clt][dev].device_state == DeviceConnState::StateOffline,
{
}

/// Which session each operation leaves for device `d2` of client `c2`: recording or
/// removing the session of another device, changing device states, extending any
/// session and changing the address pool leave it as it was; a sweep keeps it exactly
/// when it expires after the sweep.
pub proof fn lemma_session_frame(
    pool: PoolView,
    clt: u64,
    dev: u32,
    c2: u64,
    d2: u32,
    stream: u64,
    st: DeviceConnState,
    now: u64,
    address: Seq<char>,
)
    ensures
        (c2 != clt || d2 != dev) ==> pool.put_client(clt, dev, stream, now).get_client(c2, d2)
            == pool.get_client(c2, d2),
        (c2 != clt || d2 != dev) ==> pool.remove_client(clt, dev).get_client(c2, d2) == pool.get_client(
            c2,
            d2,
        ),
        pool.set_device_state(clt, dev, st).get_client(c2, d2) == pool.get_client(c2, d2),
        pool.update_client(clt, dev, now).get_client(c2, d2) == pool.get_client(c2, d2),
        pool.put_addres(address, clt, dev).get_client(c2, d2) == pool.get_client(c2, d2),
        pool.remove_addres(address).get_client(c2, d2) == pool.get_client(c2, d2),
        pool.remove_expired(now).get_client(c2, d2) == (if pool.clients.contains_key(key_of(c2, d2))
            && pool.clients[key_of(c2, d2)].expires > now {
            pool.get_client(c2, d2)
        } else {
            None
        }),
{
    lemma_key_injective(clt, dev, c2, d2);
}

/// One operation on the pools.
pub enum PoolOp {
    SetDeviceState { clt: u64, dev: u32, st: DeviceConnState },
    PutClient { clt: u64, dev: u32, stream: u64, now: u64 },
    RemoveClient { clt: u64, dev: u32 },
    UpdateClient { clt: u64, dev: u32, now: u64 },
    RemoveExpired { now: u64 },
    PutAddres { address: Seq<char>, clt: u64, dev: u32 },
    RemoveAddres { address: Seq<char> },
}

/// The pool after one operation.
pub open spec fn apply_op(pool: PoolView, op: PoolOp) -> PoolView {
    match op {
        PoolOp::SetDeviceState { clt, dev, st } => pool.set_device_state(clt, dev, st),
        PoolOp::PutClient { clt, dev, stream, now } => pool.put_client(clt, dev, stream, now),
        PoolOp::RemoveClient { clt, dev } => pool.remove_client(clt, dev),
        PoolOp::UpdateClient { clt, dev, now } => pool.update_client(clt, dev, now),
        PoolOp::RemoveExpired { now } => pool.remove_expired(now),
        PoolOp::PutAddres { address, clt, dev } => pool.put_addres(address, clt, dev),
        PoolOp::RemoveAddres { address } => pool.remove_addres(address),
    }
}

/// The pool after a sequence of operations, in order.
pub open spec fn apply_ops(pool: PoolView, ops: Seq<PoolOp>) -> PoolView
    decreases ops.len(),
{
    if ops.len() == 0 {
        pool
    } else {
        apply_op(apply_ops(pool, ops.drop_last()), ops.last())
    }
}

/// Whether an operation records a session of device `d` of client `c`.
pub open spec fn puts(op: PoolOp, c: u64, d: u32) -> bool {
    op matches PoolOp::PutClient { clt, dev, .. } && clt == c && dev == d
}

/// Whether an operation can end a session of device `d` of client `c`.
pub open spec fn ends(op: PoolOp, c: u64, d: u32) -> bool {
    ||| (op matches PoolOp::RemoveClient { clt, dev } && clt == c && dev == d)
    ||| op is RemoveExpired
}

proof fn lemma_step(pool: PoolView, op: PoolOp, c: u64, d: u32)
    ensures
        !puts(op, c, d) ==> (apply_op(pool, op).get_client(c, d) is None || apply_op(pool, op).get_client(c, d)
            == pool.get_client(c, d)),
        !puts(op, c, d) && !ends(op, c, d) ==> apply_op(pool, op).get_client(c, d) == pool.get_client(c, d),
{
    match op {
        PoolOp::SetDeviceState { clt, dev, st } => lemma_session_frame(pool, clt, dev, c, d, 0, st, 0, Seq::empty()),
        PoolOp::PutClient { clt, dev, stream, now } => lemma_session_frame(pool, clt, dev, c, d, stream, DeviceConnState::StateOnline, now, Seq::empty()),
        PoolOp::RemoveClient { clt, dev } => lemma_session_frame(pool, clt, dev, c, d, 0, DeviceConnState::StateOnline, 0, Seq::empty()),
        PoolOp::UpdateClient { clt, dev, now } => lemma_session_frame(pool, clt, dev, c, d, 0, DeviceConnState::StateOnline, now, Seq::empty()),
        PoolOp::RemoveExpired { now } => lemma_session_frame(pool, 0, 0, c, d, 0, DeviceConnState::StateOnline, now, Seq::empty()),
        PoolOp::PutAddres { address, clt, dev } => lemma_session_frame(pool, clt, dev, c, d, 0, DeviceConnState::StateOnline, 0, address),
        PoolOp::RemoveAddres { address } => lemma_session_frame(pool, 0, 0, c, d, 0, DeviceConnState::StateOnline, 0, address),
    }
}

/// A recorded session keeps its stream until the device records another one: whatever
/// other operations follow, looking the device up gives that stream or nothing; and it
/// gives that stream for as long as the session is neither removed nor swept.
pub proof fn lemma_session_persists(pool: PoolView, ops: Seq<PoolOp>, c: u64, d: u32, s: u64)
    requires
        pool.get_client(c, d) == Some(s),
        forall|i: int| 0 <= i < ops.len() ==> !puts(#[trigger] ops[i], c, d),
    ensures
        apply_ops(pool, ops).get_client(c, d) is None || apply_ops(pool, ops).get_client(c, d) == Some(s),
        (forall|i: int| 0 <= i < ops.len() ==> !ends(#[trigger] ops[i], c, d)) ==> apply_ops(pool, ops).get_client(c, d)
            == Some(s),
    decreases ops.len(),
{
    if ops.len() > 0 {
        let init = ops.drop_last();
        assert forall|i: int| 0 <= i < init.len() implies !puts(#[trigger] init[i], c, d) by {
            assert(init[i] == ops[i]);
        }
        lemma_session_persists(pool, init, c, d, s);
        assert(ops.last() == ops[ops.len() - 1]);
        lemma_step(apply_ops(pool, init), ops.last(), c, d);
        if forall|i: int| 0 <= i < ops.len() ==> !ends(#[trigger] ops[i], c, d) {
            assert forall|i: int| 0 <= i < init.len() implies !ends(#[trigger] init[i], c, d) by {
                assert(init[i] == ops[i]);
            }
        }
    }
}

/// A device without a session has none until a session is recorded for it.
pub proof fn lemma_absence_persists(pool: PoolView, ops: Seq<PoolOp>, c: u64, d: u32)
    requires
        pool.get_client(c, d) is None,
        forall|i: int| 0 <= i < ops.len() ==> !puts(#[trigger] ops[i], c, d),
    ensures
        apply_ops(pool, ops).get_client(c, d) is None,
    decreases ops.len(),
{
    if ops.len() > 0 {
        let init = ops.drop_last();
        assert forall|i: int| 0 <= i < init.len() implies !puts(#[trigger] init[i], c, d) by {
            assert(init[i] == ops[i]);
        }
        lemma_absence_persists(pool, init, c, d);
        assert(ops.last() == ops[ops.len() - 1]);
        lemma_step(apply_ops(pool, init), ops.last(), c, d);
    }
}

/// A recorded peer address leads back to the client and device it was recorded for.
pub proof fn lemma_address_roundtrip(pool: PoolView, address: Seq<char>, clt: u64, dev: u32)
    ensures
        pool.put_addres(address, clt, dev).get_addres(address) == Some(key_of(clt, dev)),
        key_client(key_of(clt, dev)) == clt,
        key_device(key_of(clt, dev)) == dev,
{
    lemma_key_roundtrip(clt, dev);
}

/// A session extended at `now` survives every sweep made before a full time-out has
/// passed, and is dropped by any sweep made after it.
pub proof fn lemma_refresh_then_sweep(pool: PoolView, clt: u64, dev: u32, now: u64, later: u64)
    requires
        pool.clients.contains_key(key_of(clt, dev)),
        now + TIME_OUT_MS <= u64::MAX,
    ensures
        later < now + TIME_OUT_MS ==> pool.update_client(clt, dev, now).remove_expired(later).get_client(clt, dev)
            == pool.get_client(clt, dev),
        later >= now + TIME_OUT_MS ==> pool.update_client(clt, dev, now).remove_expired(later).get_client(clt, dev) is None,
{
}

/// A sweep keeps exactly the sessions that expire after it.
pub proof fn lemma_sweep_keeps_live(pool: PoolView, now: u64, key: u128)
    ensures
        pool.remove_expired(now).clients.contains_key(key) <==> (pool.clients.contains_key(key)
            && pool.clients[key].expires > now),
{
}

/// A keep-alive sent on the stream a device logged in on, from the address it logged in
/// from, is answered with PONG and extends the session.
pub proof fn lemma_login_then_ping(
    pool: PoolView,
    cmd: CommandInfo,
    stm: u64,
    address: Seq<char>,
    now: u64,
    later: u64,
)
    ensures
        ({
            let after_login = login_outcome(pool, cmd, stm, Some(address), now).0;
            let (p, actions) = flag_outcome(after_login, stm, Some(address), later);
            &&& actions == seq![ServerAction::Pong { stream: stm }]
            &&& p == after_login.update_client(cmd.sender, cmd.deviceid, later)
        }),
{
    let after_login = login_outcome(pool, cmd, stm, Some(address), now).0;
    lemma_key_roundtrip(cmd.sender, cmd.deviceid);
    lemma_put_then_get(pool.put_addres(address, cmd.sender, cmd.deviceid), cmd.sender, cmd.deviceid, stm, now);
    assert(after_login.get_addres(address) == Some(key_of(cmd.sender, cmd.deviceid)));
}

/// A message sent on the stream its sender's device logged in on is acknowledged with
/// `ReturnOk`.
pub proof fn lemma_login_then_message(
    pool: PoolView,
    cmd: CommandInfo,
    stm: u64,
    address: Option<Seq<char>>,
    now: u64,
    m: MessageInfo,
    later: u64,
)
    requires
        m.sender == cmd.sender,
        m.deviceid == cmd.deviceid,
    ensures
        rece_outcome(login_outcome(pool, cmd, stm, address, now).0, m, stm, later).1[0] == receipt(
            stm,
            ReturnCode::ReturnOk,
        ),
{
    let with_addr = match address {
        Some(a) => pool.put_addres(a, cmd.sender, cmd.deviceid),
        None => pool,
    };
    lemma_put_then_get(with_addr, cmd.sender, cmd.deviceid, stm, now);
}

/// After a logout, messages from the device are refused as not logged in and change
/// nothing.
pub proof fn lemma_logout_then_message(pool: PoolView, cmd: CommandInfo, stm: u64, m: MessageInfo, other: u64, later: u64)
    requires
        m.sender == cmd.sender,
        m.deviceid == cmd.deviceid,
    ensures
        ({
            let after = logout_outcome(pool, cmd, stm).0;
            rece_outcome(after, m, other, later) == (after, seq![receipt(other, ReturnCode::ReturnNotLogin)])
        }),
{
    lemma_remove_then_get(pool, cmd.sender, cmd.deviceid);
}

/// A second login of a device on another stream closes the stream of the first one; a
/// second login on the same stream closes nothing and only answers.
pub proof fn lemma_relogin_closes_previous(
    pool: PoolView,
    cmd: CommandInfo,
    first: u64,
    second: u64,
    a1: Option<Seq<char>>,
    a2: Option<Seq<char>>,
    now: u64,
    later: u64,
)
    ensures
        first != second ==> login_outcome(login_outcome(pool, cmd, first, a1, now).0, cmd, second, a2, later).1
            == seq![
            ServerAction::CommandReply { stream: second },
            ServerAction::Close { stream: first, code: OT_LOGIN_CODE },
        ],
        first == second ==> login_outcome(login_outcome(pool, cmd, first, a1, now).0, cmd, second, a2, later).1
            == seq![ServerAction::CommandReply { stream: second }],
{
    let with_addr = match a1 {
        Some(a) => pool.put_addres(a, cmd.sender, cmd.deviceid),
        None => pool,
    };
    lemma_put_then_get(with_addr, cmd.sender, cmd.deviceid, first, now);
    let (_, acts) = login_outcome(login_outcome(pool, cmd, first, a1, now).0, cmd, second, a2, later);
    if first != second {
        assert(acts =~= seq![
            ServerAction::CommandReply { stream: second },
            ServerAction::Close { stream: first, code: OT_LOGIN_CODE },
        ]);
    } else {
        assert(acts =~= seq![ServerAction::CommandReply { stream: second }]);
    }
}

/// Every message to a group is handed to the group's process; the process is started
/// with the first message, and later messages only deliver.
pub proof fn lemma_group_always_delivers(groups: Set<u64>, g: u64)
    ensures
        group_outcome(groups, g).1.last() == (ServerAction::GroupDeliver { group: g }),
        group_outcome(groups, g).0.contains(g),
        !groups.contains(g) ==> group_outcome(groups, g).1 == seq![
            ServerAction::GroupCreate { group: g },
            ServerAction::GroupDeliver { group: g },
        ],
        group_outcome(group_outcome(groups, g).0, g) == (group_outcome(groups, g).0, seq![ServerAction::GroupDeliver { group: g }]),
{
}

proof fn lemma_deliveries_reach(clients: Map<u128, ClientEntry>, r: u64, e: Seq<(u32, DeviceConnInfo)>, i: int)
    requires
        0 <= i < e.len(),
        e[i].1.device_state == DeviceConnState::StateOnline,
        clients.contains_key(key_of(r, e[i].0)),
    ensures
        deliveries(clients, r, e).contains(ServerAction::Forward { stream: clients[key_of(r, e[i].0)].stream }),
    decreases e.len(),
{
    let a = ServerAction::Forward { stream: clients[key_of(r, e[i].0)].stream };
    if i == e.len() - 1 {
        let out = deliveries(clients, r, e);
        assert(out[out.len() - 1] == a);
    } else {
        let init = e.drop_last();
        assert(init[i] == e[i]);
        lemma_deliveries_reach(clients, r, init, i);
        let prev = deliveries(clients, r, init);
        let j = choose|j: int| 0 <= j < prev.len() && prev[j] == a;
        assert(deliveries(clients, r, e)[j] == a);
    }
}

proof fn lemma_forwards_reach(clients: Map<u128, ClientEntry>, r: u64, e: Seq<(u32, DeviceConnInfo)>, i: int)
    requires
        0 <= i < e.len(),
        clients.contains_key(key_of(r, e[i].0)),
    ensures
        session_forwards(clients, r, e).contains(ServerAction::Forward { stream: clients[key_of(r, e[i].0)].stream }),
    decreases e.len(),
{
    let a = ServerAction::Forward { stream: clients[key_of(r, e[i].0)].stream };
    if i == e.len() - 1 {
        let out = session_forwards(clients, r, e);
        assert(out[out.len() - 1] == a);
    } else {
        let init = e.drop_last();
        assert(init[i] == e[i]);
        lemma_forwards_reach(clients, r, init, i);
        let prev = session_forwards(clients, r, init);
        let j = choose|j: int| 0 <= j < prev.len() && prev[j] == a;
        assert(session_forwards(clients, r, e)[j] == a);
    }
}

/// A delivery to a client reaches every online device of the client that has a live
/// session.
pub proof fn lemma_delivery_reaches_online_sessions(pool: PoolView, r: u64, actions: Seq<ServerAction>, d: u32)
    requires
        delivers_to(pool, r, actions),
        pool.devices.contains_key(r),
        pool.devices[r].contains_key(d),
        pool.devices[r][d].device_state == DeviceConnState::StateOnline,
        pool.get_client(r, d) is Some,
    ensures
        actions.contains(ServerAction::Forward { stream: pool.get_client(r, d)->0 }),
{
    let devs = pool.devices[r];
    let e = choose|e: Seq<(u32, DeviceConnInfo)>|
        enumerates(e, devs) && actions == #[trigger] deliveries(pool.clients, r, e);
    let i = choose|i: int| 0 <= i < e.len() && e[i].0 == d;
    lemma_deliveries_reach(pool.clients, r, e, i);
}

proof fn lemma_joined_contains(parts: Seq<Seq<ServerAction>>, i: int, a: ServerAction)
    requires
        0 <= i < parts.len(),
        parts[i].contains(a),
    ensures
        joined(parts).contains(a),
    decreases parts.len(),
{
    let init = parts.drop_last();
    let k = choose|k: int| 0 <= k < parts[i].len() && parts[i][k] == a;
    if i == parts.len() - 1 {
        assert(joined(parts)[joined(init).len() + k] == a);
    } else {
        assert(init[i] == parts[i]);
        lemma_joined_contains(init, i, a);
        let k2 = choose|k2: int| 0 <= k2 < joined(init).len() && joined(init)[k2] == a;
        assert(joined(parts)[k2] == a);
    }
}

/// A group message reaches every online device, with a live session, of every member
/// of the group.
pub proof fn lemma_group_reaches_members(pool: PoolView, members: Seq<u64>, actions: Seq<ServerAction>, i: int, d: u32)
    requires
        fans_out(pool, members, actions),
        0 <= i < members.len(),
        pool.devices.contains_key(members[i]),
        pool.devices[members[i]].contains_key(d),
        pool.devices[members[i]][d].device_state == DeviceConnState::StateOnline,
        pool.get_client(members[i], d) is Some,
    ensures
        actions.contains(ServerAction::Forward { stream: pool.get_client(members[i], d)->0 }),
{
    let parts = choose|parts: Seq<Seq<ServerAction>>|
        parts.len() == members.len() && (forall|j: int|
            0 <= j < members.len() ==> delivers_to(pool, members[j], #[trigger] parts[j]))
            && actions == #[trigger] joined(parts);
    assert(delivers_to(pool, members[i], parts[i]));
    lemma_delivery_reaches_online_sessions(pool, members[i], parts[i], d);
    lemma_joined_contains(parts, i, ServerAction::Forward { stream: pool.get_client(members[i], d)->0 });
}

/// In a consistent pool, the direct delivery of a message reaches every device of its
/// receiver that has a live session.
pub proof fn lemma_direct_delivery_reaches_sessions(pool: PoolView, m: MessageInfo, stm: u64, actions: Seq<ServerAction>, d: u32)
    requires
        pool.consistent(),
        direct_delivers(pool, m, stm, actions),
        pool.get_client(m.receiver, d) is Some,
    ensures
        actions.contains(ServerAction::Forward { stream: pool.get_client(m.receiver, d)->0 }),
{
    let k = key_of(m.receiver, d);
    lemma_key_roundtrip(m.receiver, d);
    assert(pool.clients.contains_key(k));
    let devs = pool.devices[m.receiver];
    assert(devs.contains_key(d));
    let receipt = seq![ServerAction::MessageReceipt { stream: stm, returncode: None }];
    let e = choose|e: Seq<(u32, DeviceConnInfo)>|
        enumerates(e, devs) && actions == receipt + #[trigger] session_forwards(pool.clients, m.receiver, e);
    let i = choose|i: int| 0 <= i < e.len() && e[i].0 == d;
    lemma_forwards_reach(pool.clients, m.receiver, e, i);
    let f = session_forwards(pool.clients, m.receiver, e);
    let j = choose|j: int| 0 <= j < f.len() && f[j] == ServerAction::Forward { stream: pool.get_client(m.receiver, d)->0 };
    assert(actions[j + 1] == f[j]);
}

} // verus!
