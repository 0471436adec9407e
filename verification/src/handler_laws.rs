use vstd::prelude::*;

use crate::action::ServerAction;
use crate::client::DeviceConnState;
use crate::connservice::{
    key_client, key_device, key_of, lemma_key_injective, ClientEntry, PoolView,
    TIME_OUT_MS,
};
use crate::datagram::{BitCommand, ClientType, CommandInfo, InnerDataGram, MessageInfo, ReturnCode};
use crate::eventqueue::MessageEvent;
use crate::imserver::{receive_outcome, recognised};
use crate::login::{login_outcome, OT_LOGIN_CODE};
use crate::logout::{logout_outcome, LOGOUT_CODE};
use crate::pingpong::pingpong_outcome;
use crate::procommand::command_outcome;
use crate::propingpong::{flag_outcome, PINGPONG_CODE};
use crate::recefromclient::rece_outcome;
use crate::send::send_outcome;

verus! {

/// Whether device `d` of client `c` has a live session on stream `s` in `pool`.
pub open spec fn session_on(pool: PoolView, c: u64, d: u32, s: u64) -> bool {
    pool.clients.contains_key(key_of(c, d)) && pool.clients[key_of(c, d)].stream == s
}

/// Whether device `d` of client `c` is listed in `pool` with state `st`.
pub open spec fn listed_as(pool: PoolView, c: u64, d: u32, st: DeviceConnState) -> bool {
    pool.devices.contains_key(c) && pool.devices[c].contains_key(d) && pool.devices[c][d].device_state == st
}

/// A keep-alive flag is ignored, leaving the pool as it is, when it comes from no known
/// address, or when the device its address maps to has no live session.
pub proof fn law_flag_ignored_without_session(pool: PoolView, stm: u64, address: Option<Seq<char>>, now: u64)
    requires
        match address {
            None => true,
            Some(a) => !pool.addresses.contains_key(a) || !pool.clients.contains_key(
                key_of(key_client(pool.addresses[a]), key_device(pool.addresses[a])),
            ),
        },
    ensures
        flag_outcome(pool, stm, address, now) == (pool, Seq::<ServerAction>::empty()),
{
}

/// A keep-alive flag is answered with PONG, and only with PONG, exactly when its address
/// maps to a device whose live session is on the receiving stream; the session then
/// expires a time-out after the flag, on the same stream.
pub proof fn law_flag_pong_iff_session_here(pool: PoolView, stm: u64, address: Option<Seq<char>>, now: u64)
    requires
        now + TIME_OUT_MS <= u64::MAX,
    ensures
        ({
            let (p, actions) = flag_outcome(pool, stm, address, now);
            let here = address matches Some(a) && pool.addresses.contains_key(a) && session_on(
                pool,
                key_client(pool.addresses[a]),
                key_device(pool.addresses[a]),
                stm,
            );
            &&& (forall|i: int| 0 <= i < actions.len() ==> (#[trigger] actions[i] is Pong) ==> here && actions[i] == (ServerAction::Pong { stream: stm }))
            &&& here ==> actions == seq![ServerAction::Pong { stream: stm }]
            &&& here ==> ({
                let k = key_of(key_client(pool.addresses[address->0]), key_device(pool.addresses[address->0]));
                p.clients[k] == ClientEntry { stream: stm, expires: (now + TIME_OUT_MS) as u64 }
            })
        }),
{
}

/// A keep-alive flag whose address maps to a device whose live session is on another
/// stream closes both streams and forgets the address and the session.
pub proof fn law_flag_two_streams_closed(pool: PoolView, stm: u64, a: Seq<char>, now: u64)
    requires
        pool.addresses.contains_key(a),
        pool.clients.contains_key(key_of(key_client(pool.addresses[a]), key_device(pool.addresses[a]))),
        pool.clients[key_of(key_client(pool.addresses[a]), key_device(pool.addresses[a]))].stream != stm,
    ensures
        ({
            let k = key_of(key_client(pool.addresses[a]), key_device(pool.addresses[a]));
            let (p, actions) = flag_outcome(pool, stm, Some(a), now);
            &&& actions == seq![
                ServerAction::Close { stream: stm, code: PINGPONG_CODE },
                ServerAction::Close { stream: pool.clients[k].stream, code: PINGPONG_CODE },
            ]
            &&& !p.clients.contains_key(k)
            &&& !p.addresses.contains_key(a)
        }),
{
}

/// What a message from a client leads to. From a device whose live session is on the
/// receiving stream, the message is acknowledged with `ReturnOk`, its session expires a
/// time-out later, and it is queued with the event of its receiver type (person, group,
/// device, robot or service), or not at all for any other type. From a device with no
/// session, or whose session is on another stream, it is refused with `ReturnNotLogin`
/// or `ReturnTwoSessionNoSame` and the pool stays as it is.
pub proof fn law_message_from_client(pool: PoolView, m: MessageInfo, stm: u64, now: u64)
    requires
        now + TIME_OUT_MS <= u64::MAX,
    ensures
        ({
            let (p, actions) = rece_outcome(pool, m, stm, now);
            let k = key_of(m.sender, m.deviceid);
            let ok = ServerAction::MessageReceipt { stream: stm, returncode: Some(ReturnCode::ReturnOk) };
            &&& !pool.clients.contains_key(k) ==> p == pool && actions == seq![
                ServerAction::MessageReceipt { stream: stm, returncode: Some(ReturnCode::ReturnNotLogin) },
            ]
            &&& pool.clients.contains_key(k) && pool.clients[k].stream != stm ==> p == pool && actions == seq![
                ServerAction::MessageReceipt {
                    stream: stm,
                    returncode: Some(ReturnCode::ReturnTwoSessionNoSame),
                },
            ]
            &&& session_on(pool, m.sender, m.deviceid, stm) ==> {
                &&& p.clients[k] == ClientEntry { stream: stm, expires: (now + TIME_OUT_MS) as u64 }
                &&& m.receivertype == ClientType::ClientPeople ==> actions == seq![ok, ServerAction::Enqueue { event: MessageEvent::MessageReceive { reqmsggram: m } }]
                &&& m.receivertype == ClientType::ClientGroup ==> actions == seq![ok, ServerAction::Enqueue { event: MessageEvent::GroupReceive { reqmsggram: m } }]
                &&& m.receivertype == ClientType::ClientDevice ==> actions == seq![ok, ServerAction::Enqueue { event: MessageEvent::DeviceReceive { reqmsggram: m } }]
                &&& m.receivertype == ClientType::ClientRobot ==> actions == seq![ok, ServerAction::Enqueue { event: MessageEvent::RobotReceive { reqmsggram: m } }]
                &&& m.receivertype == ClientType::ClientService ==> actions == seq![ok, ServerAction::Enqueue { event: MessageEvent::ServiceReceive { reqmsggram: m } }]
                &&& m.receivertype == ClientType::ClientOther ==> actions == seq![ok]
            }
        }),
{
}

/// A message in the direct-send path is acknowledged and queued as a person-to-person
/// message whatever its receiver type, when its sender's session is on the receiving
/// stream, and refused otherwise as for a message from a client.
pub proof fn law_direct_send(pool: PoolView, m: MessageInfo, stm: u64, now: u64)
    requires
        now + TIME_OUT_MS <= u64::MAX,
    ensures
        ({
            let (p, actions) = send_outcome(pool, m, stm, now);
            let k = key_of(m.sender, m.deviceid);
            &&& !pool.clients.contains_key(k) ==> p == pool && actions == seq![
                ServerAction::MessageReceipt { stream: stm, returncode: Some(ReturnCode::ReturnNotLogin) },
            ]
            &&& pool.clients.contains_key(k) && pool.clients[k].stream != stm ==> p == pool && actions == seq![
                ServerAction::MessageReceipt {
                    stream: stm,
                    returncode: Some(ReturnCode::ReturnTwoSessionNoSame),
                },
            ]
            &&& session_on(pool, m.sender, m.deviceid, stm) ==> {
                &&& p.clients[k] == ClientEntry { stream: stm, expires: (now + TIME_OUT_MS) as u64 }
                &&& actions == seq![
                    ServerAction::MessageReceipt { stream: stm, returncode: Some(ReturnCode::ReturnOk) },
                    ServerAction::Enqueue { event: MessageEvent::MessageReceive { reqmsggram: m } },
                ]
            }
        }),
{
}

/// A received buffer is taken for a keep-alive flag first, then for a command whenever
/// it reads as one (whatever it reads as a message), then for a message; anything else
/// is not recognised and is sent back.
pub proof fn law_recognition(c: CommandInfo, m: MessageInfo, command: Option<CommandInfo>, message: Option<MessageInfo>)
    ensures
        recognised(true, command, message) == Some(InnerDataGram::Pingpong),
        recognised(false, Some(c), message) == Some(InnerDataGram::Command(c)),
        recognised(false, None, Some(m)) == Some(InnerDataGram::Message(m)),
        recognised(false, None, None) is None,
{
}

/// An unrecognised buffer is echoed on its stream and changes nothing; a recognised one
/// is never echoed.
pub proof fn law_echo_only_unrecognised(pool: PoolView, data: Option<InnerDataGram>, stm: u64, address: Option<Seq<char>>, now: u64)
    ensures
        data is None ==> receive_outcome(pool, data, stm, address, now) == (pool, seq![ServerAction::Echo { stream: stm }]),
        data matches Some(d) ==> receive_outcome(pool, data, stm, address, now) == match d {
            InnerDataGram::Command(c) => command_outcome(pool, c, stm, address, now),
            InnerDataGram::Message(mm) => rece_outcome(pool, mm, stm, now),
            InnerDataGram::Pingpong => flag_outcome(pool, stm, address, now),
        },
{
}

/// What a login of device `d` of client `c` on stream `stm` leads to, whatever the pool
/// held before: the device has a live session on `stm` expiring a time-out later, it is
/// listed online, the peer address (when known) maps to it, every other device keeps
/// its session; the login is answered first, and the one other action is the closing
/// of the stream of a session it displaces from another stream.
pub proof fn law_login(pool: PoolView, cmd: CommandInfo, stm: u64, address: Option<Seq<char>>, now: u64, c2: u64, d2: u32)
    requires
        now + TIME_OUT_MS <= u64::MAX,
    ensures
        ({
            let (p, actions) = login_outcome(pool, cmd, stm, address, now);
            let k = key_of(cmd.sender, cmd.deviceid);
            &&& p.clients.contains_key(k)
            &&& p.clients[k] == ClientEntry { stream: stm, expires: (now + TIME_OUT_MS) as u64 }
            &&& listed_as(p, cmd.sender, cmd.deviceid, DeviceConnState::StateOnline)
            &&& address matches Some(a) ==> p.addresses.contains_key(a) && p.addresses[a] == k
            &&& (c2 != cmd.sender || d2 != cmd.deviceid) ==> p.clients.contains_key(key_of(c2, d2))
                == pool.clients.contains_key(key_of(c2, d2)) && (pool.clients.contains_key(key_of(c2, d2))
                ==> p.clients[key_of(c2, d2)] == pool.clients[key_of(c2, d2)])
            &&& actions[0] == (ServerAction::CommandReply { stream: stm })
            &&& (pool.clients.contains_key(k) && pool.clients[k].stream != stm) ==> actions == seq![
                ServerAction::CommandReply { stream: stm },
                ServerAction::Close { stream: pool.clients[k].stream, code: OT_LOGIN_CODE },
            ]
            &&& !(pool.clients.contains_key(k) && pool.clients[k].stream != stm) ==> actions == seq![
                ServerAction::CommandReply { stream: stm },
            ]
        }),
{
    lemma_key_injective(cmd.sender, cmd.deviceid, c2, d2);
}

/// What a ping command of device `d` of client `c` on stream `stm` leads to, whatever the
/// pool held before: the device has a live session on `stm` expiring a time-out after
/// the ping, it is listed online, every other device keeps its session, and the ping is
/// answered.
pub proof fn law_ping_command(pool: PoolView, cmd: CommandInfo, stm: u64, now: u64, c2: u64, d2: u32)
    requires
        now + TIME_OUT_MS <= u64::MAX,
    ensures
        ({
            let (p, actions) = pingpong_outcome(pool, cmd, stm, now);
            let k = key_of(cmd.sender, cmd.deviceid);
            &&& p.clients.contains_key(k)
            &&& p.clients[k] == ClientEntry { stream: stm, expires: (now + TIME_OUT_MS) as u64 }
            &&& listed_as(p, cmd.sender, cmd.deviceid, DeviceConnState::StateOnline)
            &&& (c2 != cmd.sender || d2 != cmd.deviceid) ==> p.clients.contains_key(key_of(c2, d2))
                == pool.clients.contains_key(key_of(c2, d2)) && (pool.clients.contains_key(key_of(c2, d2))
                ==> p.clients[key_of(c2, d2)] == pool.clients[key_of(c2, d2)])
            &&& p.addresses == pool.addresses
            &&& actions == seq![ServerAction::CommandReply { stream: stm }]
        }),
{
    lemma_key_injective(cmd.sender, cmd.deviceid, c2, d2);
}

/// What a logout of device `d` of client `c` on stream `stm` leads to: the device has no
/// session, it is listed offline when it is listed, other devices keep their sessions;
/// the logout is answered, `stm` is closed, and so is the stream of the removed session
/// when that is another stream.
pub proof fn law_logout(pool: PoolView, cmd: CommandInfo, stm: u64, c2: u64, d2: u32)
    ensures
        ({
            let (p, actions) = logout_outcome(pool, cmd, stm);
            let k = key_of(cmd.sender, cmd.deviceid);
            let answer = seq![
                ServerAction::CommandReply { stream: stm },
                ServerAction::Close { stream: stm, code: LOGOUT_CODE },
            ];
            &&& !p.clients.contains_key(k)
            &&& pool.devices.contains_key(cmd.sender) && pool.devices[cmd.sender].contains_key(cmd.deviceid)
                ==> listed_as(p, cmd.sender, cmd.deviceid, DeviceConnState::StateOffline)
            &&& (c2 != cmd.sender || d2 != cmd.deviceid) ==> p.clients.contains_key(key_of(c2, d2))
                == pool.clients.contains_key(key_of(c2, d2)) && (pool.clients.contains_key(key_of(c2, d2))
                ==> p.clients[key_of(c2, d2)] == pool.clients[key_of(c2, d2)])
            &&& p.addresses == pool.addresses
            &&& (pool.clients.contains_key(k) && pool.clients[k].stream != stm) ==> actions == answer + seq![
                ServerAction::Close { stream: pool.clients[k].stream, code: LOGOUT_CODE },
            ]
            &&& !(pool.clients.contains_key(k) && pool.clients[k].stream != stm) ==> actions == answer
        }),
{
    lemma_key_injective(cmd.sender, cmd.deviceid, c2, d2);
}

/// A command datagram is handled by its command: a login as a login, a logout as a
/// logout, a ping as a ping; any other command changes nothing and asks for nothing.
pub proof fn law_command_dispatch(pool: PoolView, cmd: CommandInfo, stm: u64, address: Option<Seq<char>>, now: u64)
    ensures
        cmd.command == BitCommand::LoginCommand ==> command_outcome(pool, cmd, stm, address, now)
            == login_outcome(pool, cmd, stm, address, now),
        cmd.command == BitCommand::LogoutCommand ==> command_outcome(pool, cmd, stm, address, now)
            == logout_outcome(pool, cmd, stm),
        cmd.command == BitCommand::SendPing ==> command_outcome(pool, cmd, stm, address, now)
            == pingpong_outcome(pool, cmd, stm, now),
        cmd.command == BitCommand::OtherCommand ==> command_outcome(pool, cmd, stm, address, now)
            == (pool, Seq::<ServerAction>::empty()),
{
}

} // verus!
