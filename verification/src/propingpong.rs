use vstd::prelude::*;

use crate::action::ServerAction;
use crate::connservice::{
    get_cd_by_key, key_client, key_device, opt_addr, time_ok, ClientPoolManager, PoolView,
};

verus! {

/// Application code with which streams are closed when a keep-alive finds two
/// sessions for one device.
pub const PINGPONG_CODE: u32 = 0x000A;

/// The pool and the actions after a keep-alive flag on stream `stm` from peer
/// `address`. When the address maps to a device with a live session on `stm`, the
/// session is extended and answered with PONG; when that session is on another stream,
/// the address and the session are removed and both streams are closed; otherwise
/// nothing happens.
pub open spec fn flag_outcome(pool: PoolView, stm: u64, address: Option<Seq<char>>, now: u64) -> (
    PoolView,
    Seq<ServerAction>,
) {
    match address {
        None => (pool, Seq::empty()),
        Some(a) => match pool.get_addres(a) {
            None => (pool, Seq::empty()),
            Some(key) => {
                let c = key_client(key);
                let d = key_device(key);
                match pool.get_client(c, d) {
                    None => (pool, Seq::empty()),
                    Some(o) => if o == stm {
                        (pool.update_client(c, d, now), seq![ServerAction::Pong { stream: stm }])
                    } else {
                        (
                            pool.remove_addres(a).remove_client(c, d),
                            seq![
                                ServerAction::Close { stream: stm, code: PINGPONG_CODE },
                                ServerAction::Close { stream: o, code: PINGPONG_CODE },
                            ],
                        )
                    },
                }
            },
        },
    }
}

/// Handles a keep-alive flag received on stream `stm` from peer `address`.
pub fn process_bitcomm_flag_data(
    pool: &mut ClientPoolManager,
    stm: u64,
    address: Option<String>,
    now: u64,
) -> (actions: Vec<ServerAction>)
    requires
        old(pool).wf(),
        time_ok(now),
    ensures
        final(pool).wf(),
        (final(pool)@, actions@) == flag_outcome(old(pool)@, stm, opt_addr(address), now),
{
    let ghost pre = pool@;
    let mut actions: Vec<ServerAction> = Vec::new();
    match address {
        Some(a) => {
            match pool.get_addres(&a) {
                Some(key) => {
                    let (client, device) = get_cd_by_key(key);
                    match pool.get_client(client, device) {
                        Some(ostm) => {
                            if ostm == stm {
                                pool.update_client(client, device, now);
                                actions.push(ServerAction::Pong { stream: stm });
                            } else {
                                pool.remove_addres(&a);
                                pool.remove_client(client, device);
                                actions.push(ServerAction::Close { stream: stm, code: PINGPONG_CODE });
                                actions.push(ServerAction::Close { stream: ostm, code: PINGPONG_CODE });
                            }
                        },
                        None => {},
                    }
                },
                None => {},
            }
        },
        None => {},
    }
    assert(actions@ =~= flag_outcome(pre, stm, opt_addr(address), now).1);
    actions
}

} // verus!
