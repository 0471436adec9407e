use imserver::action::ServerAction;
use imserver::client::{DeviceConnInfo, DeviceConnState};
use imserver::connservice::{get_key, ClientPoolManager, TIME_OUT_MS};
use imserver::datagram::{BitCommand, ClientType, CommandInfo, InnerDataGram, MessageInfo, ReturnCode};
use imserver::eventqueue::MessageEvent;
use imserver::group::grpmessage::{deliver_to_members, send_group_message_to_all};
use imserver::group::GroupMessageRegistry;
use imserver::imserver::{
    get_imserver_port, prepare_data_buffer, process_data, process_received, BITCOMM_IMSERVER,
    BITCOMM_IMSERVER_PORT,
};
use imserver::login::{process_command_login, OT_LOGIN_CODE};
use imserver::logout::{process_command_logout, LOGOUT_CODE};
use imserver::message;
use imserver::mqserver::process_message_event;
use imserver::pingpong::process_command_pingpong;
use imserver::procommand::process_command_data;
use imserver::promessage::process_message_data;
use imserver::propingpong::{process_bitcomm_flag_data, PINGPONG_CODE};
use imserver::recefromclient::{
    rece_message_from_client, send_message_notlogin, send_message_receipt, send_message_to_queue,
    send_message_twosession_nosame,
};
use imserver::send::send_message;
use imserver::sendtoclient::{
    deliver_to, send_message_to_client, send_request_offline, send_request_onback, send_request_online,
};


fn devices(pool: &ClientPoolManager, clt: u64) -> Option<Vec<DeviceConnInfo>> {
    pool.get_device_pool(clt).map(|m| {
        let mut v: Vec<DeviceConnInfo> = m.values().copied().collect();
        v.sort_by_key(|d| d.deviceid);
        v
    })
}

fn cmd(sender: u64, deviceid: u32, command: BitCommand) -> CommandInfo {
    CommandInfo { sender, deviceid, command }
}

fn msg(sender: u64, deviceid: u32, receiver: u64, receivertype: ClientType) -> MessageInfo {
    MessageInfo { sender, deviceid, receiver, receivertype }
}

fn receipt(stream: u64, code: ReturnCode) -> ServerAction {
    ServerAction::MessageReceipt { stream, returncode: Some(code) }
}

#[test]
fn listening_address() {
    assert_eq!(get_imserver_port(), "0.0.0.0:1130");
    assert_eq!(format!("{}:{}", BITCOMM_IMSERVER, BITCOMM_IMSERVER_PORT), get_imserver_port());
}

#[test]
fn recognition_order() {
    let c = cmd(1, 1, BitCommand::LoginCommand);
    let m = msg(1, 1, 2, ClientType::ClientPeople);
    assert_eq!(prepare_data_buffer(true, Some(c), Some(m)), Some(InnerDataGram::Pingpong));
    assert_eq!(prepare_data_buffer(false, Some(c), Some(m)), Some(InnerDataGram::Command(c)));
    assert_eq!(prepare_data_buffer(false, None, Some(m)), Some(InnerDataGram::Message(m)));
    assert_eq!(prepare_data_buffer(false, None, None), None);
}

#[test]
fn login_records_session_and_address() {
    let mut pool = ClientPoolManager::new();
    let c = cmd(5, 2, BitCommand::LoginCommand);
    let acts = process_command_login(&mut pool, &c, 100, Some(String::from("1.2.3.4:9")), 0);
    assert_eq!(acts, vec![ServerAction::CommandReply { stream: 100 }]);
    assert_eq!(pool.get_client(5, 2), Some(100));
    assert_eq!(pool.get_addres(&String::from("1.2.3.4:9")), Some(get_key(5, 2)));
    assert_eq!(devices(&pool, 5).unwrap(), vec![DeviceConnInfo::new(2, DeviceConnState::StateOnline)]);
}

#[test]
fn relogin_closes_previous_stream() {
    let mut pool = ClientPoolManager::new();
    let c = cmd(5, 2, BitCommand::LoginCommand);
    process_command_login(&mut pool, &c, 100, None, 0);
    let acts = process_command_login(&mut pool, &c, 101, None, 10);
    assert_eq!(
        acts,
        vec![
            ServerAction::CommandReply { stream: 101 },
            ServerAction::Close { stream: 100, code: OT_LOGIN_CODE },
        ]
    );
    assert_eq!(pool.get_client(5, 2), Some(101));
    // a login again on the same stream only answers and refreshes the session
    let acts = process_command_login(&mut pool, &c, 101, None, 20);
    assert_eq!(acts, vec![ServerAction::CommandReply { stream: 101 }]);
    assert_eq!(pool.get_client(5, 2), Some(101));
    assert_eq!(pool.update_client(5, 2, 20), Some(20 + TIME_OUT_MS));
}

#[test]
fn logout_closes_and_removes() {
    let mut pool = ClientPoolManager::new();
    let c = cmd(5, 2, BitCommand::LoginCommand);
    process_command_login(&mut pool, &c, 100, None, 0);
    let out = cmd(5, 2, BitCommand::LogoutCommand);
    let acts = process_command_logout(&mut pool, &out, 100);
    assert_eq!(
        acts,
        vec![ServerAction::CommandReply { stream: 100 }, ServerAction::Close { stream: 100, code: LOGOUT_CODE }]
    );
    assert_eq!(pool.get_client(5, 2), None);
    assert_eq!(devices(&pool, 5).unwrap(), vec![DeviceConnInfo::new(2, DeviceConnState::StateOffline)]);
    // logout on another stream also closes the session's stream
    process_command_login(&mut pool, &c, 200, None, 0);
    let acts = process_command_logout(&mut pool, &out, 300);
    assert_eq!(
        acts,
        vec![
            ServerAction::CommandReply { stream: 300 },
            ServerAction::Close { stream: 300, code: 9 },
            ServerAction::Close { stream: 200, code: 9 },
        ]
    );
}

#[test]
fn ping_command_records_session() {
    let mut pool = ClientPoolManager::new();
    let p = cmd(8, 1, BitCommand::SendPing);
    assert_eq!(process_command_pingpong(&mut pool, &p, 55, 0), vec![ServerAction::CommandReply { stream: 55 }]);
    assert_eq!(pool.get_client(8, 1), Some(55));
    // replaces a session on another stream without closing it
    assert_eq!(process_command_pingpong(&mut pool, &p, 56, 0), vec![ServerAction::CommandReply { stream: 56 }]);
    assert_eq!(pool.get_client(8, 1), Some(56));
}

#[test]
fn command_dispatch() {
    let mut pool = ClientPoolManager::new();
    let other = cmd(1, 1, BitCommand::OtherCommand);
    assert_eq!(process_command_data(&mut pool, &other, 1, None, 0), vec![]);
    assert_eq!(pool.get_client(1, 1), None);
    let login = cmd(1, 1, BitCommand::LoginCommand);
    assert_eq!(process_command_data(&mut pool, &login, 1, None, 0), vec![ServerAction::CommandReply { stream: 1 }]);
    let ping = cmd(1, 1, BitCommand::SendPing);
    assert_eq!(process_command_data(&mut pool, &ping, 1, None, 0), vec![ServerAction::CommandReply { stream: 1 }]);
    let logout = cmd(1, 1, BitCommand::LogoutCommand);
    assert_eq!(process_command_data(&mut pool, &logout, 1, None, 0).len(), 2);
    assert_eq!(pool.get_client(1, 1), None);
}

#[test]
fn keepalive_flag() {
    let mut pool = ClientPoolManager::new();
    let addr = String::from("5.6.7.8:1");
    // unknown address: nothing happens
    assert_eq!(process_bitcomm_flag_data(&mut pool, 10, Some(addr.clone()), 0), vec![]);
    assert_eq!(process_bitcomm_flag_data(&mut pool, 10, None, 0), vec![]);
    let c = cmd(3, 4, BitCommand::LoginCommand);
    process_command_login(&mut pool, &c, 10, Some(addr.clone()), 0);
    assert_eq!(process_bitcomm_flag_data(&mut pool, 10, Some(addr.clone()), 1000), vec![ServerAction::Pong { stream: 10 }]);
    assert_eq!(pool.update_client(3, 4, 1000), Some(1000 + TIME_OUT_MS));
    // from the same address on another stream: both closed, address and session gone
    let acts = process_bitcomm_flag_data(&mut pool, 11, Some(addr.clone()), 2000);
    assert_eq!(
        acts,
        vec![
            ServerAction::Close { stream: 11, code: PINGPONG_CODE },
            ServerAction::Close { stream: 10, code: 0x000A },
        ]
    );
    assert_eq!(pool.get_addres(&addr), None);
    assert_eq!(pool.get_client(3, 4), None);
}

#[test]
fn receipts() {
    assert_eq!(send_message_notlogin(4), receipt(4, ReturnCode::ReturnNotLogin));
    assert_eq!(send_message_twosession_nosame(4), receipt(4, ReturnCode::ReturnTwoSessionNoSame));
    assert_eq!(send_message_receipt(4), receipt(4, ReturnCode::ReturnOk));
}

#[test]
fn queue_routing_by_receiver_type() {
    let m = msg(1, 1, 2, ClientType::ClientPeople);
    assert_eq!(send_message_to_queue(&m), Some(MessageEvent::MessageReceive { reqmsggram: m }));
    let g = msg(1, 1, 2, ClientType::ClientGroup);
    assert_eq!(send_message_to_queue(&g), Some(MessageEvent::GroupReceive { reqmsggram: g }));
    let d = msg(1, 1, 2, ClientType::ClientDevice);
    assert_eq!(send_message_to_queue(&d), Some(MessageEvent::DeviceReceive { reqmsggram: d }));
    let r = msg(1, 1, 2, ClientType::ClientRobot);
    assert_eq!(send_message_to_queue(&r), Some(MessageEvent::RobotReceive { reqmsggram: r }));
    let s = msg(1, 1, 2, ClientType::ClientService);
    assert_eq!(send_message_to_queue(&s), Some(MessageEvent::ServiceReceive { reqmsggram: s }));
    let o = msg(1, 1, 2, ClientType::ClientOther);
    assert_eq!(send_message_to_queue(&o), None);
}

#[test]
fn message_from_client() {
    let mut pool = ClientPoolManager::new();
    let m = msg(1, 1, 2, ClientType::ClientPeople);
    assert_eq!(rece_message_from_client(&mut pool, &m, 7, 0).1, vec![receipt(7, ReturnCode::ReturnNotLogin)]);
    process_command_login(&mut pool, &cmd(1, 1, BitCommand::LoginCommand), 7, None, 0);
    assert_eq!(
        rece_message_from_client(&mut pool, &m, 8, 0).1,
        vec![receipt(8, ReturnCode::ReturnTwoSessionNoSame)]
    );
    assert_eq!(
        rece_message_from_client(&mut pool, &m, 7, 50).1,
        vec![receipt(7, ReturnCode::ReturnOk), ServerAction::Enqueue { event: MessageEvent::MessageReceive { reqmsggram: m } }]
    );
    assert_eq!(pool.update_client(1, 1, 50), Some(50 + TIME_OUT_MS));
    let o = msg(1, 1, 2, ClientType::ClientOther);
    assert_eq!(process_message_data(&mut pool, &o, 7, 60), vec![receipt(7, ReturnCode::ReturnOk)]);
}

#[test]
fn direct_send_always_person_to_person() {
    let mut pool = ClientPoolManager::new();
    let g = msg(1, 1, 2, ClientType::ClientGroup);
    assert_eq!(send_message(&mut pool, &g, 7, 0).1, vec![receipt(7, ReturnCode::ReturnNotLogin)]);
    process_command_login(&mut pool, &cmd(1, 1, BitCommand::LoginCommand), 7, None, 0);
    assert_eq!(send_message(&mut pool, &g, 9, 0).1, vec![receipt(9, ReturnCode::ReturnTwoSessionNoSame)]);
    assert_eq!(
        send_message(&mut pool, &g, 7, 0).1,
        vec![receipt(7, ReturnCode::ReturnOk), ServerAction::Enqueue { event: MessageEvent::MessageReceive { reqmsggram: g } }]
    );
}

#[test]
fn delivery_to_online_devices() {
    let mut pool = ClientPoolManager::new();
    let m = msg(1, 1, 2, ClientType::ClientPeople);
    assert_eq!(send_message_to_client(&pool, &m), vec![]);
    pool.put_client(2, 1, 21, 0);
    pool.put_client(2, 2, 22, 0);
    pool.put_client(2, 3, 23, 0);
    pool.set_device_state(2, 2, DeviceConnState::StateOnBack);
    pool.remove_client(2, 3);
    pool.set_device_state(2, 4, DeviceConnState::StateOnline); // online but no session
    assert_eq!(send_message_to_client(&pool, &m), vec![ServerAction::Forward { stream: 21 }]);
    assert_eq!(send_request_online(&pool, 2, 2), Some(ServerAction::Forward { stream: 22 }));
    assert_eq!(send_request_online(&pool, 2, 4), None);
    send_request_offline();
    send_request_onback();
    // the direct path forwards to every device with a session, whatever its state
    let direct = message::send_message_to_client(&pool, &m, 9);
    assert_eq!(direct[0], ServerAction::MessageReceipt { stream: 9, returncode: None });
    let mut forwards: Vec<u64> = direct[1..]
        .iter()
        .map(|a| match a {
            ServerAction::Forward { stream } => *stream,
            other => panic!("unexpected action {:?}", other),
        })
        .collect();
    forwards.sort();
    assert_eq!(forwards, vec![21, 22]);
}

#[test]
fn group_registry_every_message_delivered() {
    let mut reg = GroupMessageRegistry::new();
    assert!(!reg.contains(77));
    assert_eq!(reg.get_gmp_by_id(77), Some(77));
    assert!(reg.contains(77));
    assert_eq!(reg.get_gmp_by_id(77), Some(77));
    let mut reg = GroupMessageRegistry::new();
    let g = msg(1, 1, 77, ClientType::ClientGroup);
    assert_eq!(
        send_group_message_to_all(&mut reg, &g),
        vec![ServerAction::GroupCreate { group: 77 }, ServerAction::GroupDeliver { group: 77 }]
    );
    assert_eq!(send_group_message_to_all(&mut reg, &g), vec![ServerAction::GroupDeliver { group: 77 }]);
    assert_eq!(send_group_message_to_all(&mut reg, &g), vec![ServerAction::GroupDeliver { group: 77 }]);
}

#[test]
fn message_event_dispatch() {
    let mut pool = ClientPoolManager::new();
    let mut reg = GroupMessageRegistry::new();
    pool.put_client(2, 1, 21, 0);
    let m = msg(1, 1, 2, ClientType::ClientPeople);
    assert_eq!(
        process_message_event(&pool, &mut reg, &MessageEvent::MessageReceive { reqmsggram: m }),
        vec![ServerAction::Forward { stream: 21 }]
    );
    let g = msg(1, 1, 5, ClientType::ClientGroup);
    assert_eq!(
        process_message_event(&pool, &mut reg, &MessageEvent::GroupReceive { reqmsggram: g }),
        vec![ServerAction::GroupCreate { group: 5 }, ServerAction::GroupDeliver { group: 5 }]
    );
    assert_eq!(
        process_message_event(&pool, &mut reg, &MessageEvent::GroupReceive { reqmsggram: g }),
        vec![ServerAction::GroupDeliver { group: 5 }]
    );
    assert_eq!(process_message_event(&pool, &mut reg, &MessageEvent::ServiceReceive { reqmsggram: m }), vec![]);
    assert_eq!(process_message_event(&pool, &mut reg, &MessageEvent::DeviceReceive { reqmsggram: m }), vec![]);
    assert_eq!(process_message_event(&pool, &mut reg, &MessageEvent::RobotReceive { reqmsggram: m }), vec![]);
}

#[test]
fn received_buffer_handling() {
    let mut pool = ClientPoolManager::new();
    assert_eq!(process_received(&mut pool, None, 3, None, 0), vec![ServerAction::Echo { stream: 3 }]);
    let login = InnerDataGram::Command(cmd(1, 1, BitCommand::LoginCommand));
    assert_eq!(
        process_received(&mut pool, Some(login), 3, Some(String::from("h:1")), 0),
        vec![ServerAction::CommandReply { stream: 3 }]
    );
    assert_eq!(
        process_data(&mut pool, &InnerDataGram::Pingpong, 3, Some(String::from("h:1")), 5).1,
        vec![ServerAction::Pong { stream: 3 }]
    );
    let m = InnerDataGram::Message(msg(1, 1, 2, ClientType::ClientRobot));
    assert_eq!(
        process_data(&mut pool, &m, 3, None, 6).1,
        vec![
            receipt(3, ReturnCode::ReturnOk),
            ServerAction::Enqueue {
                event: MessageEvent::RobotReceive { reqmsggram: msg(1, 1, 2, ClientType::ClientRobot) }
            },
        ]
    );
}

#[test]
fn logout_then_message_is_not_login() {
    let mut pool = ClientPoolManager::new();
    let login = cmd(4, 4, BitCommand::LoginCommand);
    process_command_login(&mut pool, &login, 40, None, 0);
    let m = msg(4, 4, 1, ClientType::ClientPeople);
    assert_eq!(rece_message_from_client(&mut pool, &m, 40, 1).1[0], receipt(40, ReturnCode::ReturnOk));
    process_command_logout(&mut pool, &cmd(4, 4, BitCommand::LogoutCommand), 40);
    assert_eq!(rece_message_from_client(&mut pool, &m, 40, 2).1, vec![receipt(40, ReturnCode::ReturnNotLogin)]);
}

#[test]
fn sweep_ends_session_then_message_refused() {
    let mut pool = ClientPoolManager::new();
    process_command_login(&mut pool, &cmd(6, 1, BitCommand::LoginCommand), 60, None, 0);
    pool.remove_expired(TIME_OUT_MS);
    let m = msg(6, 1, 1, ClientType::ClientPeople);
    assert_eq!(rece_message_from_client(&mut pool, &m, 60, TIME_OUT_MS).1, vec![receipt(60, ReturnCode::ReturnNotLogin)]);
}

#[test]
fn handlers_return_what_they_were_given() {
    let mut pool = ClientPoolManager::new();
    let m = msg(1, 1, 2, ClientType::ClientPeople);
    assert_eq!(rece_message_from_client(&mut pool, &m, 7, 0).0, Some(m));
    assert_eq!(send_message(&mut pool, &m, 7, 0).0, Some(m));
    let d = InnerDataGram::Message(m);
    assert_eq!(process_data(&mut pool, &d, 7, None, 0).0, d);
}

#[test]
fn group_message_reaches_every_member() {
    let mut pool = ClientPoolManager::new();
    pool.put_client(10, 1, 101, 0);
    pool.put_client(10, 2, 102, 0);
    pool.set_device_state(10, 2, DeviceConnState::StateOnBack);
    pool.put_client(11, 1, 111, 0);
    let actions = deliver_to_members(&pool, &vec![10, 11, 12]);
    assert_eq!(actions, vec![ServerAction::Forward { stream: 101 }, ServerAction::Forward { stream: 111 }]);
    assert_eq!(deliver_to_members(&pool, &vec![]), vec![]);
    assert_eq!(deliver_to(&pool, 12), vec![]);
}
