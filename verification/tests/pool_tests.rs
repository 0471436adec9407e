use imserver::client::{DeviceConnInfo, DeviceConnState};
use imserver::connservice::{get_cd_by_key, get_key, ClientPoolManager, TIME_OUT_MS};


fn devices(pool: &ClientPoolManager, clt: u64) -> Option<Vec<DeviceConnInfo>> {
    pool.get_device_pool(clt).map(|m| {
        let mut v: Vec<DeviceConnInfo> = m.values().copied().collect();
        v.sort_by_key(|d| d.deviceid);
        v
    })
}

#[test]
fn key_layout_and_roundtrip() {
    assert_eq!(get_key(1, 2), (1u128 << 64) | 2);
    assert_eq!(get_key(0, 0), 0);
    assert_eq!(get_key(u64::MAX, u32::MAX), (u128::from(u64::MAX) << 64) | u128::from(u32::MAX));
    assert_eq!(get_cd_by_key(get_key(42, 7)), (42, 7));
    assert_eq!(get_cd_by_key(get_key(u64::MAX, u32::MAX)), (u64::MAX, u32::MAX));
}

#[test]
fn key_split_drops_middle_bits() {
    // bits 32..64 of a key belong to neither half
    let key: u128 = (5u128 << 64) | (1u128 << 40) | 9;
    assert_eq!(get_cd_by_key(key), (5, 9));
    assert_ne!(get_key(5, 9), key);
}

#[test]
fn put_then_get_client() {
    let mut pool = ClientPoolManager::new();
    assert_eq!(pool.get_client(1, 1), None);
    assert_eq!(pool.put_client(1, 1, 100, 0), Some(100));
    assert_eq!(pool.get_client(1, 1), Some(100));
    assert_eq!(pool.get_client(1, 2), None);
    assert_eq!(pool.get_client(2, 1), None);
    let devs = devices(&pool, 1).unwrap();
    assert_eq!(devs, vec![DeviceConnInfo::new(1, DeviceConnState::StateOnline)]);
    // a second session for the same device replaces the first
    assert_eq!(pool.put_client(1, 1, 200, 10), Some(200));
    assert_eq!(pool.get_client(1, 1), Some(200));
    assert_eq!(devices(&pool, 1).unwrap().len(), 1);
}

#[test]
fn remove_client_marks_offline() {
    let mut pool = ClientPoolManager::new();
    pool.put_client(3, 1, 11, 0);
    pool.put_client(3, 2, 12, 0);
    assert_eq!(pool.remove_client(3, 1), Some(11));
    assert_eq!(pool.get_client(3, 1), None);
    assert_eq!(pool.get_client(3, 2), Some(12));
    let devs = devices(&pool, 3).unwrap();
    assert_eq!(
        devs,
        vec![
            DeviceConnInfo::new(1, DeviceConnState::StateOffline),
            DeviceConnInfo::new(2, DeviceConnState::StateOnline),
        ]
    );
    assert_eq!(pool.remove_client(3, 1), None);
    // an unknown client stays unknown
    assert_eq!(pool.remove_client(9, 9), None);
    assert!(devices(&pool, 9).is_none());
}

#[test]
fn set_device_state_adds_and_changes() {
    let mut pool = ClientPoolManager::new();
    pool.set_device_state(4, 8, DeviceConnState::StateOnBack);
    assert_eq!(devices(&pool, 4).unwrap(), vec![DeviceConnInfo::new(8, DeviceConnState::StateOnBack)]);
    pool.set_device_state(4, 8, DeviceConnState::StateOnline);
    pool.set_device_state(4, 9, DeviceConnState::StateOffline);
    assert_eq!(
        devices(&pool, 4).unwrap(),
        vec![
            DeviceConnInfo::new(8, DeviceConnState::StateOnline),
            DeviceConnInfo::new(9, DeviceConnState::StateOffline),
        ]
    );
    // no session is created by a state change
    assert_eq!(pool.get_client(4, 8), None);
}

#[test]
fn update_client_moves_expiry() {
    let mut pool = ClientPoolManager::new();
    assert_eq!(pool.update_client(1, 1, 5), None);
    pool.put_client(1, 1, 7, 0);
    assert_eq!(pool.update_client(1, 1, 1000), Some(1000 + TIME_OUT_MS));
    assert_eq!(pool.get_client(1, 1), Some(7));
}

#[test]
fn remove_expired_keeps_live_sessions() {
    let mut pool = ClientPoolManager::new();
    pool.put_client(1, 1, 10, 0); // expires at TIME_OUT_MS
    pool.put_client(2, 1, 20, 500); // expires at 500 + TIME_OUT_MS
    pool.remove_expired(TIME_OUT_MS - 1);
    assert_eq!(pool.get_client(1, 1), Some(10));
    assert_eq!(pool.get_client(2, 1), Some(20));
    pool.remove_expired(TIME_OUT_MS);
    assert_eq!(pool.get_client(1, 1), None);
    assert_eq!(pool.get_client(2, 1), Some(20));
    // the device list is not touched by the sweep
    assert_eq!(devices(&pool, 1).unwrap(), vec![DeviceConnInfo::new(1, DeviceConnState::StateOnline)]);
    // a refreshed session survives a sweep that would have dropped it
    pool.update_client(2, 1, 1000);
    pool.remove_expired(600 + TIME_OUT_MS);
    assert_eq!(pool.get_client(2, 1), Some(20));
}

#[test]
fn address_pool_roundtrip() {
    let mut pool = ClientPoolManager::new();
    let a = String::from("10.0.0.1:5000");
    let b = String::from("10.0.0.2:5000");
    assert_eq!(pool.get_addres(&a), None);
    assert_eq!(pool.put_addres(a.clone(), 6, 3), Some(get_key(6, 3)));
    assert_eq!(pool.put_addres(b.clone(), 7, 4), Some(get_key(7, 4)));
    assert_eq!(pool.get_addres(&a), Some(get_key(6, 3)));
    assert_eq!(get_cd_by_key(pool.get_addres(&b).unwrap()), (7, 4));
    assert_eq!(pool.put_addres(a.clone(), 8, 5), Some(get_key(8, 5)));
    assert_eq!(pool.get_addres(&a), Some(get_key(8, 5)));
    assert_eq!(pool.remove_addres(&a), Some(get_key(8, 5)));
    assert_eq!(pool.get_addres(&a), None);
    assert_eq!(pool.remove_addres(&a), None);
    assert_eq!(pool.get_addres(&b), Some(get_key(7, 4)));
}

#[test]
fn device_info_accessors() {
    let mut d = DeviceConnInfo::new(3, DeviceConnState::StateOther);
    assert_eq!(d.device_state(), DeviceConnState::StateOther);
    d.set_device_state(DeviceConnState::StateOnBack);
    assert_eq!(d.deviceid, 3);
    assert_eq!(d.device_state(), DeviceConnState::StateOnBack);
}

#[test]
fn other_operations_leave_sessions() {
    let mut pool = ClientPoolManager::new();
    pool.put_client(1, 1, 10, 0);
    pool.put_client(1, 2, 20, 0);
    pool.set_device_state(1, 1, DeviceConnState::StateOnBack);
    pool.put_addres(String::from("a"), 1, 1);
    pool.remove_addres(&String::from("a"));
    pool.update_client(1, 2, 5);
    assert_eq!(pool.get_client(1, 1), Some(10));
    pool.remove_client(1, 2);
    assert_eq!(pool.get_client(1, 1), Some(10));
    pool.put_client(2, 2, 30, 0);
    assert_eq!(pool.get_client(1, 1), Some(10));
    assert_eq!(pool.get_client(1, 2), None);
}
