use nestvr_core::ap_stats::{APStats, Client, Interface, IpAddress, RxStats, TxStats};
use nestvr_core::bitrate::BitrateManager;

fn text(value: &str) -> String {
    String::from(value)
}

fn client(ip: &str, address: Option<IpAddress>, hostname: &str) -> Client {
    Client {
        ip: text(ip),
        address,
        mac: text("aa:bb:cc:dd:ee:ff"),
        hostname: text(hostname),
        signal_dbm: text("-40"),
        noise_dbm: text("-95"),
        snr_db: text("55"),
        last_comm_ms: text("10"),
        current_time_ms: text("1000"),
        rx: RxStats {
            bitrate_mbps: text("866.7"),
            mcs: text("9"),
            bandwidth_mhz: text("80"),
            ss: text("2"),
            packets: text("100"),
            bytes: text("10000"),
        },
        tx: TxStats {
            bitrate_mbps: text("866.7"),
            mcs: text("9"),
            bandwidth_mhz: text("80"),
            ss: text("2"),
            packets: text("200"),
            bytes: text("20000"),
            retries: text("3"),
            failed: text("0"),
        },
        expected_throughput_mbps: text("600"),
    }
}

fn interface(name: &str, clients: Vec<Client>) -> Interface {
    Interface {
        interface: text(name),
        mac: text("00:11:22:33:44:55"),
        essid: text("headset"),
        mode: text("Master"),
        channel: text("36"),
        channel_ghz: text("5.180"),
        ht_mode: text("VHT80"),
        tx_power_dbm: text("23"),
        link_quality: text("70/70"),
        signal_dbm: text("-40"),
        noise_dbm: text("-95"),
        bitrate_mbps: text("866.7"),
        rx_pck_s: text("1"),
        tx_pck_s: text("2"),
        rx_kbytes_s: text("3"),
        tx_kbytes_s: text("4"),
        rx_cmp_s: text("0"),
        tx_cmp_s: text("0"),
        rx_mcst_s: text("0"),
        if_util: text("12"),
        clients,
    }
}

const HEADSET: IpAddress = IpAddress::V4(0xC0A8_0114);
const OTHER: IpAddress = IpAddress::V4(0xC0A8_0115);

fn snapshot() -> APStats {
    APStats {
        interfaces: vec![
            interface("wlan0", vec![client("192.168.1.21", Some(OTHER), "laptop")]),
            interface(
                "wlan1",
                vec![
                    client("not an address", None, "broken"),
                    client("192.168.1.20", Some(HEADSET), "headset"),
                    client("192.168.001.020", Some(HEADSET), "twin"),
                ],
            ),
            interface("wlan2", vec![client("192.168.1.20", Some(HEADSET), "late")]),
        ],
    }
}

fn manager_of(address: IpAddress) -> BitrateManager {
    BitrateManager::new(Some(256), 90_000_000, 30_000_000, None, None, address, 0)
}

#[test]
fn find_client_interface_gives_the_first_match() {
    let stats = snapshot();
    let manager = manager_of(HEADSET);
    let (interface, client) = manager.find_client_interface(&stats, HEADSET);
    assert_eq!(interface.unwrap().interface, "wlan1");
    assert_eq!(client.unwrap().hostname, "headset");
    let (interface, client) = manager.find_client_interface(&stats, OTHER);
    assert_eq!(interface.unwrap().interface, "wlan0");
    assert_eq!(client.unwrap().hostname, "laptop");
}

#[test]
fn find_client_interface_gives_nothing_for_an_unknown_address() {
    let stats = snapshot();
    let manager = manager_of(HEADSET);
    let (interface, client) = manager.find_client_interface(&stats, IpAddress::V4(1));
    assert!(interface.is_none());
    assert!(client.is_none());
    // The same bits as an IPv6 address are another address.
    let (interface, client) = manager.find_client_interface(&stats, IpAddress::V6(0xC0A8_0114));
    assert!(interface.is_none());
    assert!(client.is_none());
    let empty = APStats { interfaces: Vec::new() };
    let (interface, client) = manager.find_client_interface(&empty, HEADSET);
    assert!(interface.is_none());
    assert!(client.is_none());
}

#[test]
fn position_of_client_gives_the_indices() {
    let stats = snapshot();
    assert_eq!(stats.position_of_client(HEADSET), Some((1, 1)));
    assert_eq!(stats.position_of_client(OTHER), Some((0, 0)));
    assert_eq!(stats.position_of_client(IpAddress::V4(1)), None);
    assert_eq!(stats.interfaces[2].position_of_client(HEADSET), Some(0));
    assert_eq!(stats.interfaces[0].position_of_client(HEADSET), None);
}

#[test]
fn report_ap_statistics_keeps_the_snapshot() {
    let mut manager = manager_of(HEADSET);
    assert!(manager.report_ap_statistics(snapshot()));
    let kept = manager
        .ap_stats_current()
        .as_ref()
        .unwrap_or_else(|| panic!("the snapshot is kept"));
    assert_eq!(kept.interfaces.len(), 3);
    assert_eq!(kept.interfaces[1].clients[1].ip, "192.168.1.20");
    // The snapshot has no say in the bitrate.
    assert_eq!(manager.last_target_bitrate_bps(), 30_000_000);
    assert_eq!(manager.dynamic_max_bitrate(), u64::MAX);

    let mut stranger = manager_of(IpAddress::V4(9));
    assert!(!stranger.report_ap_statistics(snapshot()));
    assert!(stranger.ap_stats_current().is_some());
}
