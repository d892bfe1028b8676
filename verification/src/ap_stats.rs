//! A snapshot of the statistics that a wireless access point reports: its interfaces and the
//! clients associated with each. The access point reports every figure as text.

use vstd::prelude::*;

verus! {

/// An IP address as a number: the 32 bits of an IPv4 address, or the 128 bits of an IPv6
/// address.
#[derive(Clone, Copy, PartialEq, Eq, Debug, Structural)]
pub enum IpAddress {
    V4(u32),
    V6(u128),
}

/// What a client received over its link.
#[derive(Clone, Debug)]
pub struct RxStats {
    pub bitrate_mbps: String,
    pub mcs: String,
    pub bandwidth_mhz: String,
    pub ss: String,
    pub packets: String,
    pub bytes: String,
}

/// What was sent to a client over its link.
#[derive(Clone, Debug)]
pub struct TxStats {
    pub bitrate_mbps: String,
    pub mcs: String,
    pub bandwidth_mhz: String,
    pub ss: String,
    pub packets: String,
    pub bytes: String,
    pub retries: String,
    pub failed: String,
}

/// A client associated with an interface.
#[derive(Clone, Debug)]
pub struct Client {
    pub ip: String,
    /// The address that `ip` spells, where it spells one.
    pub address: Option<IpAddress>,
    pub mac: String,
    pub hostname: String,
    pub signal_dbm: String,
    pub noise_dbm: String,
    pub snr_db: String,
    pub last_comm_ms: String,
    pub current_time_ms: String,
    pub rx: RxStats,
    pub tx: TxStats,
    pub expected_throughput_mbps: String,
}

/// A wireless interface of the access point with its clients.
#[derive(Clone, Debug)]
pub struct Interface {
    pub interface: String,
    pub mac: String,
    pub essid: String,
    pub mode: String,
    pub channel: String,
    pub channel_ghz: String,
    pub ht_mode: String,
    pub tx_power_dbm: String,
    pub link_quality: String,
    pub signal_dbm: String,
    pub noise_dbm: String,
    pub bitrate_mbps: String,
    pub rx_pck_s: String,
    pub tx_pck_s: String,
    pub rx_kbytes_s: String,
    pub tx_kbytes_s: String,
    pub rx_cmp_s: String,
    pub tx_cmp_s: String,
    pub rx_mcst_s: String,
    pub if_util: String,
    pub clients: Vec<Client>,
}

/// The statistics of an access point.
#[derive(Clone, Debug)]
pub struct APStats {
    pub interfaces: Vec<Interface>,
}

impl Interface {
    /// Whether a client at `index` of this interface has the address `address`.
    pub open spec fn has_client_at(self, index: int, address: IpAddress) -> bool {
        0 <= index < self.clients@.len() && self.clients@[index].address == Some(address)
    }

    /// Whether any client of this interface has the address `address`.
    pub open spec fn serves(self, address: IpAddress) -> bool {
        exists|index: int| self.has_client_at(index, address)
    }

    /// The position of the first client with the address `address`, if there is one.
    pub fn position_of_client(&self, address: IpAddress) -> (r: Option<usize>)
        ensures
            match r {
                Some(index) => {
                    &&& self.has_client_at(index as int, address)
                    &&& forall|earlier: int|
                        0 <= earlier < index ==> !self.has_client_at(earlier, address)
                },
                None => !self.serves(address),
            },
    {
        let mut i: usize = 0;
        while i < self.clients.len()
            invariant
                i <= self.clients.len(),
                forall|earlier: int| 0 <= earlier < i ==> !self.has_client_at(earlier, address),
            decreases self.clients.len() - i,
        {
            if self.clients[i].address == Some(address) {
                return Some(i);
            }
            i = i + 1;
        }
        None
    }
}

impl APStats {
    /// Whether the client with the address `address` is found first at the interface
    /// `interface`, as its client `client`: no earlier interface serves the address, and no
    /// earlier client of that interface has it.
    pub open spec fn first_served_at(self, address: IpAddress, interface: int, client: int) -> bool {
        &&& 0 <= interface < self.interfaces@.len()
        &&& self.interfaces@[interface].has_client_at(client, address)
        &&& forall|earlier: int|
            0 <= earlier < client ==> !self.interfaces@[interface].has_client_at(earlier, address)
        &&& forall|earlier: int|
            0 <= earlier < interface ==> !(#[trigger] self.interfaces@[earlier]).serves(address)
    }

    /// Whether any interface serves the address `address`.
    pub open spec fn serves(self, address: IpAddress) -> bool {
        exists|interface: int|
            0 <= interface < self.interfaces@.len() && (#[trigger] self.interfaces@[interface]).serves(
                address,
            )
    }

    /// The positions of the first interface that serves the address `address` and of the
    /// first client with that address on it.
    pub fn position_of_client(&self, address: IpAddress) -> (r: Option<(usize, usize)>)
        ensures
            match r {
                Some((interface, client)) => self.first_served_at(
                    address,
                    interface as int,
                    client as int,
                ),
                None => !self.serves(address),
            },
    {
        let mut i: usize = 0;
        while i < self.interfaces.len()
            invariant
                i <= self.interfaces.len(),
                forall|earlier: int|
                    0 <= earlier < i ==> !(#[trigger] self.interfaces@[earlier]).serves(address),
            decreases self.interfaces.len() - i,
        {
            if let Some(client) = self.interfaces[i].position_of_client(address) {
                return Some((i, client));
            }
            i = i + 1;
        }
        None
    }
}

} // verus!
