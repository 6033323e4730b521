use vstd::prelude::*;

verus! {

/// The channel that the thing's own access point uses when the configured
/// network was not found in the scan.
pub const DEFAULT_AP_CHANNEL: u8 = 1;

/// An access point found by a scan: its network name and channel.
pub struct AccessPoint {
    pub ssid: String,
    pub channel: u8,
}

/// `found` is the channel of the first access point of `aps` whose network
/// is `ssid`, or `None` where no access point has that network.
pub open spec fn is_channel_of(aps: Seq<AccessPoint>, ssid: Seq<char>, found: Option<u8>) -> bool {
    match found {
        Some(c) => exists|i: int|
            0 <= i < aps.len() && #[trigger] aps[i].ssid@ == ssid && aps[i].channel == c
            && forall|j: int| 0 <= j < i ==> #[trigger] aps[j].ssid@ != ssid,
        None => forall|j: int| 0 <= j < aps.len() ==> #[trigger] aps[j].ssid@ != ssid,
    }
}

/// The channel of the configured network `ssid` in the scan `aps`.
pub fn find_channel(aps: &Vec<AccessPoint>, ssid: &str) -> (found: Option<u8>)
    ensures
        is_channel_of(aps@, ssid@, found),
{
    let wanted = ssid.to_owned();
    let n: usize = aps.len();
    for i in 0..n
        invariant
            n == aps@.len(),
            wanted@ == ssid@,
            forall|j: int| 0 <= j < i ==> #[trigger] aps@[j].ssid@ != ssid@,
    {
        if aps[i].ssid == wanted {
            return Some(aps[i].channel);
        }
    }
    None
}

/// The channel of the thing's own access point: that of the configured
/// network if it was found, else `DEFAULT_AP_CHANNEL`.
pub fn access_point_channel(found: Option<u8>) -> (channel: u8)
    ensures
        channel == (match found {
            Some(c) => c,
            None => DEFAULT_AP_CHANNEL,
        }),
{
    match found {
        Some(c) => c,
        None => DEFAULT_AP_CHANNEL,
    }
}

/// The station link is up: the driver reports it connected and DHCP gave
/// it an address other than `0.0.0.0`.
pub fn link_ready(connected: bool, ip: [u8; 4]) -> (ready: bool)
    ensures
        ready == (connected && ip@ != seq![0u8, 0u8, 0u8, 0u8]),
{
    let unassigned = ip[0] == 0 && ip[1] == 0 && ip[2] == 0 && ip[3] == 0;
    proof {
        if unassigned {
            assert(ip@ =~= seq![0u8, 0u8, 0u8, 0u8]);
        }
    }
    connected && !unassigned
}

} // verus!
