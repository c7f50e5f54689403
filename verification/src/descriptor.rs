//! Discovery and endpoint selection over a plain model of the USB
//! descriptor tree.
//!
//! The unverified transport shell walks the host stack's descriptor objects
//! and rebuilds them as the plain values below; the selection logic here is
//! then verified over that model.

use vstd::prelude::*;
use crate::error::Error;
use crate::error::UsbErrorCode;

verus! {

/// USB vendor identifier of the GameCube controller adapter.
pub const VENDOR_ID: u16 = 0x057e;

/// USB product identifier of the GameCube controller adapter.
pub const PRODUCT_ID: u16 = 0x0337;

/// The identifying pair read from one device's descriptor.
#[derive(Clone, Copy, Debug, PartialEq, Eq, Structural)]
pub struct DeviceId {
    /// The vendor identifier.
    pub vendor_id: u16,
    /// The product identifier.
    pub product_id: u16,
}

/// The direction of one endpoint.
#[derive(Clone, Copy, Debug, PartialEq, Eq, Structural)]
pub enum Direction {
    /// Device-to-host.
    In,
    /// Host-to-device.
    Out,
}

/// One endpoint descriptor: its direction and its address.
#[derive(Clone, Copy, Debug, PartialEq, Eq, Structural)]
pub struct EndpointDesc {
    /// The endpoint's direction.
    pub direction: Direction,
    /// The endpoint's address.
    pub address: u8,
}

/// One interface descriptor (alternate setting): its numbers and the
/// endpoints it offers.
#[derive(Clone, Debug)]
pub struct AltSetting {
    /// The number of the interface this setting belongs to.
    pub interface_number: u8,
    /// The number of this alternate setting.
    pub setting_number: u8,
    /// The endpoint descriptors of this setting.
    pub endpoints: Vec<EndpointDesc>,
}

/// One interface: the alternate settings it offers.
#[derive(Clone, Debug)]
pub struct InterfaceDesc {
    /// The alternate settings, in descriptor order.
    pub settings: Vec<AltSetting>,
}

/// One configuration descriptor: its number and its interface list.
#[derive(Clone, Debug)]
pub struct ConfigDesc {
    /// The configuration's number.
    pub number: u8,
    /// The interfaces, in descriptor order.
    pub interfaces: Vec<InterfaceDesc>,
}

/// What session establishment selects from the descriptor tree: the
/// configuration to activate, the interface and alternate setting to claim,
/// and the endpoint pair to talk through.
#[derive(Clone, Copy, Debug, PartialEq, Eq, Structural)]
pub struct Selection {
    /// The configuration number to activate.
    pub config_number: u8,
    /// The interface number to claim.
    pub interface_number: u8,
    /// The alternate setting number to select.
    pub setting_number: u8,
    /// The address of the IN endpoint that streams state packets.
    pub endpoint_in: u8,
    /// The address of the OUT endpoint that takes the activation command.
    pub endpoint_out: u8,
}

/// The endpoints one interface offers, across all its alternate settings,
/// in descriptor order.
pub open spec fn iface_endpoints(settings: Seq<AltSetting>) -> Seq<EndpointDesc>
    decreases settings.len(),
{
    if settings.len() == 0 {
        Seq::empty()
    } else {
        iface_endpoints(settings.drop_last()) + settings.last().endpoints@
    }
}

/// The address of the last endpoint with the given direction, if any.
pub open spec fn last_addr(eps: Seq<EndpointDesc>, dir: Direction) -> Option<u8>
    decreases eps.len(),
{
    if eps.len() == 0 {
        None
    } else if eps.last().direction == dir {
        Some(eps.last().address)
    } else {
        last_addr(eps.drop_last(), dir)
    }
}

/// The interface and setting number of the last alternate setting seen, if
/// any.
pub open spec fn last_setting_nums(settings: Seq<AltSetting>) -> Option<(u8, u8)> {
    if settings.len() == 0 {
        None
    } else {
        Some((settings.last().interface_number, settings.last().setting_number))
    }
}

/// What the establishment walk selects from a configuration, if anything.
///
/// The walk visits every interface, every alternate setting and every
/// endpoint, always keeping the most recently seen candidate: the adapter's
/// own configuration exposes exactly one interface with one IN and one OUT
/// interrupt endpoint, so last-seen is definitionally the right one, and
/// this overwrite-and-keep-last policy is preserved deliberately. The
/// selection therefore comes entirely from the last interface: its last
/// setting's numbers, and the addresses of the last IN and last OUT
/// endpoint among all its settings' endpoints. If any of the three is
/// missing, nothing is selected.
pub open spec fn walk_selection(c: ConfigDesc) -> Option<Selection> {
    if c.interfaces@.len() == 0 {
        None
    } else {
        let iface = c.interfaces@.last();
        if iface.settings@.len() == 0 {
            None
        } else {
            let eps = iface_endpoints(iface.settings@);
            let ein = last_addr(eps, Direction::In);
            let eout = last_addr(eps, Direction::Out);
            if ein is Some && eout is Some {
                Some(
                    Selection {
                        config_number: c.number,
                        interface_number: iface.settings@.last().interface_number,
                        setting_number: iface.settings@.last().setting_number,
                        endpoint_in: ein->0,
                        endpoint_out: eout->0,
                    },
                )
            } else {
                None
            }
        }
    }
}

/// Whether a device descriptor identifies the GameCube controller adapter.
pub open spec fn is_adapter_id(id: DeviceId) -> bool {
    id.vendor_id == VENDOR_ID && id.product_id == PRODUCT_ID
}

impl DeviceId {
    /// Returns whether this device is the adapter this library drives.
    pub fn is_adapter(&self) -> (r: bool)
        ensures
            r == is_adapter_id(*self),
    {
        self.vendor_id == VENDOR_ID && self.product_id == PRODUCT_ID
    }
}

/// Whether this descriptor-read outcome stops the device scan: either the
/// read failed, or the device is the adapter.
pub open spec fn stops_scan(outcome: Result<DeviceId, UsbErrorCode>) -> bool {
    match outcome {
        Ok(id) => is_adapter_id(id),
        Err(_) => true,
    }
}

/// What scanning the device list yields, given the outcome of reading each
/// device's descriptor in enumeration order. The first failed read wins and
/// aborts the scan as a transport error; otherwise the position of the
/// first adapter is returned, or nothing when no device matches (the
/// adapter may simply not be plugged in).
pub open spec fn scan_devices(outcomes: Seq<Result<DeviceId, UsbErrorCode>>) -> Result<
    Option<int>,
    Error,
>
    decreases outcomes.len(),
{
    if outcomes.len() == 0 {
        Ok(None)
    } else {
        match outcomes[0] {
            Err(code) => Err(Error::Usb(code)),
            Ok(id) => if is_adapter_id(id) {
                Ok(Some(0))
            } else {
                match scan_devices(outcomes.drop_first()) {
                    Ok(Some(idx)) => Ok(Some(idx + 1)),
                    Ok(None) => Ok(None),
                    Err(e) => Err(e),
                }
            },
        }
    }
}

proof fn lemma_scan_stops_at(s: Seq<Result<DeviceId, UsbErrorCode>>, i: int)
    requires
        0 <= i < s.len(),
        forall|k: int| 0 <= k < i ==> !stops_scan(s[k]),
        stops_scan(s[i]),
    ensures
        scan_devices(s) == (match s[i] {
            Err(code) => Err::<Option<int>, Error>(Error::Usb(code)),
            Ok(_) => Ok::<Option<int>, Error>(Some(i)),
        }),
    decreases i,
{
    if i > 0 {
        assert(!stops_scan(s[0]));
        let rest = s.drop_first();
        assert forall|k: int| 0 <= k < i - 1 implies !stops_scan(rest[k]) by {
            assert(rest[k] == s[k + 1]);
        }
        assert(rest[i - 1] == s[i]);
        lemma_scan_stops_at(rest, i - 1);
    }
}

proof fn lemma_scan_no_stop(s: Seq<Result<DeviceId, UsbErrorCode>>)
    requires
        forall|k: int| 0 <= k < s.len() ==> !stops_scan(s[k]),
    ensures
        scan_devices(s) == Ok::<Option<int>, Error>(None),
    decreases s.len(),
{
    if s.len() > 0 {
        assert(!stops_scan(s[0]));
        let rest = s.drop_first();
        assert forall|k: int| 0 <= k < rest.len() implies !stops_scan(rest[k]) by {
            assert(rest[k] == s[k + 1]);
        }
        lemma_scan_no_stop(rest);
    }
}

/// Returns the position of the first adapter in the enumerated device list,
/// given each device's descriptor-read outcome in enumeration order.
///
/// A failed descriptor read aborts the scan at once and is surfaced as a
/// transport error (first failure wins; the list is not consumed further);
/// `Ok(None)` means no device matched, which is not an error.
#[verifier::loop_isolation(false)]
pub fn find_adapter_index(outcomes: &Vec<Result<DeviceId, UsbErrorCode>>) -> (r: Result<
    Option<usize>,
    Error,
>)
    ensures
        (match r {
            Ok(Some(idx)) => scan_devices(outcomes@) == Ok::<Option<int>, Error>(
                Some(idx as int),
            ) && idx < outcomes@.len(),
            Ok(None) => scan_devices(outcomes@) == Ok::<Option<int>, Error>(None),
            Err(e) => scan_devices(outcomes@) == Err::<Option<int>, Error>(e),
        }),
{
    let n: usize = outcomes.len();
    let mut i: usize = 0;
    while i < n
        invariant
            i <= n,
            forall|k: int| 0 <= k < i ==> !stops_scan(outcomes@[k]),
        decreases n - i,
    {
        match &outcomes[i] {
            Err(code) => {
                proof {
                    lemma_scan_stops_at(outcomes@, i as int);
                }
                return Err(Error::Usb(*code));
            },
            Ok(id) => {
                if id.is_adapter() {
                    proof {
                        lemma_scan_stops_at(outcomes@, i as int);
                    }
                    return Ok(Some(i));
                }
            },
        }
        i = i + 1;
    }
    proof {
        lemma_scan_no_stop(outcomes@);
    }
    Ok(None)
}

/// Whether the walk state (last seen setting numbers, last seen IN and OUT
/// endpoint addresses) is what a full walk of the given settings leaves.
spec fn walk_state_of(
    settings: Seq<AltSetting>,
    nums: Option<(u8, u8)>,
    ein: Option<u8>,
    eout: Option<u8>,
) -> bool {
    &&& nums == last_setting_nums(settings)
    &&& ein == last_addr(iface_endpoints(settings), Direction::In)
    &&& eout == last_addr(iface_endpoints(settings), Direction::Out)
}

proof fn lemma_iface_endpoints_take_step(settings: Seq<AltSetting>, j: int)
    requires
        0 <= j < settings.len(),
    ensures
        iface_endpoints(settings.take(j + 1)) == iface_endpoints(settings.take(j))
            + settings[j].endpoints@,
{
    assert(settings.take(j + 1).drop_last() =~= settings.take(j));
    assert(settings.take(j + 1).last() == settings[j]);
}

proof fn lemma_last_addr_push(eps: Seq<EndpointDesc>, e: EndpointDesc, dir: Direction)
    ensures
        last_addr(eps.push(e), dir) == (if e.direction == dir {
            Some(e.address)
        } else {
            last_addr(eps, dir)
        }),
{
    assert(eps.push(e).drop_last() =~= eps);
    assert(eps.push(e).last() == e);
}

/// Walks a configuration's descriptor tree, keeping the most recently seen
/// interface descriptor and endpoint addresses, and returns the selection a
/// session is established with; if no interface offered both an IN and an
/// OUT endpoint, fails with `UnrecognizedProtocol`.
#[verifier::loop_isolation(false)]
pub fn select_endpoints(config: &ConfigDesc) -> (r: Result<Selection, Error>)
    ensures
        (match r {
            Ok(sel) => walk_selection(*config) == Some(sel),
            Err(e) => e == Error::UnrecognizedProtocol && walk_selection(*config) is None,
        }),
{
    let mut setting_nums: Option<(u8, u8)> = None;
    let mut endpoint_in: Option<u8> = None;
    let mut endpoint_out: Option<u8> = None;

    let n: usize = config.interfaces.len();
    let mut i: usize = 0;
    while i < n
        invariant
            i <= n,
            i == 0 ==> setting_nums is None && endpoint_in is None && endpoint_out is None,
            i > 0 ==> walk_state_of(
                config.interfaces@[i - 1].settings@,
                setting_nums,
                endpoint_in,
                endpoint_out,
            ),
        decreases n - i,
    {
        setting_nums = None;
        endpoint_in = None;
        endpoint_out = None;
        let iface: &InterfaceDesc = &config.interfaces[i];
        let m: usize = iface.settings.len();
        let mut j: usize = 0;
        while j < m
            invariant
                j <= m,
                walk_state_of(
                    iface.settings@.take(j as int),
                    setting_nums,
                    endpoint_in,
                    endpoint_out,
                ),
            decreases m - j,
        {
            let setting: &AltSetting = &iface.settings[j];
            let ecount: usize = setting.endpoints.len();
            proof {
                assert(iface_endpoints(iface.settings@.take(j as int))
                    + setting.endpoints@.take(0) =~= iface_endpoints(
                    iface.settings@.take(j as int),
                ));
            }
            let mut k: usize = 0;
            while k < ecount
                invariant
                    k <= ecount,
                    setting_nums == last_setting_nums(iface.settings@.take(j as int)),
                    endpoint_in == last_addr(
                        iface_endpoints(iface.settings@.take(j as int))
                            + setting.endpoints@.take(k as int),
                        Direction::In,
                    ),
                    endpoint_out == last_addr(
                        iface_endpoints(iface.settings@.take(j as int))
                            + setting.endpoints@.take(k as int),
                        Direction::Out,
                    ),
                decreases ecount - k,
            {
                let ep: &EndpointDesc = &setting.endpoints[k];
                proof {
                    let prefix = iface_endpoints(iface.settings@.take(j as int))
                        + setting.endpoints@.take(k as int);
                    assert(iface_endpoints(iface.settings@.take(j as int))
                        + setting.endpoints@.take(k + 1) =~= prefix.push(
                        setting.endpoints@[k as int],
                    ));
                    lemma_last_addr_push(prefix, setting.endpoints@[k as int], Direction::In);
                    lemma_last_addr_push(prefix, setting.endpoints@[k as int], Direction::Out);
                }
                match ep.direction {
                    Direction::In => {
                        endpoint_in = Some(ep.address);
                    },
                    Direction::Out => {
                        endpoint_out = Some(ep.address);
                    },
                }
                k = k + 1;
            }
            proof {
                assert(setting.endpoints@.take(ecount as int) =~= setting.endpoints@);
                lemma_iface_endpoints_take_step(iface.settings@, j as int);
                assert(iface.settings@.take(j + 1).last() == iface.settings@[j as int]);
            }
            setting_nums = Some((setting.interface_number, setting.setting_number));
            j = j + 1;
        }
        proof {
            assert(iface.settings@.take(m as int) =~= iface.settings@);
        }
        i = i + 1;
    }
    proof {
        if n > 0 {
            assert(config.interfaces@[n - 1] == config.interfaces@.last());
        }
    }
    match (setting_nums, endpoint_in, endpoint_out) {
        (Some(nums), Some(ein), Some(eout)) => Ok(
            Selection {
                config_number: config.number,
                interface_number: nums.0,
                setting_number: nums.1,
                endpoint_in: ein,
                endpoint_out: eout,
            },
        ),
        _ => Err(Error::UnrecognizedProtocol),
    }
}

} // verus!
