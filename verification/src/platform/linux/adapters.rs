//! Wi-Fi device enumeration and ifname-to-device-path resolution.

use vstd::prelude::*;

use crate::backend::{adapter_views, AdapterInfo, AdapterView};
use crate::error::{failure, Error, ErrorView};
use crate::search::{
    first_settled,
    search,
    search_fails_at_the_first_failure,
    search_finds_the_first_match,
    verdict_views,
    Found,
    FoundView,
    Verdict,
    VerdictView,
};
use crate::text::same_text;
use crate::types::AdapterId;

verus! {

broadcast use vstd::string::group_string_axioms;

/// `NMDeviceType::Wifi`.
pub const NM_DEVICE_TYPE_WIFI: u32 = 2;

/// What was read about a device.
#[derive(Debug)]
pub enum DeviceReading {
    /// There is no access to the device at all.
    Unreachable(Error),
    Read {
        /// `None` if the device disappeared meanwhile.
        device_type: Option<u32>,
        /// The kernel's name of the interface.
        interface: Result<String, Error>,
    },
}

/// What a device is to this backend.
pub enum DeviceView {
    NotWifi,
    Wifi(Seq<char>),
    Failed(ErrorView),
}

impl View for DeviceReading {
    type V = DeviceView;

    open spec fn view(&self) -> DeviceView {
        match self {
            DeviceReading::Unreachable(e) => DeviceView::Failed(e@),
            DeviceReading::Read { device_type, interface } => if *device_type == Some(
                NM_DEVICE_TYPE_WIFI,
            ) {
                match interface {
                    Ok(name) => DeviceView::Wifi(name@),
                    Err(e) => DeviceView::Failed(e@),
                }
            } else {
                DeviceView::NotWifi
            },
        }
    }
}

/// The adapter of an interface: its id is the name, its label is made from it.
pub open spec fn wifi_adapter(ifname: Seq<char>) -> AdapterView {
    AdapterView { id: ifname, name: "Wi-Fi ("@ + ifname + ")"@ }
}

/// The adapters among devices, or the error of the first that failed.
pub open spec fn wifi_adapters(devices: Seq<DeviceReading>) -> Result<Seq<AdapterView>, ErrorView>
    decreases devices.len(),
{
    if devices.len() == 0 {
        Ok(seq![])
    } else {
        match wifi_adapters(devices.drop_last()) {
            Err(e) => Err(e),
            Ok(before) => match devices.last()@ {
                DeviceView::Failed(e) => Err(e),
                DeviceView::NotWifi => Ok(before),
                DeviceView::Wifi(name) => Ok(before.push(wifi_adapter(name))),
            },
        }
    }
}

proof fn lemma_failed_early(devices: Seq<DeviceReading>, n: int)
    requires
        0 <= n <= devices.len(),
        wifi_adapters(devices.take(n)) is Err,
    ensures
        wifi_adapters(devices) == wifi_adapters(devices.take(n)),
    decreases devices.len(),
{
    if n == devices.len() {
        assert(devices.take(n) =~= devices);
    } else {
        assert(devices.drop_last().take(n) =~= devices.take(n));
        lemma_failed_early(devices.drop_last(), n);
    }
}

/// Every Wi-Fi `AdapterInfo` among the devices known to `NetworkManager`. A
/// device that disappeared meanwhile is skipped; one that cannot be read is an
/// error.
pub fn list_wifi_adapters(devices: Vec<DeviceReading>) -> (r: Result<Vec<AdapterInfo>, Error>)
    ensures
        match wifi_adapters(devices@) {
            Ok(adapters) => r is Ok && adapter_views(r->Ok_0@) == adapters,
            Err(e) => failure(r) == Some(e),
        },
{
    let ghost all = devices@;
    let mut out: Vec<AdapterInfo> = Vec::new();
    assert(adapter_views(out@) =~= seq![]);
    for device in it: devices
        invariant
            all == it.seq(),
            wifi_adapters(all.take(it.index() as int)) == Ok::<Seq<AdapterView>, ErrorView>(
                adapter_views(out@),
            ),
    {
        let ghost n = it.index() as int;
        let ghost was = out@;
        assert(all.take(n + 1).drop_last() =~= all.take(n));
        match device {
            DeviceReading::Unreachable(e) => {
                proof {
                    lemma_failed_early(all, n + 1);
                }
                return Err(e);
            },
            DeviceReading::Read { device_type: Some(NM_DEVICE_TYPE_WIFI), interface } => {
                match interface {
                    Ok(ifname) => {
                        let mut name = "Wi-Fi (".to_owned();
                        name.push_str(ifname.as_str());
                        name.push_str(")");
                        let info = AdapterInfo { id: AdapterId::new(ifname.as_str()), name };
                        out.push(info);
                        assert(adapter_views(out@) =~= adapter_views(was).push(
                            wifi_adapter(ifname@),
                        ));
                    },
                    Err(e) => {
                        proof {
                            lemma_failed_early(all, n + 1);
                        }
                        return Err(e);
                    },
                }
            },
            _ => {},
        }
    }
    assert(all.take(all.len() as int) =~= all);
    Ok(out)
}

/// What a device means for the search for an adapter.
pub open spec fn device_verdict(device: DeviceReading, adapter: Seq<char>) -> VerdictView {
    match device@ {
        DeviceView::Failed(e) => VerdictView::Fail(e),
        DeviceView::NotWifi => VerdictView::Skip,
        DeviceView::Wifi(name) => if name == adapter {
            VerdictView::Match
        } else {
            VerdictView::Skip
        },
    }
}

/// What each device means for the search for an adapter.
pub open spec fn device_verdicts(devices: Seq<DeviceReading>, adapter: Seq<char>) -> Seq<
    VerdictView,
> {
    devices.map_values(|d: DeviceReading| device_verdict(d, adapter))
}

fn judge_device(device: DeviceReading, adapter: &AdapterId) -> (r: Verdict)
    ensures
        r@ == device_verdict(device, adapter@),
{
    match device {
        DeviceReading::Unreachable(e) => Verdict::Fail(e),
        DeviceReading::Read { device_type: Some(NM_DEVICE_TYPE_WIFI), interface } => match interface {
            Ok(ifname) => if same_text(ifname.as_str(), adapter.as_str()) {
                Verdict::Match
            } else {
                Verdict::Skip
            },
            Err(e) => Verdict::Fail(e),
        },
        _ => Verdict::Skip,
    }
}

/// Resolve an `AdapterId` (kernel ifname) to the index of its device.
///
/// # Errors
///
/// Returns `Error::AdapterNotFound` if no Wi-Fi device has that ifname, and the
/// error of a device that could not be read before one with that name was found.
pub fn resolve_device_path(devices: Vec<DeviceReading>, adapter: &AdapterId) -> (r: Result<
    usize,
    Error,
>)
    ensures
        match search(device_verdicts(devices@, adapter@)) {
            FoundView::At(i) => r == Ok::<usize, Error>(i as usize) && 0 <= i < devices@.len(),
            FoundView::Nowhere => failure(r) == Some(ErrorView::AdapterNotFound(adapter@)),
            FoundView::Failed(e) => failure(r) == Some(e),
        },
{
    let ghost wanted = device_verdicts(devices@, adapter@);
    let count: usize = devices.len();
    let mut verdicts: Vec<Verdict> = Vec::new();
    for device in it: devices
        invariant
            wanted == device_verdicts(it.seq(), adapter@),
            it.seq().len() == count,
            verdict_views(verdicts@) =~= wanted.take(it.index() as int),
    {
        let ghost was = verdicts@;
        let v = judge_device(device, adapter);
        verdicts.push(v);
        assert(verdict_views(verdicts@) =~= verdict_views(was).push(v@));
    }
    assert(wanted.take(wanted.len() as int) =~= wanted);
    proof {
        crate::search::lemma_found_in_range(wanted);
    }
    match first_settled(verdicts) {
        Found::At(i) => Ok(i),
        Found::Nowhere => Err(Error::AdapterNotFound(adapter.to_string())),
        Found::Failed(e) => Err(e),
    }
}

/// The adapters are those of the devices of the Wi-Fi type, in their order, each
/// under its interface name; listing them fails exactly when a device could not be
/// reached, or is a Wi-Fi device without a readable name, with the error of the
/// first such device.
pub proof fn adapters_are_the_wifi_devices(devices: Seq<DeviceReading>)
    ensures
        match wifi_adapters(devices) {
            Ok(adapters) => {
                &&& forall|k: int|
                    0 <= k < devices.len() ==> (#[trigger] devices[k]) is Read && (
                    devices[k]->device_type == Some(2u32) ==> devices[k]->interface is Ok)
                &&& adapters == devices.filter(
                    |d: DeviceReading| d is Read && d->device_type == Some(2u32),
                ).map_values(
                    |d: DeviceReading|
                        AdapterView {
                            id: d->interface->Ok_0@,
                            name: "Wi-Fi ("@ + d->interface->Ok_0@ + ")"@,
                        },
                )
            },
            Err(e) => exists|i: int|
                0 <= i < devices.len() && (match #[trigger] devices[i] {
                    DeviceReading::Unreachable(error) => error@ == e,
                    DeviceReading::Read { device_type, interface } => device_type == Some(2u32)
                        && interface is Err && interface->Err_0@ == e,
                }) && forall|k: int|
                    0 <= k < i ==> (#[trigger] devices[k]) is Read && (devices[k]->device_type
                        == Some(2u32) ==> devices[k]->interface is Ok),
        },
    decreases devices.len(),
{
    reveal(Seq::filter);
    let wifi = |d: DeviceReading| d is Read && d->device_type == Some(2u32);
    let adapter = |d: DeviceReading|
        AdapterView { id: d->interface->Ok_0@, name: "Wi-Fi ("@ + d->interface->Ok_0@ + ")"@ };
    if devices.len() == 0 {
        assert(devices.filter(wifi).map_values(adapter) =~= seq![]);
    } else {
        let rest = devices.drop_last();
        let last = devices.len() - 1;
        adapters_are_the_wifi_devices(rest);
        assert(forall|k: int| 0 <= k < last ==> (#[trigger] rest[k]) == devices[k]);
        match wifi_adapters(rest) {
            Err(e) => {
                let i = choose|i: int|
                    0 <= i < rest.len() && (match #[trigger] rest[i] {
                        DeviceReading::Unreachable(error) => error@ == e,
                        DeviceReading::Read { device_type, interface } => device_type == Some(2u32)
                            && interface is Err && interface->Err_0@ == e,
                    }) && forall|k: int|
                        0 <= k < i ==> (#[trigger] rest[k]) is Read && (rest[k]->device_type
                            == Some(2u32) ==> rest[k]->interface is Ok);
                assert(devices[i] == rest[i]);
                assert forall|k: int| 0 <= k < i implies (#[trigger] devices[k]) is Read && (
                devices[k]->device_type == Some(2u32) ==> devices[k]->interface is Ok) by {
                    assert(rest[k] == devices[k]);
                }
            },
            Ok(before) => {
                assert forall|k: int| 0 <= k < last implies (#[trigger] devices[k]) is Read && (
                devices[k]->device_type == Some(2u32) ==> devices[k]->interface is Ok) by {
                    assert(rest[k] == devices[k]);
                }
                assert(devices.last() == devices[last]);
                if wifi(devices.last()) {
                    assert(devices.filter(wifi) =~= rest.filter(wifi).push(devices.last()));
                    assert(devices.filter(wifi).map_values(adapter) =~= rest.filter(
                        wifi,
                    ).map_values(adapter).push(adapter(devices.last())));
                } else {
                    assert(devices.filter(wifi) =~= rest.filter(wifi));
                }
            },
        }
    }
}

/// The device that an adapter resolves to is of the Wi-Fi type and has exactly that
/// interface name, and no device before it is so or could not be read; there is
/// none only when no Wi-Fi device has the name.
pub proof fn adapters_resolve_by_name(devices: Seq<DeviceReading>, adapter: Seq<char>, k: int)
    requires
        0 <= k < devices.len(),
    ensures
        ({
            let d = devices[k];
            let wifi = d is Read && d->device_type == Some(2u32);
            let named = wifi && d->interface is Ok && d->interface->Ok_0@ == adapter;
            let failed = d is Unreachable || (wifi && d->interface is Err);
            match search(device_verdicts(devices, adapter)) {
                FoundView::At(i) => 0 <= i < devices.len() && (k == i ==> named) && (k < i ==> !named
                    && !failed),
                FoundView::Nowhere => !named && !failed,
                FoundView::Failed(e) => exists|i: int|
                    0 <= i < devices.len() && (k < i ==> !named && !failed) && (
                    match #[trigger] devices[i] {
                        DeviceReading::Unreachable(error) => error@ == e,
                        DeviceReading::Read { device_type, interface } => device_type == Some(2u32)
                            && interface is Err && interface->Err_0@ == e,
                    }),
            }
        }),
{
    let verdicts = device_verdicts(devices, adapter);
    assert(verdicts[k] == device_verdict(devices[k], adapter));
    match search(verdicts) {
        FoundView::At(i) => {
            search_finds_the_first_match(verdicts, i);
        },
        FoundView::Nowhere => {
            search_finds_the_first_match(verdicts, 0);
        },
        FoundView::Failed(e) => {
            search_fails_at_the_first_failure(verdicts, e);
            let i = choose|i: int|
                0 <= i < verdicts.len() && verdicts[i] == VerdictView::Fail(e) && forall|m: int|
                    0 <= m < i ==> verdicts[m] is Skip;
            assert(verdicts[i] == device_verdict(devices[i], adapter));
        },
    }
}

} // verus!
