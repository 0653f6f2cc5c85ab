//! Which waiter a WLAN notification is for, and what it is told.

use vstd::prelude::*;

use crate::assoc::AssocMap;
use crate::error::{failure, Error, ErrorView, OsErrorView};
use crate::platform::windows::reason::{map_reason_code, reason_as_os_error, reason_error};
use crate::platform::windows::util::{win32_error, win32_failure, Guid, GuidView};

verus! {

broadcast use vstd::string::group_string_axioms;

/// `WLAN_NOTIFICATION_SOURCE_ACM`.
pub const SOURCE_ACM: u32 = 8;

// ACM notification codes from MSDN's WLAN_NOTIFICATION_ACM enum.
pub const SCAN_COMPLETE: u32 = 7;
pub const SCAN_FAIL: u32 = 8;
pub const CONNECTION_COMPLETE: u32 = 10;
pub const CONNECTION_ATTEMPT_FAIL: u32 = 11;

/// Outcome of a connect attempt as reported by the callback.
#[derive(Debug, PartialEq, Eq, Clone, Copy, Structural)]
pub enum ConnectOutcome {
    Connected,
    Failed(u32),
}

impl ConnectOutcome {
    /// Translate to a `Result<(), Error>` using the reason-code mapper.
    ///
    /// # Errors
    ///
    /// Returns the mapped `Error` for any failure outcome.
    pub fn into_result(self) -> (r: Result<(), Error>)
        ensures
            failure(r) == (match self {
                ConnectOutcome::Connected => None,
                ConnectOutcome::Failed(code) => Some(failed_connect(code)),
            }),
    {
        match self {
            ConnectOutcome::Connected => Ok(()),
            ConnectOutcome::Failed(code) => match map_reason_code(code) {
                Err(e) => Err(e),
                Ok(()) => Err(reason_as_os_error(code)),
            },
        }
    }
}

/// The error of a connect that failed with that reason code, also where the code
/// names no reason.
pub open spec fn failed_connect(code: u32) -> ErrorView {
    match reason_error(code) {
        Some(e) => e,
        None => ErrorView::Os(OsErrorView::WlanReason(code)),
    }
}

/// What a notification says.
#[derive(Debug)]
pub struct Notification {
    /// `NotificationSource`.
    pub source: u32,
    /// `InterfaceGuid`.
    pub interface: Guid,
    /// `NotificationCode`.
    pub code: u32,
    /// The reason code in the notification's data, if there are any.
    pub reason: Option<u32>,
}

/// The reason code of a notification; one without data has a reason of its own.
pub open spec fn reason_of(data: Notification) -> u32 {
    match data.reason {
        Some(reason) => reason,
        None => 0xFFFF_FFFF,
    }
}

fn read_reason_code(data: &Notification) -> (r: u32)
    ensures
        r == reason_of(*data),
{
    match data.reason {
        Some(reason) => reason,
        None => 0xFFFF_FFFF,
    }
}

/// Whether a notification ends a connect attempt.
pub open spec fn ends_connect(data: Notification) -> bool {
    data.source == SOURCE_ACM && (data.code == CONNECTION_COMPLETE || data.code
        == CONNECTION_ATTEMPT_FAIL)
}

/// Whether a notification ends a scan.
pub open spec fn ends_scan(data: Notification) -> bool {
    data.source == SOURCE_ACM && (data.code == SCAN_COMPLETE || data.code == SCAN_FAIL)
}

/// What a connect waiter is told.
pub open spec fn connect_message(data: Notification) -> ConnectOutcome {
    if data.code == CONNECTION_COMPLETE && reason_of(data) == 0 {
        ConnectOutcome::Connected
    } else {
        ConnectOutcome::Failed(reason_of(data))
    }
}

/// The error that a scan waiter is told, if the scan failed.
pub open spec fn scan_message(data: Notification) -> Option<ErrorView> {
    if data.code == SCAN_COMPLETE {
        None
    } else {
        Some(win32_failure("WlanScan"@, reason_of(data)))
    }
}

/// A message and the waiter that it is for.
#[derive(Debug)]
pub enum Delivery<C, S> {
    Connect(C, ConnectOutcome),
    Scan(S, Result<(), Error>),
}

/// Long-lived dispatcher; one per backend. `C` and `S` are the waiters' ends of
/// whatever carries a message to them.
#[derive(Debug)]
pub struct Dispatcher<C, S> {
    connect: AssocMap<Guid, C>,
    scan: AssocMap<Guid, S>,
}

/// Who is waiting, by interface.
#[verifier::reject_recursive_types(C)]
#[verifier::reject_recursive_types(S)]
pub struct Waiters<C, S> {
    pub connect: Map<GuidView, C>,
    pub scan: Map<GuidView, S>,
}

impl<C, S> View for Dispatcher<C, S> {
    type V = Waiters<C, S>;

    closed spec fn view(&self) -> Waiters<C, S> {
        Waiters { connect: self.connect@, scan: self.scan@ }
    }
}

/// What a delivery says, with the error of a failed scan.
pub enum DeliveryView<C, S> {
    Connect(C, ConnectOutcome),
    Scan(S, Option<ErrorView>),
}

/// What a delivery says.
pub open spec fn delivery_view<C, S>(delivery: Option<Delivery<C, S>>) -> Option<
    DeliveryView<C, S>,
> {
    match delivery {
        None => None,
        Some(Delivery::Connect(waiter, outcome)) => Some(DeliveryView::Connect(waiter, outcome)),
        Some(Delivery::Scan(waiter, result)) => Some(DeliveryView::Scan(waiter, failure(result))),
    }
}

/// The message that a notification brings, and for whom: the waiter of its
/// interface and kind, if there is one.
pub open spec fn delivered<C, S>(waiters: Waiters<C, S>, data: Notification) -> Option<
    DeliveryView<C, S>,
> {
    let interface = data.interface@;
    if ends_connect(data) && waiters.connect.contains_key(interface) {
        Some(DeliveryView::Connect(waiters.connect[interface], connect_message(data)))
    } else if ends_scan(data) && waiters.scan.contains_key(interface) {
        Some(DeliveryView::Scan(waiters.scan[interface], scan_message(data)))
    } else {
        None
    }
}

/// Whether what a notification brings depends on the reason code in its data:
/// somebody waits for it, and it does not just say that a scan is complete. Only
/// then do the data have the shape that the reason code is read from.
pub open spec fn reason_matters<C, S>(waiters: Waiters<C, S>, data: Notification) -> bool {
    delivered(waiters, data) is Some && data.code != SCAN_COMPLETE
}

/// Who is still waiting after a notification.
pub open spec fn after_dispatch<C, S>(waiters: Waiters<C, S>, data: Notification) -> Waiters<C, S> {
    let interface = data.interface@;
    if ends_connect(data) {
        Waiters { connect: waiters.connect.remove(interface), ..waiters }
    } else if ends_scan(data) {
        Waiters { scan: waiters.scan.remove(interface), ..waiters }
    } else {
        waiters
    }
}

impl<C, S> Dispatcher<C, S> {
    pub fn new() -> (r: Dispatcher<C, S>)
        ensures
            r@ == (Waiters { connect: Map::<GuidView, C>::empty(), scan: Map::<GuidView, S>::empty() }),
    {
        Dispatcher { connect: AssocMap::new(), scan: AssocMap::new() }
    }

    /// Insert a pending connect-attempt waiter for `interface`. An earlier one is
    /// given up.
    pub fn pending_connect(&mut self, interface: Guid, waiter: C)
        ensures
            final(self)@ == (Waiters {
                connect: old(self)@.connect.insert(interface@, waiter),
                ..old(self)@
            }),
    {
        self.connect.insert(interface, waiter);
    }

    /// Insert a pending scan waiter for `interface`. An earlier one is given up.
    pub fn pending_scan(&mut self, interface: Guid, waiter: S)
        ensures
            final(self)@ == (Waiters {
                scan: old(self)@.scan.insert(interface@, waiter),
                ..old(self)@
            }),
    {
        self.scan.insert(interface, waiter);
    }

    /// Remove a pending connect waiter without firing it (used on cancel).
    pub fn drop_pending_connect(&mut self, interface: Guid)
        ensures
            final(self)@ == (Waiters {
                connect: old(self)@.connect.remove(interface@),
                ..old(self)@
            }),
    {
        let _waiter = self.connect.remove(&interface);
    }

    /// Remove a pending scan waiter without firing it (used after a wait
    /// timeout or a failed scan request, so a late scan-complete notification
    /// cannot mistakenly fire a subsequent scan call's waiter).
    pub fn drop_pending_scan(&mut self, interface: Guid)
        ensures
            final(self)@ == (Waiters {
                scan: old(self)@.scan.remove(interface@),
                ..old(self)@
            }),
    {
        let _waiter = self.scan.remove(&interface);
    }

    /// Whether to read the reason code of a notification before it is dispatched.
    pub fn wants_reason(&self, data: &Notification) -> (r: bool)
        ensures
            r == reason_matters(self@, *data),
    {
        if data.source != SOURCE_ACM {
            return false;
        }
        if data.code == CONNECTION_COMPLETE || data.code == CONNECTION_ATTEMPT_FAIL {
            self.connect.contains_key(&data.interface)
        } else {
            data.code == SCAN_FAIL && self.scan.contains_key(&data.interface)
        }
    }

    /// Takes the waiter that a notification is for out of the registry, with the
    /// message for it. Notifications that nobody waits for change nothing.
    pub fn dispatch(&mut self, data: &Notification) -> (r: Option<Delivery<C, S>>)
        ensures
            delivery_view(r) == delivered(old(self)@, *data),
            final(self)@ == after_dispatch(old(self)@, *data),
    {
        if data.source != SOURCE_ACM {
            return None;
        }
        if data.code == CONNECTION_COMPLETE || data.code == CONNECTION_ATTEMPT_FAIL {
            match self.connect.remove(&data.interface) {
                Some(waiter) => {
                    let reason: u32 = read_reason_code(data);
                    let outcome = if data.code == CONNECTION_COMPLETE && reason == 0 {
                        ConnectOutcome::Connected
                    } else {
                        ConnectOutcome::Failed(reason)
                    };
                    Some(Delivery::Connect(waiter, outcome))
                },
                None => None,
            }
        } else if data.code == SCAN_COMPLETE || data.code == SCAN_FAIL {
            match self.scan.remove(&data.interface) {
                Some(waiter) => {
                    let payload = if data.code == SCAN_COMPLETE {
                        Ok(())
                    } else {
                        // A failed scan carries its reason in the same shape as a
                        // connection notification.
                        Err(win32_error("WlanScan", read_reason_code(data)))
                    };
                    Some(Delivery::Scan(waiter, payload))
                },
                None => None,
            }
        } else {
            None
        }
    }
}

/// Where the reason code does not matter, leaving it out changes nothing.
pub proof fn only_a_wanted_reason_counts<C, S>(
    waiters: Waiters<C, S>,
    data: Notification,
    reason: Option<u32>,
)
    requires
        !reason_matters(waiters, data),
    ensures
        delivered(waiters, Notification { reason, ..data }) == delivered(waiters, data),
        after_dispatch(waiters, Notification { reason, ..data }) == after_dispatch(waiters, data),
{
}

/// A connect counts as established only when its completion was reported with a
/// zero reason; a missing reason is a failure.
pub proof fn connected_means_complete_without_reason(data: Notification)
    ensures
        connect_message(data) == ConnectOutcome::Connected <==> data.code == CONNECTION_COMPLETE
            && data.reason == Some(0u32),
{
}

/// A waiter is told once: another notification of the kind finds nobody waiting
/// on that interface.
pub proof fn waiters_are_told_once<C, S>(
    waiters: Waiters<C, S>,
    data: Notification,
    again: Notification,
)
    requires
        again.interface@ == data.interface@,
        (ends_connect(data) && ends_connect(again)) || (ends_scan(data) && ends_scan(again)),
    ensures
        delivered(after_dispatch(waiters, data), again) is None,
{
}

/// A notification leaves the waiters of every other interface alone.
pub proof fn interfaces_are_independent<C, S>(
    waiters: Waiters<C, S>,
    data: Notification,
    other: GuidView,
)
    requires
        other != data.interface@,
    ensures
        after_dispatch(waiters, data).connect.contains_key(other)
            == waiters.connect.contains_key(other),
        waiters.connect.contains_key(other) ==> after_dispatch(waiters, data).connect[other]
            == waiters.connect[other],
        after_dispatch(waiters, data).scan.contains_key(other) == waiters.scan.contains_key(other),
        waiters.scan.contains_key(other) ==> after_dispatch(waiters, data).scan[other]
            == waiters.scan[other],
{
}

/// A notification goes to the waiter of its own interface and kind, or to nobody,
/// and says how the attempt ended.
pub proof fn notifications_reach_their_own_waiter<C, S>(waiters: Waiters<C, S>, data: Notification)
    ensures
        ({
            let interface = data.interface@;
            let reason = if data.reason is Some { data.reason->0 } else { 0xFFFF_FFFF };
            let told = delivered(waiters, data);
            let left = after_dispatch(waiters, data);
            if data.source == 8 && (data.code == 10 || data.code == 11) {
                &&& told == if !waiters.connect.contains_key(interface) {
                    None
                } else if data.code == 10 && reason == 0 {
                    Some(
                        DeliveryView::<C, S>::Connect(waiters.connect[interface], ConnectOutcome::Connected),
                    )
                } else {
                    Some(
                        DeliveryView::<C, S>::Connect(
                            waiters.connect[interface],
                            ConnectOutcome::Failed(reason),
                        ),
                    )
                }
                &&& left.connect == waiters.connect.remove(interface)
                &&& left.scan == waiters.scan
            } else if data.source == 8 && (data.code == 7 || data.code == 8) {
                &&& told == if !waiters.scan.contains_key(interface) {
                    None
                } else if data.code == 7 {
                    Some(DeliveryView::<C, S>::Scan(waiters.scan[interface], None))
                } else {
                    Some(
                        DeliveryView::<C, S>::Scan(
                            waiters.scan[interface],
                            Some(
                                ErrorView::Os(
                                    OsErrorView::Win32 { function: "WlanScan"@, code: reason },
                                ),
                            ),
                        ),
                    )
                }
                &&& left.connect == waiters.connect
                &&& left.scan == waiters.scan.remove(interface)
            } else {
                told is None && left == waiters
            }
        }),
{
}

/// The reason code is wanted exactly of a notification that ends a connect, or
/// reports a failed scan, on an interface where somebody waits for that.
pub proof fn reasons_matter_to_waiters<C, S>(waiters: Waiters<C, S>, data: Notification)
    ensures
        reason_matters(waiters, data) <==> data.source == 8 && (((data.code == 10 || data.code == 11)
            && waiters.connect.contains_key(data.interface@)) || (data.code == 8
            && waiters.scan.contains_key(data.interface@))),
{
}

/// A failed connect is an error for every code, also for the one that names no
/// reason.
pub proof fn failed_connects_name_their_reason(code: u32)
    ensures
        failed_connect(code) == if code == 0x48011 || code == 0x2800C || code == 0x38005 {
            ErrorView::AuthenticationFailed
        } else if code == 0x28003 || code == 0x28002 || code == 0x2800D {
            ErrorView::SsidNotInRange
        } else if code == 0x38001 {
            ErrorView::UserCancelled
        } else {
            ErrorView::Os(OsErrorView::WlanReason(code))
        },
{
}

/// What a delivery says is what it holds.
pub proof fn delivery_views_are_faithful<C, S>(
    connect: C,
    scan: S,
    outcome: ConnectOutcome,
    e: Error,
)
    ensures
        delivery_view(Some(Delivery::<C, S>::Connect(connect, outcome))) == Some(
            DeliveryView::<C, S>::Connect(connect, outcome),
        ),
        delivery_view(Some(Delivery::<C, S>::Scan(scan, Ok(())))) == Some(
            DeliveryView::<C, S>::Scan(scan, None),
        ),
        delivery_view(Some(Delivery::<C, S>::Scan(scan, Err(e)))) == Some(
            DeliveryView::<C, S>::Scan(scan, Some(e@)),
        ),
        delivery_view(None::<Delivery<C, S>>) is None,
{
}

} // verus!
