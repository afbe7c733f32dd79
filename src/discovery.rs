//! Choosing the desk among scanned peripherals and binding its characteristics.
use vstd::prelude::*;
use vstd::string::*;

use crate::error::DeskError;
use crate::gatt::{find_characteristic, is_uuid, Uuid, CONTROL_UUID, STATUS_UUID};
use crate::session::DeskSession;

verus! {

/// The text a desk's advertised name contains.
pub open spec fn desk_marker() -> Seq<char> {
    seq!['D', 'e', 's', 'k']
}

/// Whether `t` occurs in `s` starting at position `i`.
pub open spec fn occurs_at(s: Seq<char>, t: Seq<char>, i: int) -> bool {
    0 <= i && i + t.len() <= s.len() && s.subrange(i, i + t.len()) == t
}

/// Whether `t` occurs anywhere in `s`.
pub open spec fn contains_seq(s: Seq<char>, t: Seq<char>) -> bool {
    exists|i: int| occurs_at(s, t, i)
}

/// Whether a peripheral with this advertised name is taken for a desk.
pub open spec fn names_desk(name: Option<String>) -> bool {
    match name {
        Some(s) => contains_seq(s@, desk_marker()),
        None => false,
    }
}

/// `i` is the first of `names` that is taken for a desk.
pub open spec fn first_desk(names: Seq<Option<String>>, i: int) -> bool {
    &&& 0 <= i < names.len()
    &&& names_desk(names[i])
    &&& forall|j: int| 0 <= j < i ==> !names_desk(#[trigger] names[j])
}

/// None of `names` is taken for a desk.
pub open spec fn no_desk(names: Seq<Option<String>>) -> bool {
    forall|j: int| 0 <= j < names.len() ==> !names_desk(#[trigger] names[j])
}

/// Some characteristic of `uuids` has the 128-bit UUID `target`.
pub open spec fn offers(uuids: Seq<Uuid>, target: u128) -> bool {
    exists|j: int| 0 <= j < uuids.len() && is_uuid(#[trigger] uuids[j], target)
}

/// Whether `name` contains "Desk".
pub fn contains_desk(name: &str) -> (r: bool)
    ensures
        r == contains_seq(name@, desk_marker()),
{
    let n = name.unicode_len();
    if n < 4 {
        assert forall|i: int| !occurs_at(name@, desk_marker(), i) by {}
        return false;
    }
    let mut i: usize = 0;
    while i <= n - 4
        invariant
            n == name@.len(),
            4 <= n,
            i <= n - 3,
            forall|k: int| 0 <= k < i ==> !occurs_at(name@, desk_marker(), k),
        decreases n - i,
    {
        if name.get_char(i) == 'D' && name.get_char(i + 1) == 'e' && name.get_char(i + 2) == 's'
            && name.get_char(i + 3) == 'k' {
            assert(name@.subrange(i as int, i + 4) =~= desk_marker());
            assert(occurs_at(name@, desk_marker(), i as int));
            return true;
        }
        assert(!occurs_at(name@, desk_marker(), i as int)) by {
            if name@.subrange(i as int, i + 4) == desk_marker() {
                assert(name@.subrange(i as int, i + 4)[0] == name@[i as int]);
                assert(name@.subrange(i as int, i + 4)[1] == name@[i + 1]);
                assert(name@.subrange(i as int, i + 4)[2] == name@[i + 2]);
                assert(name@.subrange(i as int, i + 4)[3] == name@[i + 3]);
            }
        }
        i = i + 1;
    }
    assert forall|k: int| !occurs_at(name@, desk_marker(), k) by {
        if 0 <= k < i {
        }
    }
    false
}

/// Whether a peripheral advertising `local_name` is taken for a desk.
pub fn advertises_desk(local_name: &Option<String>) -> (r: bool)
    ensures
        r == names_desk(*local_name),
{
    match local_name {
        Some(s) => contains_desk(s.as_str()),
        None => false,
    }
}

/// Picks the desk among the peripherals a scan found, given their advertised
/// names: the first whose name contains "Desk".
pub fn select_desk(names: &Vec<Option<String>>) -> (r: Result<usize, DeskError>)
    ensures
        r is Err <==> no_desk(names@),
        r is Err ==> r->Err_0 == DeskError::DeviceNotFound,
        r is Ok ==> first_desk(names@, r->Ok_0 as int),
{
    let mut i: usize = 0;
    while i < names.len()
        invariant
            i <= names@.len(),
            forall|j: int| 0 <= j < i ==> !names_desk(#[trigger] names@[j]),
        decreases names@.len() - i,
    {
        if advertises_desk(&names[i]) {
            return Ok(i);
        }
        i = i + 1;
    }
    Err(DeskError::DeviceNotFound)
}

/// Binds the control and status characteristics among those the connected
/// peripheral offers, given their UUIDs. Each is the first with its UUID; a
/// peripheral lacking either is not a desk.
pub fn bind_characteristics(uuids: &Vec<Uuid>) -> (r: Result<DeskSession, DeskError>)
    ensures
        r is Ok <==> offers(uuids@, CONTROL_UUID) && offers(uuids@, STATUS_UUID),
        r is Err ==> r->Err_0 == DeskError::CharacteristicMissing,
        r is Ok ==> r->Ok_0.bound_to(uuids@) && r->Ok_0.first_bound(uuids@),
{
    let control = match find_characteristic(uuids, CONTROL_UUID) {
        Some(c) => c,
        None => return Err(DeskError::CharacteristicMissing),
    };
    let status = match find_characteristic(uuids, STATUS_UUID) {
        Some(s) => s,
        None => return Err(DeskError::CharacteristicMissing),
    };
    Ok(DeskSession::new(control, status))
}

/// Where discovery stands: the next thing to do on the radio, or its outcome.
#[derive(Debug, Clone, Copy, PartialEq, Eq, Structural)]
pub enum DiscoveryStep {
    /// Acquire the host's adapter and start a scan on it.
    AcquireAdapter,
    /// Let advertisements settle, then list the names of the peripherals seen.
    Scan,
    /// Connect to the chosen peripheral.
    Connect { peripheral: usize },
    /// List the characteristics of the connected peripheral.
    DiscoverCharacteristics { peripheral: usize },
    /// The desk is connected and bound.
    Done { peripheral: usize, session: DeskSession },
    /// Discovery failed; it is not retried.
    Failed { error: DeskError },
}

/// What the radio reported for the step just performed.
#[derive(Debug)]
pub enum DiscoveryEvent {
    /// Whether an adapter was found.
    Adapter { present: bool },
    /// The advertised names of the peripherals the scan found, in order.
    Scanned { names: Vec<Option<String>> },
    /// Whether the connection succeeded.
    Connected { ok: bool },
    /// The UUIDs of the peripheral's characteristics, in order.
    Characteristics { uuids: Vec<Uuid> },
}

/// The step that follows `step` once the radio reported `event`. An event
/// that does not answer the step leaves it as it is.
pub open spec fn next_step(step: DiscoveryStep, event: DiscoveryEvent, next: DiscoveryStep) -> bool {
    match (step, event) {
        (DiscoveryStep::AcquireAdapter, DiscoveryEvent::Adapter { present }) => next == if present {
            DiscoveryStep::Scan
        } else {
            DiscoveryStep::Failed { error: DeskError::AdapterUnavailable }
        },
        (DiscoveryStep::Scan, DiscoveryEvent::Scanned { names }) => if no_desk(names@) {
            next == DiscoveryStep::Failed { error: DeskError::DeviceNotFound }
        } else {
            match next {
                DiscoveryStep::Connect { peripheral } => first_desk(names@, peripheral as int),
                _ => false,
            }
        },
        (DiscoveryStep::Connect { peripheral }, DiscoveryEvent::Connected { ok }) => next == if ok {
            DiscoveryStep::DiscoverCharacteristics { peripheral }
        } else {
            DiscoveryStep::Failed { error: DeskError::ConnectionFailed }
        },
        (
            DiscoveryStep::DiscoverCharacteristics { peripheral },
            DiscoveryEvent::Characteristics { uuids },
        ) => if offers(uuids@, CONTROL_UUID) && offers(uuids@, STATUS_UUID) {
            match next {
                DiscoveryStep::Done { peripheral: p, session } => p == peripheral && session.bound_to(
                    uuids@,
                ) && session.first_bound(uuids@),
                _ => false,
            }
        } else {
            next == DiscoveryStep::Failed { error: DeskError::CharacteristicMissing }
        },
        _ => next == step,
    }
}

/// Advances discovery by one step on the radio's report.
pub fn advance(step: DiscoveryStep, event: &DiscoveryEvent) -> (r: DiscoveryStep)
    ensures
        next_step(step, *event, r),
{
    match (step, event) {
        (DiscoveryStep::AcquireAdapter, DiscoveryEvent::Adapter { present }) => {
            if *present {
                DiscoveryStep::Scan
            } else {
                DiscoveryStep::Failed { error: DeskError::AdapterUnavailable }
            }
        },
        (DiscoveryStep::Scan, DiscoveryEvent::Scanned { names }) => match select_desk(names) {
            Ok(peripheral) => DiscoveryStep::Connect { peripheral },
            Err(error) => DiscoveryStep::Failed { error },
        },
        (DiscoveryStep::Connect { peripheral }, DiscoveryEvent::Connected { ok }) => {
            if *ok {
                DiscoveryStep::DiscoverCharacteristics { peripheral }
            } else {
                DiscoveryStep::Failed { error: DeskError::ConnectionFailed }
            }
        },
        (
            DiscoveryStep::DiscoverCharacteristics { peripheral },
            DiscoveryEvent::Characteristics { uuids },
        ) => match bind_characteristics(uuids) {
            Ok(session) => DiscoveryStep::Done { peripheral, session },
            Err(error) => DiscoveryStep::Failed { error },
        },
        _ => step,
    }
}

/// With an adapter present, a scan on which no peripheral advertises a name
/// containing "Desk" ends discovery with `DeviceNotFound`, and nothing more is
/// attempted.
pub proof fn lemma_no_desk_not_found(names: Vec<Option<String>>, s1: DiscoveryStep, s2: DiscoveryStep)
    requires
        no_desk(names@),
        next_step(DiscoveryStep::AcquireAdapter, DiscoveryEvent::Adapter { present: true }, s1),
        next_step(s1, DiscoveryEvent::Scanned { names }, s2),
    ensures
        s2 == (DiscoveryStep::Failed { error: DeskError::DeviceNotFound }),
{
}

/// With an adapter present and a desk found and connected, a desk that lacks
/// the status characteristic ends discovery with `CharacteristicMissing`.
pub proof fn lemma_missing_status_characteristic(
    names: Vec<Option<String>>,
    uuids: Vec<Uuid>,
    s1: DiscoveryStep,
    s2: DiscoveryStep,
    s3: DiscoveryStep,
    s4: DiscoveryStep,
)
    requires
        !offers(uuids@, STATUS_UUID),
        next_step(DiscoveryStep::AcquireAdapter, DiscoveryEvent::Adapter { present: true }, s1),
        next_step(s1, DiscoveryEvent::Scanned { names }, s2),
        s2 is Connect,
        next_step(s2, DiscoveryEvent::Connected { ok: true }, s3),
        next_step(s3, DiscoveryEvent::Characteristics { uuids }, s4),
    ensures
        s4 == (DiscoveryStep::Failed { error: DeskError::CharacteristicMissing }),
{
}

} // verus!
