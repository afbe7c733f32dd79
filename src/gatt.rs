//! Characteristic identifiers of the desk's GATT service.
use vstd::prelude::*;

verus! {

/// A characteristic's UUID: a 16-bit short form or a full 128-bit value.
#[derive(Debug, Clone, Copy, PartialEq, Eq, Structural)]
pub enum Uuid {
    Short(u16),
    Long(u128),
}

/// The control characteristic, 99fa0002-338a-1024-8a49-009c0215f78a.
pub const CONTROL_UUID: u128 = 0x99fa0002_338a_1024_8a49_009c0215f78a;

/// The status characteristic, 99fa0021-338a-1024-8a49-009c0215f78a.
pub const STATUS_UUID: u128 = 0x99fa0021_338a_1024_8a49_009c0215f78a;

/// The position characteristic, 99fa0020-338a-1024-8a49-009c0215f78a; not used
/// by the current operations.
pub const POSITION_UUID: u128 = 0x99fa0020_338a_1024_8a49_009c0215f78a;

/// Whether `u` is the 128-bit UUID `target`.
pub open spec fn is_uuid(u: Uuid, target: u128) -> bool {
    u == Uuid::Long(target)
}

/// Index of the first characteristic whose UUID is `target`, if any.
pub fn find_characteristic(uuids: &Vec<Uuid>, target: u128) -> (r: Option<usize>)
    ensures
        r is None <==> forall|j: int| 0 <= j < uuids@.len() ==> !is_uuid(#[trigger] uuids@[j], target),
        r is Some ==> r->Some_0 < uuids@.len() && is_uuid(uuids@[r->Some_0 as int], target)
            && forall|j: int| 0 <= j < r->Some_0 ==> !is_uuid(#[trigger] uuids@[j], target),
{
    let mut i: usize = 0;
    while i < uuids.len()
        invariant
            i <= uuids@.len(),
            forall|j: int| 0 <= j < i ==> !is_uuid(#[trigger] uuids@[j], target),
        decreases uuids@.len() - i,
    {
        if uuids[i] == Uuid::Long(target) {
            return Some(i);
        }
        i = i + 1;
    }
    None
}

} // verus!
