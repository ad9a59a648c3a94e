use vstd::prelude::*;
use crate::packet::{TransformRecord, VehicleData, VehicleUpdatePacket};

verus! {

/// The largest number of vehicles one client may own; ids run below it.
pub const MAX_VEHICLES: u16 = 65535;

/// A vehicle: its creation descriptor and its newest transform and runtime.
#[derive(Clone, Debug)]
pub struct Vehicle {
    pub veh_data: VehicleData,
    pub latest_transform: TransformRecord,
    pub latest_runtime: VehicleUpdatePacket,
}

/// A freshly spawned vehicle: the descriptor, and both records absent.
pub open spec fn fresh_vehicle(v: Vehicle, veh_data: VehicleData) -> bool {
    &&& v.veh_data == veh_data
    &&& v.latest_transform.ms == 0
    &&& v.latest_runtime.ms == 0
}

impl Vehicle {
    /// The vehicle with `rec` as its transform if it is newer than the stored one.
    pub open spec fn with_transform(self, rec: TransformRecord) -> Vehicle {
        if rec.ms > self.latest_transform.ms {
            Vehicle { latest_transform: rec, ..self }
        } else {
            self
        }
    }

    /// The vehicle with `rec` as its runtime if it is newer than the stored one.
    pub open spec fn with_runtime(self, rec: VehicleUpdatePacket) -> Vehicle {
        if rec.ms > self.latest_runtime.ms {
            Vehicle { latest_runtime: rec, ..self }
        } else {
            self
        }
    }

    /// A vehicle built from `veh_data` with no transform or runtime record yet.
    pub fn new(veh_data: VehicleData) -> (r: Vehicle)
        ensures
            fresh_vehicle(r, veh_data),
    {
        Vehicle {
            veh_data,
            latest_transform: TransformRecord::empty(),
            latest_runtime: VehicleUpdatePacket::empty(),
        }
    }
}

/// The vehicles of one client, slot `i` holding vehicle id `i`.
#[derive(Clone, Debug)]
pub struct VehicleStore {
    pub slots: Vec<Option<Vehicle>>,
}

impl VehicleStore {
    /// Ids stay below `MAX_VEHICLES`.
    pub open spec fn wf(&self) -> bool {
        self.slots.len() <= MAX_VEHICLES
    }

    /// The vehicle with id `id`, if there is one.
    pub open spec fn vehicle(&self, id: int) -> Option<Vehicle> {
        if 0 <= id < self.slots.len() {
            self.slots@[id]
        } else {
            None
        }
    }

    /// Whether every id below `bound` is in use.
    pub open spec fn full_below(&self, bound: int) -> bool {
        forall|j: int| 0 <= j < bound ==> (#[trigger] self.vehicle(j)) is Some
    }

    /// Whether the two stores agree on every id but `id`.
    pub open spec fn same_except(&self, other: &VehicleStore, id: int) -> bool {
        forall|j: int| j != id ==> (#[trigger] self.vehicle(j)) == other.vehicle(j)
    }

    /// What allocating a vehicle id for `veh_data` does: `r` is the lowest
    /// unused id below `MAX_VEHICLES`, now holding a fresh vehicle, or `None`
    /// with nothing changed when every such id is in use.
    pub open spec fn allocated(old: VehicleStore, new: VehicleStore, veh_data: VehicleData, r: Option<u16>) -> bool {
        &&& new.wf()
        &&& match r {
            Some(id) => {
                &&& id < MAX_VEHICLES
                &&& old.vehicle(id as int) is None
                &&& old.full_below(id as int)
                &&& new.vehicle(id as int) is Some
                &&& fresh_vehicle(new.vehicle(id as int)->Some_0, veh_data)
                &&& new.same_except(&old, id as int)
            },
            None => {
                &&& old.full_below(MAX_VEHICLES as int)
                &&& new == old
            },
        }
    }

    /// What offering transform `rec` to vehicle `id` does.
    pub open spec fn transformed(old: VehicleStore, new: VehicleStore, id: u16, rec: TransformRecord) -> bool {
        &&& new.wf()
        &&& new.vehicle(id as int) == match old.vehicle(id as int) {
            Some(v) => Some(v.with_transform(rec)),
            None => None,
        }
        &&& new.same_except(&old, id as int)
    }

    /// What offering runtime record `rec` to vehicle `id` does.
    pub open spec fn runtime_updated(old: VehicleStore, new: VehicleStore, id: u16, rec: VehicleUpdatePacket) -> bool {
        &&& new.wf()
        &&& new.vehicle(id as int) == match old.vehicle(id as int) {
            Some(v) => Some(v.with_runtime(rec)),
            None => None,
        }
        &&& new.same_except(&old, id as int)
    }

    /// A store without vehicles.
    pub fn new() -> (r: VehicleStore)
        ensures
            r.wf(),
            forall|j: int| (#[trigger] r.vehicle(j)) is None,
    {
        VehicleStore { slots: Vec::new() }
    }

    /// Allocates the lowest unused id below `MAX_VEHICLES` for a new vehicle
    /// built from `veh_data`; `None` when every such id is in use.
    pub fn add_vehicle(&mut self, veh_data: VehicleData) -> (r: Option<u16>)
        requires
            old(self).wf(),
        ensures
            VehicleStore::allocated(*old(self), *final(self), veh_data, r),
    {
        let mut i: usize = 0;
        while i < self.slots.len()
            invariant
                *self == *old(self),
                self.wf(),
                i <= self.slots.len(),
                self.full_below(i as int),
            decreases self.slots.len() - i,
        {
            if self.slots[i].is_none() {
                self.slots.set(i, Some(Vehicle::new(veh_data)));
                assert(self.same_except(old(self), i as int));
                return Some(i as u16);
            }
            i = i + 1;
        }
        if self.slots.len() < MAX_VEHICLES as usize {
            let id = self.slots.len();
            self.slots.push(Some(Vehicle::new(veh_data)));
            assert(self.same_except(old(self), id as int));
            Some(id as u16)
        } else {
            None
        }
    }

    /// Frees vehicle id `id`.
    pub fn remove_vehicle(&mut self, id: u16) -> (r: Option<Vehicle>)
        requires
            old(self).wf(),
        ensures
            final(self).wf(),
            r == old(self).vehicle(id as int),
            final(self).vehicle(id as int) is None,
            final(self).same_except(old(self), id as int),
    {
        if (id as usize) < self.slots.len() {
            let mut r: Option<Vehicle> = None;
            self.slots.set_and_swap(id as usize, &mut r);
            assert(self.same_except(old(self), id as int));
            r
        } else {
            None
        }
    }

    /// Stores `rec` as the transform of vehicle `id` when that vehicle exists
    /// and `rec` is strictly newer than its stored transform. Returns whether
    /// the record took effect.
    pub fn update_transform(&mut self, id: u16, rec: TransformRecord) -> (r: bool)
        requires
            old(self).wf(),
        ensures
            final(self).wf(),
            r == (old(self).vehicle(id as int) is Some
                && rec.ms > old(self).vehicle(id as int)->Some_0.latest_transform.ms),
            VehicleStore::transformed(*old(self), *final(self), id, rec),
    {
        let i = id as usize;
        if i < self.slots.len() {
            let mut slot: Option<Vehicle> = None;
            self.slots.set_and_swap(i, &mut slot);
            let mut applied = false;
            if let Some(mut v) = slot {
                if rec.ms > v.latest_transform.ms {
                    v.latest_transform = rec;
                    applied = true;
                }
                self.slots.set(i, Some(v));
            }
            assert(self.same_except(old(self), id as int));
            applied
        } else {
            false
        }
    }

    /// Stores `rec` as the runtime record of vehicle `id` when that vehicle
    /// exists and `rec` is strictly newer than its stored runtime record.
    /// Returns whether the record took effect.
    pub fn update_runtime(&mut self, id: u16, rec: VehicleUpdatePacket) -> (r: bool)
        requires
            old(self).wf(),
        ensures
            final(self).wf(),
            r == (old(self).vehicle(id as int) is Some
                && rec.ms > old(self).vehicle(id as int)->Some_0.latest_runtime.ms),
            VehicleStore::runtime_updated(*old(self), *final(self), id, rec),
    {
        let i = id as usize;
        if i < self.slots.len() {
            let mut slot: Option<Vehicle> = None;
            self.slots.set_and_swap(i, &mut slot);
            let mut applied = false;
            if let Some(mut v) = slot {
                if rec.ms > v.latest_runtime.ms {
                    v.latest_runtime = rec;
                    applied = true;
                }
                self.slots.set(i, Some(v));
            }
            assert(self.same_except(old(self), id as int));
            applied
        } else {
            false
        }
    }
}

/// The vehicle after the transforms `recs` were offered to it in order.
pub open spec fn after_transforms(v: Vehicle, recs: Seq<TransformRecord>) -> Vehicle
    decreases recs.len(),
{
    if recs.len() == 0 {
        v
    } else {
        after_transforms(v, recs.drop_last()).with_transform(recs.last())
    }
}

/// The largest timestamp among `start` and those of `recs`.
pub open spec fn max_stamp(start: u32, recs: Seq<TransformRecord>) -> u32
    decreases recs.len(),
{
    if recs.len() == 0 {
        start
    } else {
        let m = max_stamp(start, recs.drop_last());
        if recs.last().ms > m { recs.last().ms } else { m }
    }
}

/// Freshness: after any sequence of transforms, the stored timestamp is the
/// largest of the timestamps offered and the one held before, and it never
/// goes down from one step to the next.
pub proof fn lemma_transform_freshness(v: Vehicle, recs: Seq<TransformRecord>)
    ensures
        after_transforms(v, recs).latest_transform.ms == max_stamp(v.latest_transform.ms, recs),
        after_transforms(v, recs).latest_transform.ms >= v.latest_transform.ms,
        forall|i: int| 0 <= i < recs.len() ==>
            after_transforms(v, recs).latest_transform.ms >= (#[trigger] recs[i]).ms,
        after_transforms(v, recs).veh_data == v.veh_data,
        after_transforms(v, recs).latest_runtime == v.latest_runtime,
    decreases recs.len(),
{
    if recs.len() > 0 {
        lemma_transform_freshness(v, recs.drop_last());
        assert forall|i: int| 0 <= i < recs.len() implies
            after_transforms(v, recs).latest_transform.ms >= (#[trigger] recs[i]).ms by {
            if i < recs.len() - 1 {
                assert(recs[i] == recs.drop_last()[i]);
            }
        }
    }
}

/// The vehicle after the runtime records `recs` were offered to it in order.
pub open spec fn after_runtimes(v: Vehicle, recs: Seq<VehicleUpdatePacket>) -> Vehicle
    decreases recs.len(),
{
    if recs.len() == 0 {
        v
    } else {
        after_runtimes(v, recs.drop_last()).with_runtime(recs.last())
    }
}

/// The largest timestamp among `start` and those of the runtime records `recs`.
pub open spec fn max_runtime_stamp(start: u32, recs: Seq<VehicleUpdatePacket>) -> u32
    decreases recs.len(),
{
    if recs.len() == 0 {
        start
    } else {
        let m = max_runtime_stamp(start, recs.drop_last());
        if recs.last().ms > m { recs.last().ms } else { m }
    }
}

/// Freshness of runtime records: after any sequence of them, the stored
/// timestamp is the largest of the timestamps offered and the one held before.
pub proof fn lemma_runtime_freshness(v: Vehicle, recs: Seq<VehicleUpdatePacket>)
    ensures
        after_runtimes(v, recs).latest_runtime.ms == max_runtime_stamp(v.latest_runtime.ms, recs),
        after_runtimes(v, recs).latest_runtime.ms >= v.latest_runtime.ms,
        forall|i: int| 0 <= i < recs.len() ==>
            after_runtimes(v, recs).latest_runtime.ms >= (#[trigger] recs[i]).ms,
        after_runtimes(v, recs).veh_data == v.veh_data,
        after_runtimes(v, recs).latest_transform == v.latest_transform,
    decreases recs.len(),
{
    if recs.len() > 0 {
        lemma_runtime_freshness(v, recs.drop_last());
        assert forall|i: int| 0 <= i < recs.len() implies
            after_runtimes(v, recs).latest_runtime.ms >= (#[trigger] recs[i]).ms by {
            if i < recs.len() - 1 {
                assert(recs[i] == recs.drop_last()[i]);
            }
        }
    }
}

/// Id allocation: when every id below `n` is in use and `n` is free, the
/// next allocation hands out `n`. From an empty store the ids therefore come
/// out as 0, 1, 2, ..., and a freed id is reused once the ones below it are
/// taken.
pub proof fn lemma_lowest_free_id(
    old: VehicleStore,
    new: VehicleStore,
    veh_data: VehicleData,
    r: Option<u16>,
    n: u16,
)
    requires
        old.wf(),
        VehicleStore::allocated(old, new, veh_data, r),
        n < MAX_VEHICLES,
        old.full_below(n as int),
        old.vehicle(n as int) is None,
    ensures
        r == Some(n),
{
    match r {
        Some(id) => {
            if id < n {
                assert(old.vehicle(id as int) is Some);
            } else if id > n {
                assert(old.vehicle(n as int) is Some);
            }
        },
        None => {
            assert(old.vehicle(n as int) is Some);
        },
    }
}

/// A record not newer than the stored one never takes effect.
pub proof fn lemma_stale_records_ignored(v: Vehicle, t: TransformRecord, u: VehicleUpdatePacket)
    ensures
        t.ms <= v.latest_transform.ms ==> v.with_transform(t) == v,
        u.ms <= v.latest_runtime.ms ==> v.with_runtime(u) == v,
{
}

} // verus!
