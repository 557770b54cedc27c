//! The registry of live map instances and the entities registered in each.
//!
//! The registry stores only each entity's GUID: characters themselves are
//! owned by their sessions. Its invariant is that an entity is a member of at
//! most one instance, and at most once.
use vstd::prelude::*;

verus! {

/// A live map and the GUIDs of the objects registered on it.
pub struct MapInstance {
    pub map: u32,
    pub objects: Vec<u64>,
}

/// All live map instances, keyed by map id.
pub struct World {
    instances: Vec<MapInstance>,
}

impl World {
    /// The instance at index `i` is the one of `map` and holds `guid`.
    pub closed spec fn slot_holds(self, i: int, map: u32, guid: u64) -> bool {
        &&& 0 <= i < self.instances@.len()
        &&& self.instances@[i].map == map
        &&& self.instances@[i].objects@.contains(guid)
    }

    /// `guid` is registered in the instance of `map`.
    pub open spec fn holds(self, map: u32, guid: u64) -> bool {
        exists|i: int| #[trigger] self.slot_holds(i, map, guid)
    }

    /// `guid` is registered in some instance.
    pub open spec fn is_registered(self, guid: u64) -> bool {
        exists|map: u32| #[trigger] self.holds(map, guid)
    }

    /// The instance at index `i` is the one of `map`.
    pub closed spec fn slot_is(self, i: int, map: u32) -> bool {
        0 <= i < self.instances@.len() && self.instances@[i].map == map
    }

    /// An instance of `map` is live.
    pub open spec fn has_instance(self, map: u32) -> bool {
        exists|i: int| #[trigger] self.slot_is(i, map)
    }

    /// Map ids are unique, no instance lists a GUID twice, and no GUID is in
    /// two instances.
    pub closed spec fn wf(self) -> bool {
        &&& forall|i: int, j: int|
            0 <= i < j < self.instances@.len() ==> #[trigger] self.instances@[i].map
                != #[trigger] self.instances@[j].map
        &&& forall|i: int|
            0 <= i < self.instances@.len() ==> (#[trigger] self.instances@[i]).objects@.no_duplicates()
        &&& forall|i: int, j: int, g: u64|
            0 <= i < self.instances@.len() && 0 <= j < self.instances@.len() && i != j
                && #[trigger] self.instances@[i].objects@.contains(g) ==> !#[trigger] self.instances@[j].objects@.contains(g)
    }

    /// A registry with no live instance.
    pub fn new() -> (r: World)
        ensures
            r.wf(),
            forall|m: u32| !(#[trigger] r.has_instance(m)),
            forall|m: u32, g: u64| !(#[trigger] r.holds(m, g)),
    {
        World { instances: Vec::new() }
    }

    /// Index of the instance of `map`, if one is live.
    fn find_instance(&self, map: u32) -> (r: Option<usize>)
        ensures
            r matches Some(i) ==> i < self.instances@.len() && self.instances@[i as int].map == map,
            r is None ==> !self.has_instance(map),
    {
        let mut k: usize = 0;
        while k < self.instances.len()
            invariant
                k <= self.instances@.len(),
                forall|i: int| 0 <= i < k ==> self.instances@[i].map != map,
            decreases self.instances@.len() - k,
        {
            if self.instances[k].map == map {
                return Some(k);
            }
            k = k + 1;
        }
        None
    }

    /// The map whose instance holds `guid`, if any.
    pub fn try_get_map_for_character(&self, guid: u64) -> (r: Option<u32>)
        requires
            self.wf(),
        ensures
            r matches Some(m) ==> self.holds(m, guid),
            r is None <==> !self.is_registered(guid),
            forall|m: u32| #[trigger] self.holds(m, guid) ==> r == Some(m),
    {
        let mut k: usize = 0;
        while k < self.instances.len()
            invariant
                self.wf(),
                k <= self.instances@.len(),
                forall|i: int| 0 <= i < k ==> !(#[trigger] self.instances@[i]).objects@.contains(guid),
            decreases self.instances@.len() - k,
        {
            if let Some(_) = index_of(&self.instances[k].objects, guid) {
                let m = self.instances[k].map;
                assert(self.slot_holds(k as int, m, guid));
                assert(self.holds(m, guid));
                assert forall|m2: u32| #[trigger] self.holds(m2, guid) implies m2 == m by {
                    lemma_member_of_one_map(*self, guid, m, m2);
                }
                return Some(m);
            }
            k = k + 1;
        }
        assert forall|m: u32| !(#[trigger] self.holds(m, guid)) by {
            if self.holds(m, guid) {
                let i = choose|i: int| #[trigger] self.slot_holds(i, m, guid);
                assert(!self.instances@[i].objects@.contains(guid));
            }
        }
        None
    }

    /// Removes `guid` from the instance of `map`; a GUID that is not there
    /// leaves the registry as it was.
    pub fn remove_object_by_guid(&mut self, map: u32, guid: u64)
        requires
            old(self).wf(),
        ensures
            final(self).wf(),
            forall|m: u32| #[trigger] final(self).has_instance(m) == old(self).has_instance(m),
            forall|m: u32, g: u64|
                #[trigger] final(self).holds(m, g) == (old(self).holds(m, g) && !(m == map && g == guid)),
    {
        let i = match self.find_instance(map) {
            Some(i) => i,
            None => {
                assert forall|m: u32, g: u64|
                    #[trigger] self.holds(m, g) == (self.holds(m, g) && !(m == map && g == guid)) by {
                    if self.holds(m, g) && m == map {
                        let k = choose|k: int| #[trigger] self.slot_holds(k, m, g);
                        assert(self.slot_is(k, map));
                    }
                }
                return;
            },
        };
        let j = match index_of(&self.instances[i].objects, guid) {
            Some(j) => j,
            None => {
                assert forall|m: u32, g: u64|
                    #[trigger] self.holds(m, g) == (self.holds(m, g) && !(m == map && g == guid)) by {
                    if self.holds(m, g) && m == map && g == guid {
                        let k = choose|k: int| #[trigger] self.slot_holds(k, m, g);
                        if k != i {
                            assert(self.instances@[k].map == self.instances@[i as int].map);
                        }
                    }
                }
                return;
            },
        };
        let ghost before = *self;
        let ghost old_objs = before.instances@[i as int].objects@;
        self.instances[i].objects.remove(j);
        let ghost new_objs = self.instances@[i as int].objects@;
        assert(new_objs == old_objs.remove(j as int));
        assert forall|x: u64| #[trigger] new_objs.contains(x) == (old_objs.contains(x) && x != guid) by {
            if new_objs.contains(x) {
                let k = choose|k: int| 0 <= k < new_objs.len() && new_objs[k] == x;
                if k < j {
                    assert(old_objs[k] == x);
                } else {
                    assert(old_objs[k + 1] == x);
                }
                assert(old_objs.contains(x));
            }
            if old_objs.contains(x) && x != guid {
                let k = choose|k: int| 0 <= k < old_objs.len() && old_objs[k] == x;
                if k < j {
                    assert(new_objs[k] == x);
                } else {
                    assert(k != j);
                    assert(new_objs[k - 1] == x);
                }
            }
        }
        assert(new_objs.no_duplicates()) by {
            assert forall|a: int, b: int| 0 <= a < b < new_objs.len() implies new_objs[a] != new_objs[b] by {
                let a2 = if a < j { a } else { a + 1 };
                let b2 = if b < j { b } else { b + 1 };
                assert(old_objs[a2] == new_objs[a]);
                assert(old_objs[b2] == new_objs[b]);
            }
        }
        assert forall|k: int| 0 <= k < self.instances@.len() && k != i implies self.instances@[k] == before.instances@[k] by {}
        assert forall|m: u32| #[trigger] self.has_instance(m) == before.has_instance(m) by {
            if self.has_instance(m) {
                let k = choose|k: int| #[trigger] self.slot_is(k, m);
                assert(before.slot_is(k, m));
            }
            if before.has_instance(m) {
                let k = choose|k: int| #[trigger] before.slot_is(k, m);
                assert(self.slot_is(k, m));
            }
        }
        assert forall|m: u32, g: u64|
            #[trigger] self.holds(m, g) == (before.holds(m, g) && !(m == map && g == guid)) by {
            if self.holds(m, g) {
                let k = choose|k: int| #[trigger] self.slot_holds(k, m, g);
                assert(before.slot_holds(k, m, g));
                if k != i {
                    assert(self.instances@[k].map != map) by {
                        assert(before.instances@[k].map != before.instances@[i as int].map);
                    }
                }
            }
            if before.holds(m, g) && !(m == map && g == guid) {
                let k = choose|k: int| #[trigger] before.slot_holds(k, m, g);
                if k == i {
                    assert(new_objs.contains(g));
                }
                assert(self.slot_holds(k, m, g));
            }
        }
    }

    /// Registers `guid` in the instance of `map`, making that instance live
    /// if it is not. A GUID already registered anywhere is refused (`false`)
    /// and the registry is left as it was.
    pub fn add_object(&mut self, map: u32, guid: u64) -> (r: bool)
        requires
            old(self).wf(),
        ensures
            final(self).wf(),
            r == !old(self).is_registered(guid),
            r ==> forall|m: u32| #[trigger] final(self).has_instance(m) == (old(self).has_instance(m) || m == map),
            r ==> forall|m: u32, g: u64|
                #[trigger] final(self).holds(m, g) == (old(self).holds(m, g) || (m == map && g == guid)),
            !r ==> *final(self) == *old(self),
    {
        if let Some(_) = self.try_get_map_for_character(guid) {
            return false;
        }
        let ghost orig = *self;
        self.create_instance(map);
        let i = match self.find_instance(map) {
            Some(i) => i,
            None => {
                assert(self.has_instance(map));
                return false;
            },
        };
        let ghost mid = *self;
        let ghost old_objs = mid.instances@[i as int].objects@;
        self.instances[i].objects.push(guid);
        let ghost new_objs = self.instances@[i as int].objects@;
        assert(new_objs == old_objs.push(guid));
        assert forall|x: u64| #[trigger] new_objs.contains(x) == (old_objs.contains(x) || x == guid) by {
            if new_objs.contains(x) && x != guid {
                let k = choose|k: int| 0 <= k < new_objs.len() && new_objs[k] == x;
                assert(old_objs[k] == x);
            }
            if old_objs.contains(x) {
                let k = choose|k: int| 0 <= k < old_objs.len() && old_objs[k] == x;
                assert(new_objs[k] == x);
            }
            if x == guid {
                assert(new_objs[old_objs.len() as int] == x);
            }
        }
        assert(!old_objs.contains(guid)) by {
            if old_objs.contains(guid) {
                assert(mid.slot_holds(i as int, map, guid));
                assert(mid.holds(map, guid));
                assert(orig.holds(map, guid));
            }
        }
        assert forall|k: int| 0 <= k < mid.instances@.len() implies !(#[trigger] mid.instances@[k]).objects@.contains(guid) by {
            if mid.instances@[k].objects@.contains(guid) {
                let m = mid.instances@[k].map;
                assert(mid.slot_holds(k, m, guid));
                assert(mid.holds(m, guid));
                assert(orig.holds(m, guid));
            }
        }
        assert forall|k: int| 0 <= k < self.instances@.len() && k != i implies self.instances@[k] == mid.instances@[k] by {}
        assert forall|m: u32| #[trigger] self.has_instance(m) == mid.has_instance(m) by {
            if self.has_instance(m) {
                let k = choose|k: int| #[trigger] self.slot_is(k, m);
                assert(mid.slot_is(k, m));
            }
            if mid.has_instance(m) {
                let k = choose|k: int| #[trigger] mid.slot_is(k, m);
                assert(self.slot_is(k, m));
            }
        }
        assert forall|m: u32, g: u64| #[trigger] self.holds(m, g) == (mid.holds(m, g) || (m == map && g == guid)) by {
            if self.holds(m, g) {
                let k = choose|k: int| #[trigger] self.slot_holds(k, m, g);
                if !(m == map && g == guid) {
                    if k == i {
                        assert(old_objs.contains(g));
                    }
                    assert(mid.slot_holds(k, m, g));
                }
            }
            if mid.holds(m, g) {
                let k = choose|k: int| #[trigger] mid.slot_holds(k, m, g);
                if k == i {
                    assert(new_objs.contains(g));
                }
                assert(self.slot_holds(k, m, g));
            }
            if m == map && g == guid {
                assert(self.slot_holds(i as int, m, g));
            }
        }
        true
    }

    /// Makes an instance of `map` live, unless one already is.
    pub fn create_instance(&mut self, map: u32)
        requires
            old(self).wf(),
        ensures
            final(self).wf(),
            forall|m: u32| #[trigger] final(self).has_instance(m) == (old(self).has_instance(m) || m == map),
            forall|m: u32, g: u64| #[trigger] final(self).holds(m, g) == old(self).holds(m, g),
    {
        match self.find_instance(map) {
            Some(i) => {
                assert(self.slot_is(i as int, map));
            },
            None => {
                let ghost before = *self;
                assert forall|i: int| 0 <= i < before.instances@.len() implies before.instances@[i].map != map by {
                    if before.instances@[i].map == map {
                        assert(before.slot_is(i, map));
                    }
                }
                self.instances.push(MapInstance { map, objects: Vec::new() });
                assert forall|m: u32| #[trigger] self.has_instance(m) == (before.has_instance(m) || m == map) by {
                    if before.has_instance(m) {
                        let i = choose|i: int| #[trigger] before.slot_is(i, m);
                        assert(self.slot_is(i, m));
                    }
                    if m == map {
                        assert(self.slot_is(before.instances@.len() as int, m));
                    }
                    if self.has_instance(m) && m != map {
                        let k = choose|k: int| #[trigger] self.slot_is(k, m);
                        assert(before.slot_is(k, m));
                    }
                }
                assert forall|m: u32, g: u64| #[trigger] self.holds(m, g) == before.holds(m, g) by {
                    if before.holds(m, g) {
                        let i = choose|i: int| #[trigger] before.slot_holds(i, m, g);
                        assert(self.slot_holds(i, m, g));
                    }
                    if self.holds(m, g) {
                        let i = choose|i: int| #[trigger] self.slot_holds(i, m, g);
                        assert(i < before.instances@.len());
                        assert(before.slot_holds(i, m, g));
                    }
                }
            },
        }
    }
}

/// No entity is a member of two map instances at once.
pub proof fn lemma_member_of_one_map(world: World, guid: u64, m1: u32, m2: u32)
    requires
        world.wf(),
        world.holds(m1, guid),
        world.holds(m2, guid),
    ensures
        m1 == m2,
{
    let i = choose|i: int| #[trigger] world.slot_holds(i, m1, guid);
    let j = choose|j: int| #[trigger] world.slot_holds(j, m2, guid);
    if i != j {
        assert(!world.instances@[j].objects@.contains(guid));
    }
}

/// Position of `guid` in `objects`, if it is there.
fn index_of(objects: &Vec<u64>, guid: u64) -> (r: Option<usize>)
    ensures
        r matches Some(j) ==> j < objects@.len() && objects@[j as int] == guid,
        r is None ==> !objects@.contains(guid),
{
    let mut k: usize = 0;
    while k < objects.len()
        invariant
            k <= objects@.len(),
            forall|i: int| 0 <= i < k ==> objects@[i] != guid,
        decreases objects@.len() - k,
    {
        if objects[k] == guid {
            return Some(k);
        }
        k = k + 1;
    }
    None
}

} // verus!
