//! Monitors: the bounds of the one that an index selects, and the names of
//! their display devices.
//!
//! The two do not count alike. An index counts every monitor that the
//! system goes through, from one. A key counts, from zero, the monitors
//! that told both their metadata and their display device. So key `k` and
//! index `k + 1` speak of the same monitor only as long as no monitor up
//! to it kept either back; see [`key_follows_index`].

use std::collections::HashMap;
use vstd::prelude::*;
use crate::geometry::{Bounds, Rect};
use crate::utf16::{copy_of, decode_lossy, utf16_lossy};

verus! {

/// What the system tells about one monitor.
#[derive(Debug, PartialEq, Eq)]
pub struct Monitor {
    /// The monitor's rectangle, `None` where its metadata cannot be read.
    pub rect: Option<Rect>,
    /// The name of the monitor's display device in UTF-16 code units, `None`
    /// where the device cannot be asked.
    pub device_name: Option<Vec<u16>>,
}

impl Clone for Monitor {
    fn clone(&self) -> (copy: Monitor)
        ensures
            copy.rect == self.rect,
            copy.device_name is Some <==> self.device_name is Some,
            copy.device_name is Some ==> copy.device_name.unwrap()@
                == self.device_name.unwrap()@,
    {
        Monitor {
            rect: self.rect,
            device_name: match &self.device_name {
                Some(units) => Some(copy_of(units)),
                None => None,
            },
        }
    }
}

/// The bounds of the monitor that `id` selects, counting from one, and zero
/// bounds where there is no such monitor or its metadata cannot be read.
pub open spec fn bounds_at(id: u32, monitors: Seq<Monitor>) -> Bounds {
    if 1 <= id <= monitors.len() {
        match monitors[id - 1].rect {
            Some(rect) => Bounds::of_monitor(rect),
            None => Bounds::zero(),
        }
    } else {
        Bounds::zero()
    }
}

/// A search for the monitor with a given index, fed one monitor at a time.
#[derive(Clone, Copy, Debug, PartialEq, Eq, Structural)]
pub struct MonitorSearch {
    /// How many monitors are still to come up to and with the one that is
    /// sought; zero once it has come, or if none ever will.
    pub remaining: u32,
    /// The bounds that were found, zero so far.
    pub bounds: Bounds,
}

impl MonitorSearch {
    /// The monitor that comes next is the one that is sought, and it tells
    /// its rectangle.
    pub open spec fn finds(self, rect: Option<Rect>) -> bool {
        self.remaining == 1 && rect is Some
    }

    /// The search after the next monitor.
    pub open spec fn after(self, rect: Option<Rect>) -> MonitorSearch {
        MonitorSearch {
            remaining: if self.remaining == 0 {
                0
            } else {
                (self.remaining - 1) as u32
            },
            bounds: if self.finds(rect) {
                Bounds::of_monitor(rect.unwrap())
            } else {
                self.bounds
            },
        }
    }

    /// A search for the monitor with index `id`, counting from one.
    pub fn new(id: u32) -> (search: MonitorSearch)
        ensures
            search == (MonitorSearch { remaining: id, bounds: Bounds::zero() }),
    {
        MonitorSearch { remaining: id, bounds: Bounds::default() }
    }

    /// Takes the next monitor's rectangle, `None` where its metadata could
    /// not be read, and says whether to go on to the monitor after it. A
    /// monitor counts whether it tells its rectangle or not. The search
    /// ends when the monitor that is sought has told its rectangle.
    pub fn visit(&mut self, rect: Option<Rect>) -> (go_on: bool)
        ensures
            *final(self) == old(self).after(rect),
            go_on == !old(self).finds(rect),
    {
        if self.remaining == 0 {
            return true;
        }
        self.remaining = self.remaining - 1;
        if self.remaining != 0 {
            return true;
        }
        match rect {
            Some(rect) => {
                self.bounds = Bounds::monitor(rect);
                false
            },
            None => true,
        }
    }
}

/// The bounds of the monitor with index `id`, counting from one, among
/// `monitors` in the order in which the system goes through them. Zero
/// bounds say that there is no such monitor, or that it kept its metadata
/// back.
pub fn monitor_bounds(id: u32, monitors: &Vec<Monitor>) -> (bounds: Bounds)
    ensures
        bounds == bounds_at(id, monitors@),
{
    let mut search = MonitorSearch::new(id);
    let mut at: usize = 0;
    while at < monitors.len()
        invariant
            at <= monitors.len(),
            at < id ==> search.remaining == id - at && search.bounds == Bounds::zero(),
            at >= id ==> search.remaining == 0 && search.bounds == bounds_at(id, monitors@),
        decreases monitors.len() - at,
    {
        let go_on = search.visit(monitors[at].rect);
        if !go_on {
            return search.bounds;
        }
        at += 1;
    }
    search.bounds
}

/// No monitor has index zero: counting starts at one.
pub proof fn index_zero_selects_nothing(monitors: Seq<Monitor>)
    ensures
        bounds_at(0, monitors) == Bounds::zero(),
        bounds_at(0, monitors).is_zero(),
{
}

/// An index greater than the number of monitors selects none.
pub proof fn index_past_the_last_selects_nothing(id: u32, monitors: Seq<Monitor>)
    requires
        id > monitors.len(),
    ensures
        bounds_at(id, monitors) == Bounds::zero(),
        bounds_at(id, monitors).is_zero(),
{
}

/// The monitor told both its metadata and its display device.
pub open spec fn is_named(monitor: Monitor) -> bool {
    monitor.rect is Some && monitor.device_name is Some
}

/// The device names of the monitors that told both their metadata and their
/// display device, in the order of the monitors.
pub open spec fn named(monitors: Seq<Monitor>) -> Seq<Seq<u16>>
    decreases monitors.len(),
{
    if monitors.len() == 0 {
        Seq::empty()
    } else {
        let before = named(monitors.drop_last());
        if is_named(monitors.last()) {
            before.push(monitors.last().device_name.unwrap()@)
        } else {
            before
        }
    }
}

/// As many keys as there are: a key is a `u32`.
pub open spec fn key_space() -> nat {
    0x1_0000_0000
}

/// How many of `wanted` monitors get a key: all, as long as the keys last.
pub open spec fn keys_given(wanted: nat) -> nat {
    if wanted <= key_space() {
        wanted
    } else {
        key_space()
    }
}

/// The table of the monitors' device names, filled one monitor at a time.
pub struct MonitorNames {
    names: HashMap<u32, String>,
}

impl View for MonitorNames {
    type V = Map<u32, Seq<char>>;

    /// The names by their keys.
    closed spec fn view(&self) -> Map<u32, Seq<char>> {
        Map::new(|key: u32| self.names@.contains_key(key), |key: u32| self.names@[key]@)
    }
}

impl MonitorNames {
    /// The keys in use are those below the number of entries.
    pub open spec fn well_formed(&self) -> bool {
        &&& self@.dom().finite()
        &&& forall|key: u32| self@.contains_key(key) <==> key < self@.len()
    }

    proof fn lemma_same_keys(&self)
        ensures
            self@.dom() == self.names@.dom(),
            self@.len() == self.names@.len(),
    {
        assert(self@.dom() =~= self.names@.dom());
    }

    /// An empty table.
    pub fn new() -> (table: MonitorNames)
        ensures
            table.well_formed(),
            table@ == Map::<u32, Seq<char>>::empty(),
    {
        broadcast use vstd::std_specs::hash::group_hash_axioms;

        let table = MonitorNames { names: HashMap::new() };
        proof {
            table.lemma_same_keys();
            assert(table@ =~= Map::<u32, Seq<char>>::empty());
        }
        table
    }

    /// Takes the next monitor and gives the key under which its device name
    /// went into the table. The key is the number of entries so far, which
    /// no entry has yet. A monitor that keeps its metadata or its display
    /// device back gets none, and neither does one for which no key is
    /// left.
    pub fn record(&mut self, monitor: &Monitor) -> (key: Option<u32>)
        requires
            old(self).well_formed(),
        ensures
            final(self).well_formed(),
            key is Some <==> is_named(*monitor) && old(self)@.len() < key_space(),
            key is Some ==> key.unwrap() == old(self)@.len() && !old(self)@.contains_key(
                key.unwrap(),
            ),
            key is Some ==> final(self)@ == old(self)@.insert(
                key.unwrap(),
                utf16_lossy(monitor.device_name.unwrap()@),
            ),
            key is None ==> final(self)@ == old(self)@,
    {
        broadcast use vstd::std_specs::hash::group_hash_axioms;

        proof {
            self.lemma_same_keys();
        }
        if monitor.rect.is_none() {
            return None;
        }
        match &monitor.device_name {
            None => None,
            Some(units) => {
                let count: usize = self.names.len();
                if count > u32::MAX as usize {
                    return None;
                }
                let key: u32 = count as u32;
                let name = decode_lossy(units.as_slice());
                let taken = self.names.insert(key, name);
                assert(taken is None);
                proof {
                    self.lemma_same_keys();
                    assert(self@ =~= old(self)@.insert(key, utf16_lossy(units@)));
                }
                Some(key)
            },
        }
    }

    /// The table as a map from key to device name.
    pub fn into_names(self) -> (names: HashMap<u32, String>)
        ensures
            names@.len() == self@.len(),
            forall|key: u32| names@.contains_key(key) <==> self@.contains_key(key),
            forall|key: u32| names@.contains_key(key) ==> (#[trigger] names@[key])@ == self@[key],
    {
        proof {
            self.lemma_same_keys();
        }
        self.names
    }
}

/// The names of the monitors' display devices, keyed from zero in the order
/// of the monitors. A monitor that keeps its metadata or its display device
/// back gets no key, and the key that would have been its own goes to the
/// next monitor that tells both.
pub fn window_names(monitors: &Vec<Monitor>) -> (names: HashMap<u32, String>)
    ensures
        names@.len() == keys_given(named(monitors@).len()),
        forall|key: u32| names@.contains_key(key) <==> key < named(monitors@).len(),
        forall|key: u32|
            key < named(monitors@).len() ==> (#[trigger] names@[key])@ == utf16_lossy(
                named(monitors@)[key as int],
            ),
{
    let mut table = MonitorNames::new();
    let mut at: usize = 0;
    assert(monitors@.take(0) =~= Seq::<Monitor>::empty());
    while at < monitors.len()
        invariant
            at <= monitors.len(),
            table.well_formed(),
            table@.len() == keys_given(named(monitors@.take(at as int)).len()),
            forall|key: u32|
                table@.contains_key(key) <==> key < named(monitors@.take(at as int)).len(),
            forall|key: u32|
                key < named(monitors@.take(at as int)).len() ==> #[trigger] table@[key]
                    == utf16_lossy(named(monitors@.take(at as int))[key as int]),
        decreases monitors.len() - at,
    {
        let ghost upto = monitors@.take(at as int + 1);
        assert(upto.drop_last() =~= monitors@.take(at as int));
        assert(upto.last() == monitors@[at as int]);
        table.record(&monitors[at]);
        at += 1;
    }
    assert(monitors@.take(at as int) =~= monitors@);
    table.into_names()
}

/// As long as every monitor up to one has told both its metadata and its
/// display device, that monitor's key is its place in the order, which is
/// one less than its index.
pub proof fn key_follows_index(monitors: Seq<Monitor>, place: int)
    requires
        0 <= place < monitors.len(),
        forall|j: int| 0 <= j <= place ==> is_named(#[trigger] monitors[j]),
    ensures
        place < named(monitors).len(),
        named(monitors)[place] == monitors[place].device_name.unwrap()@,
    decreases monitors.len(),
{
    let before = monitors.drop_last();
    if place < before.len() {
        assert forall|j: int| 0 <= j <= place implies is_named(#[trigger] before[j]) by {
            assert(before[j] == monitors[j]);
        }
        key_follows_index(before, place);
    } else {
        lemma_named_all(before);
    }
}

proof fn lemma_named_all(monitors: Seq<Monitor>)
    requires
        forall|j: int| 0 <= j < monitors.len() ==> is_named(#[trigger] monitors[j]),
    ensures
        named(monitors).len() == monitors.len(),
    decreases monitors.len(),
{
    if monitors.len() > 0 {
        let before = monitors.drop_last();
        assert forall|j: int| 0 <= j < before.len() implies is_named(#[trigger] before[j]) by {
            assert(before[j] == monitors[j]);
        }
        lemma_named_all(before);
    }
}

} // verus!
