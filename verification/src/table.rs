//! Small tables in the order of their machine keys.

use vstd::prelude::*;

use crate::ids::MachineId;

verus! {

/// Values by machine, in the order of the machines.
#[derive(Debug)]
pub struct MachineTable<T> {
    pub entries: Vec<(MachineId, T)>,
}

impl<T> View for MachineTable<T> {
    type V = Seq<(MachineId, T)>;

    open spec fn view(&self) -> Seq<(MachineId, T)> {
        self.entries@
    }
}

/// Whether the machines of some entries are strictly increasing.
pub open spec fn in_order<T>(entries: Seq<(MachineId, T)>) -> bool {
    forall|left: int, right: int|
        0 <= left < right < entries.len() ==> #[trigger] entries[left].0.0
            < #[trigger] entries[right].0.0
}

/// Entries whose machine is below `machine`.
pub open spec fn below<T>(entries: Seq<(MachineId, T)>, machine: MachineId) -> nat
    decreases entries.len(),
{
    if entries.len() == 0 || entries[0].0.0 >= machine.0 {
        0
    } else {
        1 + below(entries.drop_first(), machine)
    }
}

/// Whether some entries have a machine.
pub open spec fn has_machine<T>(entries: Seq<(MachineId, T)>, machine: MachineId) -> bool {
    exists|at: int| 0 <= at < entries.len() && (#[trigger] entries[at]).0 == machine
}

/// The entries with one more: it takes the place of one with the same machine, or its own.
pub open spec fn with_entry<T>(entries: Seq<(MachineId, T)>, machine: MachineId, value: T) -> Seq<
    (MachineId, T),
> {
    let at = below(entries, machine) as int;
    if at < entries.len() && entries[at].0 == machine {
        entries.update(at, (machine, value))
    } else {
        entries.insert(at, (machine, value))
    }
}

proof fn below_splits<T>(entries: Seq<(MachineId, T)>, machine: MachineId)
    requires
        in_order(entries),
    ensures
        below(entries, machine) <= entries.len(),
        forall|at: int|
            0 <= at < below(entries, machine) ==> (#[trigger] entries[at]).0.0 < machine.0,
        forall|at: int|
            below(entries, machine) <= at < entries.len() ==> (#[trigger] entries[at]).0.0
                >= machine.0,
    decreases entries.len(),
{
    if entries.len() > 0 && entries[0].0.0 < machine.0 {
        let rest = entries.drop_first();
        assert forall|left: int, right: int|
            0 <= left < right < rest.len() implies #[trigger] rest[left].0.0
            < #[trigger] rest[right].0.0 by {
            assert(rest[left] == entries[left + 1]);
            assert(rest[right] == entries[right + 1]);
        }
        below_splits(rest, machine);
        assert forall|at: int| 0 <= at < below(entries, machine) implies (
        #[trigger] entries[at]).0.0 < machine.0 by {
            if at > 0 {
                assert(rest[at - 1] == entries[at]);
            }
        }
        assert forall|at: int|
            below(entries, machine) <= at < entries.len() implies (#[trigger] entries[at]).0.0
            >= machine.0 by {
            assert(rest[at - 1] == entries[at]);
        }
    }
}

/// Another entry keeps the order, is found again, and leaves every other machine's entry.
pub proof fn entries_stay_in_order<T>(
    entries: Seq<(MachineId, T)>,
    machine: MachineId,
    value: T,
    other: MachineId,
)
    requires
        in_order(entries),
    ensures
        in_order(with_entry(entries, machine, value)),
        with_entry(entries, machine, value).contains((machine, value)),
        has_machine(with_entry(entries, machine, value), other) <==> other == machine
            || has_machine(entries, other),
        forall|kept: T|
            other != machine && #[trigger] entries.contains((other, kept)) ==> with_entry(
                entries,
                machine,
                value,
            ).contains((other, kept)),
{
    below_splits(entries, machine);
    let at = below(entries, machine) as int;
    let changed = with_entry(entries, machine, value);
    assert(changed[at] == (machine, value));
    if at < entries.len() && entries[at].0 == machine {
        assert forall|kept: T|
            other != machine && #[trigger] entries.contains((other, kept)) implies changed.contains(
            (other, kept),
        ) by {
            let place = choose|place: int|
                0 <= place < entries.len() && entries[place] == (other, kept);
            assert(changed[place] == (other, kept));
        }
        if has_machine(entries, other) && other != machine {
            let place = choose|place: int|
                0 <= place < entries.len() && (#[trigger] entries[place]).0 == other;
            assert(changed[place] == entries[place]);
        }
        if has_machine(changed, other) && other != machine {
            let place = choose|place: int|
                0 <= place < changed.len() && (#[trigger] changed[place]).0 == other;
            assert(changed[place] == entries[place]);
        }
    } else {
        assert forall|left: int, right: int|
            0 <= left < right < changed.len() implies #[trigger] changed[left].0.0
            < #[trigger] changed[right].0.0 by {
            let before_left = if left < at {
                left
            } else {
                left - 1
            };
            let before_right = if right < at {
                right
            } else {
                right - 1
            };
            if left != at {
                assert(changed[left] == entries[before_left]);
            }
            if right != at {
                assert(changed[right] == entries[before_right]);
            }
        }
        assert forall|kept: T|
            other != machine && #[trigger] entries.contains((other, kept)) implies changed.contains(
            (other, kept),
        ) by {
            let place = choose|place: int|
                0 <= place < entries.len() && entries[place] == (other, kept);
            let moved = if place < at {
                place
            } else {
                place + 1
            };
            assert(changed[moved] == (other, kept));
        }
        if has_machine(entries, other) {
            let place = choose|place: int|
                0 <= place < entries.len() && (#[trigger] entries[place]).0 == other;
            let moved = if place < at {
                place
            } else {
                place + 1
            };
            assert(changed[moved] == entries[place]);
        }
        if has_machine(changed, other) && other != machine {
            let place = choose|place: int|
                0 <= place < changed.len() && (#[trigger] changed[place]).0 == other;
            let before = if place < at {
                place
            } else {
                place - 1
            };
            assert(changed[place] == entries[before]);
        }
    }
}

impl<T> MachineTable<T> {
    /// The machines are strictly increasing.
    pub open spec fn wf(self) -> bool {
        in_order(self@)
    }

    /// No entry.
    pub fn new() -> (table: MachineTable<T>)
        ensures
            table.wf(),
            table@ == Seq::<(MachineId, T)>::empty(),
    {
        MachineTable { entries: Vec::new() }
    }

    fn position(&self, machine: MachineId) -> (at: usize)
        ensures
            at == below(self@, machine),
            at <= self@.len(),
    {
        let mut at: usize = 0;
        proof {
            assert(self@.skip(0) =~= self@);
        }
        while at < self.entries.len() && self.entries[at].0.0 < machine.0
            invariant
                at <= self.entries.len(),
                below(self@, machine) == at + below(self@.skip(at as int), machine),
            decreases self.entries.len() - at,
        {
            proof {
                assert(self@.skip(at as int)[0] == self@[at as int]);
                assert(self@.skip(at as int).drop_first() =~= self@.skip(at as int + 1));
            }
            at += 1;
        }
        proof {
            if at < self@.len() {
                assert(self@.skip(at as int)[0] == self@[at as int]);
            }
        }
        at
    }

    /// Add an entry, in the place of one with the same machine.
    pub fn insert(&mut self, machine: MachineId, value: T)
        requires
            old(self).wf(),
        ensures
            final(self)@ == with_entry(old(self)@, machine, value),
            final(self).wf(),
    {
        let at: usize = self.position(machine);
        proof {
            entries_stay_in_order(self@, machine, value, machine);
        }
        if at < self.entries.len() && self.entries[at].0 == machine {
            self.entries.set(at, (machine, value));
        } else {
            self.entries.insert(at, (machine, value));
        }
    }

    /// Whether a machine has an entry.
    pub fn contains(&self, machine: MachineId) -> (contains: bool)
        ensures
            contains == has_machine(self@, machine),
    {
        let mut at: usize = 0;
        while at < self.entries.len()
            invariant
                at <= self.entries.len(),
                forall|before: int| 0 <= before < at ==> (#[trigger] self@[before]).0 != machine,
            decreases self.entries.len() - at,
        {
            if self.entries[at].0 == machine {
                proof {
                    assert(self@[at as int].0 == machine);
                }
                return true;
            }
            at += 1;
        }
        false
    }

    /// The value of a machine.
    pub fn get(&self, machine: MachineId) -> (value: Option<&T>)
        ensures
            match value {
                Some(value) => self@.contains((machine, *value)),
                None => !has_machine(self@, machine),
            },
    {
        let mut at: usize = 0;
        while at < self.entries.len()
            invariant
                at <= self.entries.len(),
                forall|before: int| 0 <= before < at ==> (#[trigger] self@[before]).0 != machine,
            decreases self.entries.len() - at,
        {
            if self.entries[at].0 == machine {
                let value = &self.entries[at].1;
                proof {
                    assert(self@[at as int] == (machine, *value));
                }
                return Some(value);
            }
            at += 1;
        }
        None
    }

    /// The machines, in order.
    pub fn machines(&self) -> (machines: Vec<MachineId>)
        ensures
            machines@ == keys(self@),
    {
        let mut machines: Vec<MachineId> = Vec::new();
        let mut at: usize = 0;
        while at < self.entries.len()
            invariant
                at <= self.entries.len(),
                machines@ == keys(self@.take(at as int)),
            decreases self.entries.len() - at,
        {
            machines.push(self.entries[at].0);
            proof {
                assert(keys(self@.take(at as int + 1)) =~= keys(self@.take(at as int)).push(
                    self@[at as int].0,
                ));
            }
            at += 1;
        }
        proof {
            assert(self@.take(self@.len() as int) =~= self@);
        }
        machines
    }
}

/// The machines of some entries.
pub open spec fn keys<T>(entries: Seq<(MachineId, T)>) -> Seq<MachineId> {
    entries.map_values(|entry: (MachineId, T)| entry.0)
}

} // verus!
