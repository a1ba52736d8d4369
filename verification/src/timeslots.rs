//! Traffic directions and the cell-wide allocator of traffic timeslots.
//!
//! Timeslot 1 carries the main control channel; timeslots 2..=4 can be
//! handed out, each to one owner at a time.

use vstd::prelude::*;

verus! {

/// Direction of a circuit.
#[derive(Clone, Copy, Debug, PartialEq, Eq, Structural)]
pub enum Direction {
    /// Neither direction.
    Neither,
    /// Downlink only.
    Dl,
    /// Uplink only.
    Ul,
    /// Downlink and uplink.
    Both,
}

impl Direction {
    /// The direction carries downlink traffic.
    pub open spec fn spec_includes_dl(&self) -> bool {
        *self == Direction::Dl || *self == Direction::Both
    }

    /// The direction carries uplink traffic.
    pub open spec fn spec_includes_ul(&self) -> bool {
        *self == Direction::Ul || *self == Direction::Both
    }

    #[verifier::when_used_as_spec(spec_includes_dl)]
    pub fn includes_dl(&self) -> (r: bool)
        ensures
            r == self.spec_includes_dl(),
    {
        match self {
            Direction::Dl | Direction::Both => true,
            _ => false,
        }
    }

    #[verifier::when_used_as_spec(spec_includes_ul)]
    pub fn includes_ul(&self) -> (r: bool)
        ensures
            r == self.spec_includes_ul(),
    {
        match self {
            Direction::Ul | Direction::Both => true,
            _ => false,
        }
    }
}

/// Entity that holds a traffic timeslot.
#[derive(Clone, Copy, Debug, PartialEq, Eq, Structural)]
pub enum TimeslotOwner {
    /// Circuit-mode control entity.
    Cmce,
    /// Network bridge.
    Brew,
    /// Upper MAC.
    Umac,
}

/// Why a timeslot could not be released.
#[derive(Clone, Copy, Debug, PartialEq, Eq, Structural)]
pub enum TimeslotAllocError {
    /// The timeslot number is not a traffic timeslot (2..=4).
    InvalidTimeslot,
    /// The timeslot is free or held by another owner.
    NotOwner,
}

/// Holder of each of the four timeslots; index `ts - 1` holds timeslot `ts`.
pub struct TimeslotAllocator {
    pub owners: [Option<TimeslotOwner>; 4],
}

impl Default for TimeslotAllocator {
    /// An allocator with every timeslot free.
    fn default() -> (r: TimeslotAllocator)
        ensures
            forall|i: int| 0 <= i < 4 ==> r.owners@[i] is None,
    {
        TimeslotAllocator::new()
    }
}

/// First traffic timeslot (2..=4) with no owner, if any.
pub open spec fn first_free_traffic_ts(owners: Seq<Option<TimeslotOwner>>) -> Option<u8> {
    if owners[1] is None {
        Some(2u8)
    } else if owners[2] is None {
        Some(3u8)
    } else if owners[3] is None {
        Some(4u8)
    } else {
        None
    }
}

impl TimeslotAllocator {
    /// An allocator with every timeslot free.
    pub fn new() -> (r: TimeslotAllocator)
        ensures
            forall|i: int| 0 <= i < 4 ==> r.owners@[i] is None,
    {
        TimeslotAllocator { owners: [None, None, None, None] }
    }

    /// Whether timeslot `ts` is held, and by whom.
    pub fn owner_of(&self, ts: u8) -> (r: Option<TimeslotOwner>)
        requires
            1 <= ts <= 4,
        ensures
            r == self.owners@[ts - 1],
    {
        self.owners[(ts - 1) as usize]
    }

    /// Hands the lowest free traffic timeslot to `owner`; `None` when all
    /// three are taken.
    pub fn allocate_any(&mut self, owner: TimeslotOwner) -> (r: Option<u8>)
        ensures
            r == first_free_traffic_ts(old(self).owners@),
            match r {
                Some(ts) => final(self).owners@ == old(self).owners@.update(ts - 1, Some(owner)),
                None => final(self).owners@ == old(self).owners@,
            },
    {
        let mut ts: u8 = 2;
        while ts <= 4
            invariant
                2 <= ts <= 5,
                self.owners@ == old(self).owners@,
                forall|j: int| 1 <= j < ts - 1 ==> self.owners@[j] is Some,
            decreases 5 - ts,
        {
            if self.owners[(ts - 1) as usize].is_none() {
                self.owners[(ts - 1) as usize] = Some(owner);
                return Some(ts);
            }
            ts = ts + 1;
        }
        None
    }

    /// Gives timeslot `ts` back; only its current owner may do so.
    pub fn release(&mut self, owner: TimeslotOwner, ts: u8) -> (r: Result<(), TimeslotAllocError>)
        ensures
            !(2 <= ts <= 4) ==> r == Err::<(), TimeslotAllocError>(TimeslotAllocError::InvalidTimeslot),
            2 <= ts <= 4 && old(self).owners@[ts - 1] != Some(owner) ==> r == Err::<(), TimeslotAllocError>(
                TimeslotAllocError::NotOwner,
            ),
            2 <= ts <= 4 && old(self).owners@[ts - 1] == Some(owner) ==> r is Ok,
            r is Ok ==> final(self).owners@ == old(self).owners@.update(ts - 1, None),
            r is Err ==> final(self).owners@ == old(self).owners@,
    {
        if ts < 2 || ts > 4 {
            return Err(TimeslotAllocError::InvalidTimeslot);
        }
        let i = (ts - 1) as usize;
        match self.owners[i] {
            Some(current) => {
                if current == owner {
                    self.owners[i] = None;
                    Ok(())
                } else {
                    Err(TimeslotAllocError::NotOwner)
                }
            },
            None => Err(TimeslotAllocError::NotOwner),
        }
    }
}

} // verus!
