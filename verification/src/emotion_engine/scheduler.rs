use vstd::prelude::*;

verus! {

/// What the emulator does next.
#[derive(Debug, PartialEq, Eq, Structural, Clone, Copy)]
pub enum Event {
    Run(u64),
    VBlankStart,
    GsVBlank,
    VBlankEnd,
}

/// An event due at bus cycle `cycle`, which comes back every `period` cycles if it has one.
#[derive(Debug, PartialEq, Eq, Structural, Clone, Copy)]
pub struct PendingEvent {
    pub event: Event,
    pub period: Option<u64>,
    pub cycle: u64,
}

/// The bus cycles of a frame.
pub const CYCLES_PER_FRAME: u64 = 4920115;

/// The cycle of a frame at which vertical blanking starts.
pub const VBLANK_START_CYCLE: u64 = 4489019;

/// How long after the start of vertical blanking the GS sees it.
pub const GS_VBLANK_DELAY: u64 = 65622;

/// The longest run between two looks at the pending events.
pub const MAX_RUN: u64 = 32;

/// Keeps the bus cycle and the events that are due.
pub struct Scheduler {
    pub cycle: u64,
    pub pending: Vec<PendingEvent>,
}

/// The next occurrence of a periodic event lies within 64-bit cycle counts.
pub open spec fn no_overflow(event: PendingEvent) -> bool {
    match event.period {
        Some(period) => event.cycle + period <= u64::MAX,
        None => true,
    }
}

/// Whether entry `i` of `pending` is due no later than every other entry.
pub open spec fn is_earliest(pending: Seq<PendingEvent>, i: int) -> bool {
    &&& 0 <= i < pending.len()
    &&& forall|j: int| 0 <= j < pending.len() ==> pending[i].cycle <= #[trigger] pending[j].cycle
}

/// The pending events after the earliest one, entry `i`, is taken: a periodic event comes back
/// one period later, another one leaves.
pub open spec fn taken(pending: Seq<PendingEvent>, i: int) -> Seq<PendingEvent> {
    match pending[i].period {
        Some(period) => pending.update(
            i,
            PendingEvent { cycle: (pending[i].cycle + period) as u64, ..pending[i] },
        ),
        None => pending.remove(i),
    }
}

/// `new` and `r` are the scheduler and the result after a look at the pending events of `old`:
/// the cycle stays; of an earliest pending event, if it is due it is the result and is taken,
/// else the result is a run of the cycles until it is due, at most `MAX_RUN`.
pub open spec fn event_step(old: Scheduler, new: Scheduler, r: Event) -> bool {
    &&& new.cycle == old.cycle
    &&& exists|i: int|
        {
            &&& #[trigger] is_earliest(old.pending(), i)
            &&& if old.pending()[i].cycle <= old.cycle {
                &&& r == old.pending()[i].event
                &&& new.pending() == taken(old.pending(), i)
            } else {
                &&& r == Event::Run(
                    if old.pending()[i].cycle - old.cycle <= MAX_RUN {
                        (old.pending()[i].cycle - old.cycle) as u64
                    } else {
                        MAX_RUN
                    },
                )
                &&& new.pending() == old.pending()
            }
        }
}

/// The schedule of a frame: the start of vertical blanking, the GS's view of it and its end,
/// each pending once, in that order, each coming back once per frame and due within a frame
/// of the current cycle.
pub open spec fn frame_schedule(s: Scheduler) -> bool {
    let pending = s.pending();
    &&& pending.len() == 3
    &&& pending[0].event == Event::VBlankStart
    &&& pending[1].event == Event::GsVBlank
    &&& pending[2].event == Event::VBlankEnd
    &&& forall|i: int|
        0 <= i < 3 ==> (#[trigger] pending[i]).period == Some(CYCLES_PER_FRAME)
            && pending[i].cycle <= s.cycle + CYCLES_PER_FRAME
}

/// The schedule that `new` sets up keeps its shape: a look at the pending events leaves the
/// three blanking events pending, each once and with its period, and so does a tick.
pub proof fn law_frame_schedule_kept(old: Scheduler, new: Scheduler, r: Event, ticked: Scheduler)
    requires
        frame_schedule(old),
        event_step(old, new, r),
        ticked.pending() == old.pending(),
        ticked.cycle >= old.cycle,
    ensures
        frame_schedule(new),
        frame_schedule(ticked),
{
    let i = choose|i: int|
        {
            &&& #[trigger] is_earliest(old.pending(), i)
            &&& if old.pending()[i].cycle <= old.cycle {
                &&& r == old.pending()[i].event
                &&& new.pending() == taken(old.pending(), i)
            } else {
                &&& r == Event::Run(
                    if old.pending()[i].cycle - old.cycle <= MAX_RUN {
                        (old.pending()[i].cycle - old.cycle) as u64
                    } else {
                        MAX_RUN
                    },
                )
                &&& new.pending() == old.pending()
            }
        };
    assert(old.pending()[i].period == Some(CYCLES_PER_FRAME));
    assert forall|j: int| 0 <= j < 3 implies (#[trigger] ticked.pending()[j]).period == Some(
        CYCLES_PER_FRAME,
    ) && ticked.pending()[j].cycle <= ticked.cycle + CYCLES_PER_FRAME by {
        assert(old.pending()[j].period == Some(CYCLES_PER_FRAME));
    }
    assert forall|j: int| 0 <= j < 3 implies (#[trigger] new.pending()[j]).period == Some(
        CYCLES_PER_FRAME,
    ) && new.pending()[j].cycle <= new.cycle + CYCLES_PER_FRAME by {
        assert(old.pending()[j].period == Some(CYCLES_PER_FRAME));
    }
}

/// Within the schedule of a frame, as long as the cycle is two frames short of the largest
/// 64-bit count, `next_event` can always be called: an event is pending and no period
/// overflows.
pub proof fn law_frame_schedule_runs(s: Scheduler)
    requires
        frame_schedule(s),
        s.cycle + 2 * CYCLES_PER_FRAME <= u64::MAX,
    ensures
        s.pending().len() > 0,
        forall|j: int| 0 <= j < s.pending().len() ==> no_overflow(#[trigger] s.pending()[j]),
{
    assert forall|j: int| 0 <= j < s.pending().len() implies no_overflow(#[trigger] s.pending()[j]) by {
        assert(s.pending()[j].period == Some(CYCLES_PER_FRAME));
    }
}

/// One move of the scheduler: a look at the pending events with result `r`, or a tick.
pub open spec fn scheduler_move(old: Scheduler, new: Scheduler, r: Event) -> bool {
    event_step(old, new, r) || (new.pending() == old.pending() && new.cycle >= old.cycle)
}

/// Every state that moves reach from the schedule of a frame keeps it: the three blanking
/// events stay pending, each once and with its period, after any number of looks and ticks.
pub proof fn law_frame_schedule_reachable(states: Seq<Scheduler>, results: Seq<Event>)
    requires
        states.len() == results.len() + 1,
        frame_schedule(states[0]),
        forall|i: int|
            0 <= i < results.len() ==> #[trigger] scheduler_move(states[i], states[i + 1], results[i]),
    ensures
        forall|i: int| 0 <= i < states.len() ==> #[trigger] frame_schedule(states[i]),
    decreases results.len(),
{
    if results.len() > 0 {
        let n = results.len() - 1;
        let earlier = states.drop_last();
        assert forall|i: int| 0 <= i < n implies #[trigger] scheduler_move(
            earlier[i],
            earlier[i + 1],
            results.drop_last()[i],
        ) by {
            assert(scheduler_move(states[i], states[i + 1], results[i]));
        }
        law_frame_schedule_reachable(earlier, results.drop_last());
        assert(frame_schedule(earlier[n]));
        assert(scheduler_move(states[n], states[n + 1], results[n]));
        if event_step(states[n], states[n + 1], results[n]) {
            law_frame_schedule_kept(states[n], states[n + 1], results[n], states[n]);
        } else {
            let old = states[n];
            let new = states[n + 1];
            assert forall|j: int| 0 <= j < 3 implies (#[trigger] new.pending()[j]).period == Some(
                CYCLES_PER_FRAME,
            ) && new.pending()[j].cycle <= new.cycle + CYCLES_PER_FRAME by {
                assert(old.pending()[j].period == Some(CYCLES_PER_FRAME));
            }
        }
        assert forall|i: int| 0 <= i < states.len() implies #[trigger] frame_schedule(states[i]) by {
            if i < states.len() - 1 {
                assert(states[i] == earlier[i]);
            }
        }
    }
}

impl Scheduler {
    /// The events that are due, in no particular order.
    pub open spec fn pending(self) -> Seq<PendingEvent> {
        self.pending@
    }

    /// At cycle 0: the start and end of vertical blanking, and the GS's view of its start,
    /// each once per frame.
    pub fn new() -> (r: Scheduler)
        ensures
            r.cycle == 0,
            frame_schedule(r),
            r.pending() == seq![
                PendingEvent {
                    event: Event::VBlankStart,
                    period: Some(CYCLES_PER_FRAME),
                    cycle: VBLANK_START_CYCLE,
                },
                PendingEvent {
                    event: Event::GsVBlank,
                    period: Some(CYCLES_PER_FRAME),
                    cycle: (VBLANK_START_CYCLE + GS_VBLANK_DELAY) as u64,
                },
                PendingEvent {
                    event: Event::VBlankEnd,
                    period: Some(CYCLES_PER_FRAME),
                    cycle: CYCLES_PER_FRAME,
                },
            ],
    {
        let mut pending: Vec<PendingEvent> = Vec::new();
        pending.push(
            PendingEvent {
                event: Event::VBlankStart,
                period: Some(CYCLES_PER_FRAME),
                cycle: VBLANK_START_CYCLE,
            },
        );
        pending.push(
            PendingEvent {
                event: Event::GsVBlank,
                period: Some(CYCLES_PER_FRAME),
                cycle: VBLANK_START_CYCLE + GS_VBLANK_DELAY,
            },
        );
        pending.push(
            PendingEvent {
                event: Event::VBlankEnd,
                period: Some(CYCLES_PER_FRAME),
                cycle: CYCLES_PER_FRAME,
            },
        );
        let r = Scheduler { cycle: 0, pending };
        assert(r.pending() =~= seq![
            PendingEvent {
                event: Event::VBlankStart,
                period: Some(CYCLES_PER_FRAME),
                cycle: VBLANK_START_CYCLE,
            },
            PendingEvent {
                event: Event::GsVBlank,
                period: Some(CYCLES_PER_FRAME),
                cycle: (VBLANK_START_CYCLE + GS_VBLANK_DELAY) as u64,
            },
            PendingEvent {
                event: Event::VBlankEnd,
                period: Some(CYCLES_PER_FRAME),
                cycle: CYCLES_PER_FRAME,
            },
        ]);
        r
    }

    /// The next thing to do: the earliest pending event if it is due, which is then taken;
    /// else a run of the cycles until it is due, at most 32.
    pub fn next_event(&mut self) -> (r: Event)
        requires
            old(self).pending().len() > 0,
            forall|j: int|
                0 <= j < old(self).pending().len() ==> no_overflow(#[trigger] old(self).pending()[j]),
        ensures
            event_step(*old(self), *final(self), r),
    {
        let mut earliest: usize = 0;
        let mut j: usize = 1;
        while j < self.pending.len()
            invariant
                self.pending@ == old(self).pending@,
                self.cycle == old(self).cycle,
                1 <= j <= self.pending@.len(),
                earliest < j,
                forall|k: int| 0 <= k < j ==> self.pending@[earliest as int].cycle <= #[trigger] self.pending@[k].cycle,
            decreases self.pending@.len() - j,
        {
            if self.pending[j].cycle < self.pending[earliest].cycle {
                earliest = j;
            }
            j += 1;
        }
        assert(is_earliest(old(self).pending(), earliest as int));
        let next = self.pending[earliest];
        if next.cycle <= self.cycle {
            match next.period {
                Some(period) => {
                    self.pending.set(
                        earliest,
                        PendingEvent { event: next.event, period: Some(period), cycle: next.cycle + period },
                    );
                },
                None => {
                    self.pending.remove(earliest);
                },
            }
            next.event
        } else {
            let gap = next.cycle - self.cycle;
            Event::Run(
                if gap <= MAX_RUN {
                    gap
                } else {
                    MAX_RUN
                },
            )
        }
    }

    /// Advances the bus cycle by `cycles`.
    pub fn tick(&mut self, cycles: u64)
        requires
            old(self).cycle + cycles <= u64::MAX,
        ensures
            final(self).cycle == old(self).cycle + cycles,
            final(self).pending() == old(self).pending(),
    {
        self.cycle += cycles;
    }
}

} // verus!
