use vstd::prelude::*;
use crate::device::{decoded_device, handle_wf, Device, DeviceModel};
use crate::error::DecodeError;
use crate::raw::RawDevice;

verus! {

/// Whether the answer of the availability probe means that the discovery
/// subsystem can be used: any answer but zero does.
pub fn available(probe: i32) -> (b: bool)
    ensures
        b == (probe != 0),
{
    probe != 0
}

/// Every entry of an enumeration is well formed.
pub open spec fn handles_wf(handles: Seq<Option<RawDevice>>) -> bool {
    forall|i: int| 0 <= i < handles.len() ==> handle_wf(#[trigger] handles[i])
}

/// Whether `r` is what decoding the enumeration `handles` gives: the devices
/// of all its entries, one for one and in their order, where every entry
/// decodes; else the error of the first entry that does not.
pub open spec fn is_outcome_of(
    r: Result<Vec<Device>, DecodeError>,
    handles: Seq<Option<RawDevice>>,
) -> bool {
    match r {
        Ok(devices) => {
            &&& devices@.len() == handles.len()
            &&& forall|i: int|
                #![trigger devices@[i]]
                #![trigger handles[i]]
                0 <= i < handles.len() ==> decoded_device(handles[i]) == Ok::<
                    DeviceModel,
                    DecodeError,
                >(devices@[i]@)
        },
        Err(e) => exists|i: int|
            {
                &&& 0 <= i < handles.len()
                &&& #[trigger] decoded_device(handles[i]) == Err::<DeviceModel, DecodeError>(e)
                &&& forall|j: int| 0 <= j < i ==> #[trigger] decoded_device(handles[j]) is Ok
            },
    }
}

/// Whether every entry of an enumeration decodes.
pub open spec fn all_decode(handles: Seq<Option<RawDevice>>) -> bool {
    forall|i: int| 0 <= i < handles.len() ==> #[trigger] decoded_device(handles[i]) is Ok
}

/// An enumeration has one outcome: it is a collection exactly when every
/// entry decodes, and two outcomes of one enumeration fail alike.
pub proof fn lemma_outcome_is_determined(
    a: Result<Vec<Device>, DecodeError>,
    b: Result<Vec<Device>, DecodeError>,
    handles: Seq<Option<RawDevice>>,
)
    requires
        is_outcome_of(a, handles),
        is_outcome_of(b, handles),
    ensures
        a is Ok <==> all_decode(handles),
        a is Ok <==> b is Ok,
        a is Err ==> a->Err_0 == b->Err_0,
        a is Ok ==> a->Ok_0@.len() == b->Ok_0@.len() && forall|i: int|
            0 <= i < handles.len() ==> (#[trigger] a->Ok_0@[i])@ == b->Ok_0@[i]@,
{
    if a is Err && b is Err {
        let ea = a->Err_0;
        let eb = b->Err_0;
        let i = choose|i: int|
            {
                &&& 0 <= i < handles.len()
                &&& #[trigger] decoded_device(handles[i]) == Err::<DeviceModel, DecodeError>(ea)
                &&& forall|j: int| 0 <= j < i ==> #[trigger] decoded_device(handles[j]) is Ok
            };
        let k = choose|k: int|
            {
                &&& 0 <= k < handles.len()
                &&& #[trigger] decoded_device(handles[k]) == Err::<DeviceModel, DecodeError>(eb)
                &&& forall|j: int| 0 <= j < k ==> #[trigger] decoded_device(handles[j]) is Ok
            };
        assert(i == k) by {
            if i < k {
                assert(decoded_device(handles[i]) is Ok);
            }
            if k < i {
                assert(decoded_device(handles[k]) is Ok);
            }
        }
    }
}

/// An enumeration without entries decodes to a collection without devices.
pub proof fn lemma_empty_enumeration(r: Result<Vec<Device>, DecodeError>)
    requires
        is_outcome_of(r, Seq::<Option<RawDevice>>::empty()),
    ensures
        r is Ok,
        r->Ok_0@.len() == 0,
{
}

/// Decodes a whole enumeration, in its order. There is no partial result:
/// either every entry decodes and the devices come back one for one, or the
/// error of the first entry that does not decode comes back alone.
pub fn get_devices(handles: &[Option<RawDevice>]) -> (r: Result<Vec<Device>, DecodeError>)
    requires
        handles_wf(handles@),
    ensures
        is_outcome_of(r, handles@),
{
    let mut devices: Vec<Device> = Vec::with_capacity(handles.len());
    let mut i: usize = 0;
    while i < handles.len()
        invariant
            i <= handles@.len(),
            handles_wf(handles@),
            devices@.len() == i,
            forall|k: int|
                #![trigger devices@[k]]
                #![trigger handles@[k]]
                0 <= k < i ==> decoded_device(handles@[k]) == Ok::<DeviceModel, DecodeError>(
                    devices@[k]@,
                ),
        decreases handles@.len() - i,
    {
        assert(handle_wf(handles@[i as int]));
        match Device::from_sys(&handles[i]) {
            Ok(device) => {
                devices.push(device);
            },
            Err(e) => {
                assert(decoded_device(handles@[i as int]) == Err::<DeviceModel, DecodeError>(e));
                return Err(e);
            },
        }
        i = i + 1;
    }
    Ok(devices)
}

/// What the caller of a discovery is asked to do next.
#[derive(Clone, Copy, Debug, PartialEq, Eq, Structural)]
pub enum Action {
    /// Ask the enumeration, with no buffer, how many devices there are.
    QueryCount,
    /// Ask the enumeration to fill a buffer of this many handles.
    Populate { capacity: usize },
    /// Hand the buffer of this many handles back to the enumeration.
    Release { count: usize },
    /// Nothing is left to do: the outcome can be taken.
    Finished,
    /// The event answered nothing that was asked for, and changed nothing.
    Ignored,
}

/// What the caller reports back.
#[derive(Clone, Debug, PartialEq, Eq)]
pub enum Event {
    /// The enumeration counted this many devices.
    Counted { count: usize },
    /// The enumeration filled the buffer; these are its entries, in order,
    /// an empty handle as `None`.
    Populated { handles: Vec<Option<RawDevice>> },
    /// The buffer was handed back.
    Released,
}

/// How far a discovery has come.
#[derive(Clone, Copy, Debug, PartialEq, Eq, Structural)]
pub enum Phase {
    /// Waiting for the count.
    Sizing,
    /// Waiting for the filled buffer.
    Filling,
    /// Decoding is over, well or badly; waiting for the release.
    Releasing,
    /// The buffer is released.
    Done,
}

/// Whether an event is the answer that a phase waits for.
pub open spec fn answers(phase: Phase, event: Event) -> bool {
    match phase {
        Phase::Sizing => event is Counted,
        Phase::Filling => event is Populated,
        Phase::Releasing => event is Released,
        Phase::Done => false,
    }
}

/// The phase that follows when the awaited answer arrives.
pub open spec fn following(phase: Phase) -> Phase {
    match phase {
        Phase::Sizing => Phase::Filling,
        Phase::Filling => Phase::Releasing,
        Phase::Releasing => Phase::Done,
        Phase::Done => Phase::Done,
    }
}

/// The phase after an event: the following one on the awaited answer, the
/// same on anything else.
pub open spec fn phase_after(phase: Phase, event: Event) -> Phase {
    if answers(phase, event) {
        following(phase)
    } else {
        phase
    }
}

/// Whether an event in a phase makes the discovery ask for the release.
pub open spec fn asks_release(phase: Phase, event: Event) -> bool {
    phase == Phase::Filling && event is Populated
}

/// The phase after a run of events.
pub open spec fn phase_after_all(phase: Phase, events: Seq<Event>) -> Phase
    decreases events.len(),
{
    if events.len() == 0 {
        phase
    } else {
        phase_after_all(phase_after(phase, events[0]), events.skip(1))
    }
}

/// How often a run of events makes the discovery ask for the release.
pub open spec fn releases_asked(phase: Phase, events: Seq<Event>) -> nat
    decreases events.len(),
{
    if events.len() == 0 {
        0
    } else {
        let rest = releases_asked(phase_after(phase, events[0]), events.skip(1));
        if asks_release(phase, events[0]) {
            rest + 1
        } else {
            rest
        }
    }
}

/// Whatever events arrive, in whatever order, the release is asked for at
/// most once; not at all once the buffer was filled; and exactly once on
/// every run that ends a discovery begun before that.
pub proof fn lemma_release_exactly_once(phase: Phase, events: Seq<Event>)
    ensures
        releases_asked(phase, events) <= 1,
        phase == Phase::Releasing || phase == Phase::Done ==> releases_asked(phase, events) == 0,
        phase == Phase::Releasing || phase == Phase::Done ==> phase_after_all(phase, events)
            == Phase::Releasing || phase_after_all(phase, events) == Phase::Done,
        (phase == Phase::Sizing || phase == Phase::Filling) && phase_after_all(phase, events)
            == Phase::Done ==> releases_asked(phase, events) == 1,
        (phase == Phase::Sizing || phase == Phase::Filling) && (phase_after_all(phase, events)
            == Phase::Sizing || phase_after_all(phase, events) == Phase::Filling)
            ==> releases_asked(phase, events) == 0,
    decreases events.len(),
{
    if events.len() > 0 {
        lemma_release_exactly_once(phase_after(phase, events[0]), events.skip(1));
    }
}

/// One discovery pass: asks for the count, for the filled buffer and for its
/// release, in this order, and keeps the outcome until the release is done.
pub struct Discovery {
    phase: Phase,
    count: usize,
    outcome: Option<Result<Vec<Device>, DecodeError>>,
}

impl Discovery {
    #[verifier::type_invariant]
    spec fn inv(self) -> bool {
        self.outcome is Some <==> (self.phase == Phase::Releasing || self.phase == Phase::Done)
    }

    /// How far the discovery has come.
    pub closed spec fn phase(self) -> Phase {
        self.phase
    }

    /// The number of devices that the enumeration counted.
    pub closed spec fn count(self) -> usize {
        self.count
    }

    /// What decoding gave, once the buffer was filled.
    pub closed spec fn outcome(self) -> Option<Result<Vec<Device>, DecodeError>> {
        self.outcome
    }

    /// What a discovery in this state asks of its caller.
    pub open spec fn spec_pending(self) -> Action {
        match self.phase() {
            Phase::Sizing => Action::QueryCount,
            Phase::Filling => Action::Populate { capacity: self.count() },
            Phase::Releasing => Action::Release { count: self.count() },
            Phase::Done => Action::Finished,
        }
    }

    /// A discovery that has asked for nothing yet.
    pub fn new() -> (d: Discovery)
        ensures
            d.phase() == Phase::Sizing,
            d.outcome() is None,
            d.spec_pending() == Action::QueryCount,
    {
        Discovery { phase: Phase::Sizing, count: 0, outcome: None }
    }

    /// What the discovery waits for.
    pub fn pending(&self) -> (action: Action)
        ensures
            action == self.spec_pending(),
    {
        match self.phase {
            Phase::Sizing => Action::QueryCount,
            Phase::Filling => Action::Populate { capacity: self.count },
            Phase::Releasing => Action::Release { count: self.count },
            Phase::Done => Action::Finished,
        }
    }

    /// Takes the caller's report and says what to do next.
    ///
    /// The count is answered with the request to fill a buffer of that
    /// capacity. The filled buffer is decoded at once, and answered with the
    /// request to release it, whether decoding went well or not. The release
    /// is answered with `Finished`. An event that is not the awaited answer
    /// changes nothing and is answered with `Ignored`.
    pub fn step(&mut self, event: Event) -> (action: Action)
        requires
            event matches Event::Populated { handles } ==> handles_wf(handles@),
        ensures
            final(self).phase() == phase_after(old(self).phase(), event),
            action is Release <==> asks_release(old(self).phase(), event),
            !answers(old(self).phase(), event) ==> action == Action::Ignored
                && *final(self) == *old(self),
            answers(old(self).phase(), event) ==> action == final(self).spec_pending(),
            answers(old(self).phase(), event) ==> match event {
                Event::Counted { count } => final(self).count() == count && final(self).outcome()
                    is None,
                Event::Populated { handles } => {
                    &&& final(self).count() == old(self).count()
                    &&& final(self).outcome() is Some
                    &&& is_outcome_of(final(self).outcome().unwrap(), handles@)
                },
                Event::Released => {
                    &&& final(self).count() == old(self).count()
                    &&& final(self).outcome() == old(self).outcome()
                },
            },
    {
        proof {
            use_type_invariant(&*self);
        }
        match (self.phase, event) {
            (Phase::Sizing, Event::Counted { count }) => {
                *self = Discovery { phase: Phase::Filling, count, outcome: None };
                Action::Populate { capacity: count }
            },
            (Phase::Filling, Event::Populated { handles }) => {
                let count: usize = self.count;
                let outcome = get_devices(handles.as_slice());
                *self = Discovery { phase: Phase::Releasing, count, outcome: Some(outcome) };
                Action::Release { count }
            },
            (Phase::Releasing, Event::Released) => {
                self.phase = Phase::Done;
                Action::Finished
            },
            _ => Action::Ignored,
        }
    }

    /// Ends the discovery and hands out its outcome. There is one only when
    /// the buffer has been released; before that the answer is `None`.
    pub fn finish(self) -> (r: Option<Result<Vec<Device>, DecodeError>>)
        ensures
            r is Some <==> self.phase() == Phase::Done,
            r is Some ==> r == self.outcome(),
    {
        proof {
            use_type_invariant(&self);
        }
        match self.phase {
            Phase::Done => self.outcome,
            _ => None,
        }
    }
}

} // verus!
