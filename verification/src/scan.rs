//! From scan events to readings: which events are looked at, what each one
//! gives, and the sequence of results that a feed of events amounts to.

use crate::decode::{
    decode_failure, manufacturer_id, parse_sensor_data, sensor_data_of, DecodeError,
    MANUFACTURER_DATA_ID,
};
use crate::format3::lemma_number_of_bytes;
use crate::reading::SensorData;
use vstd::prelude::*;

verus! {

/// An event of a scan, as far as the readings depend on it.
#[derive(Debug, Clone, Copy, PartialEq, Eq)]
pub enum ScanEvent {
    /// A device was seen for the first time.
    DeviceDiscovered([u8; 6]),
    /// A device that was seen before has advertised again.
    DeviceUpdated([u8; 6]),
    /// Any other event: a device lost, connected or disconnected.
    Other,
}

/// An event together with the manufacturer data that the adapter held for
/// the event's device when the event was handled.
#[derive(Debug, Clone, PartialEq, Eq)]
pub struct Observation {
    pub event: ScanEvent,
    pub manufacturer_data: Option<Vec<u8>>,
}

impl ScanEvent {
    /// The device whose manufacturer data the event asks to look up.
    pub open spec fn subject(self) -> Option<[u8; 6]> {
        match self {
            ScanEvent::DeviceDiscovered(address) => Some(address),
            ScanEvent::DeviceUpdated(address) => Some(address),
            ScanEvent::Other => None,
        }
    }

    /// The address of the device that was discovered or updated; `None` for
    /// an event that gives no reading.
    pub fn address(&self) -> (r: Option<[u8; 6]>)
        ensures
            r == self.subject(),
    {
        match self {
            ScanEvent::DeviceDiscovered(address) => Some(*address),
            ScanEvent::DeviceUpdated(address) => Some(*address),
            ScanEvent::Other => None,
        }
    }
}

impl Observation {
    /// The manufacturer data as a sequence of bytes.
    pub open spec fn data(self) -> Option<Seq<u8>> {
        match self.manufacturer_data {
            Some(bytes) => Some(bytes@),
            None => None,
        }
    }

    /// What the observation adds to the sequence of results: nothing, a
    /// reading or a failure.
    pub open spec fn outcome(self) -> Option<Result<SensorData, DecodeError>> {
        match self.event.subject() {
            Some(address) => sensor_data_of(address, self.data()),
            None => None,
        }
    }

    /// Handles one observation.
    pub fn observe(&self) -> (r: Option<Result<SensorData, DecodeError>>)
        ensures
            r == self.outcome(),
    {
        match self.event.address() {
            Some(address) => match &self.manufacturer_data {
                Some(bytes) => parse_sensor_data(address, Some(bytes.as_slice())),
                None => parse_sensor_data(address, None),
            },
            None => None,
        }
    }
}

/// The results that a feed of observations amounts to: the outcome of each
/// observation that has one, in the order of the feed.
pub open spec fn scan_outcomes(feed: Seq<Observation>) -> Seq<Result<SensorData, DecodeError>>
    decreases feed.len(),
{
    if feed.len() == 0 {
        Seq::empty()
    } else {
        match feed.last().outcome() {
            Some(result) => scan_outcomes(feed.drop_last()).push(result),
            None => scan_outcomes(feed.drop_last()),
        }
    }
}

/// The position of the first observation at or after `from` that has an
/// outcome; the length of the feed where there is none.
pub open spec fn next_outcome_at(feed: Seq<Observation>, from: int) -> int
    decreases feed.len() - from,
{
    if from < 0 || from >= feed.len() {
        feed.len() as int
    } else if feed[from].outcome() is Some {
        from
    } else {
        next_outcome_at(feed, from + 1)
    }
}

/// All results of a feed, in order.
pub fn scan_results(feed: &Vec<Observation>) -> (results: Vec<Result<SensorData, DecodeError>>)
    ensures
        results@ == scan_outcomes(feed@),
{
    let mut results: Vec<Result<SensorData, DecodeError>> = Vec::new();
    let mut i: usize = 0;
    while i < feed.len()
        invariant
            i <= feed.len(),
            results@ == scan_outcomes(feed@.take(i as int)),
        decreases feed.len() - i,
    {
        proof {
            assert(feed@.take(i + 1).drop_last() =~= feed@.take(i as int));
        }
        if let Some(result) = feed[i].observe() {
            results.push(result);
        }
        i += 1;
    }
    proof {
        assert(feed@.take(i as int) =~= feed@);
    }
    results
}

/// A feed of observations that is read once, from front to back.
#[derive(Debug, Clone)]
pub struct ScanReplay {
    pub feed: Vec<Observation>,
    /// How many observations have been handled.
    pub position: usize,
}

impl ScanReplay {
    /// A replay that has handled nothing yet.
    pub fn new(feed: Vec<Observation>) -> (replay: Self)
        ensures
            replay.feed == feed,
            replay.position == 0,
    {
        ScanReplay { feed, position: 0 }
    }

    /// The next result: the outcome of the first observation not yet
    /// handled that has one, or `None` once the feed is exhausted.
    /// Observations without an outcome are passed over.
    pub fn next(&mut self) -> (r: Option<Result<SensorData, DecodeError>>)
        ensures
            final(self).feed == old(self).feed,
            old(self).position >= old(self).feed.len() ==> r is None && final(self).position == old(
                self,
            ).position,
            old(self).position < old(self).feed.len() ==> ({
                let at = next_outcome_at(old(self).feed@, old(self).position as int);
                if at < old(self).feed.len() {
                    r == old(self).feed[at].outcome() && r is Some && final(self).position == at + 1
                } else {
                    r is None && final(self).position == old(self).feed.len()
                }
            }),
    {
        while self.position < self.feed.len()
            invariant
                self.feed == old(self).feed,
                old(self).position <= self.position,
                old(self).position >= old(self).feed.len() ==> self.position == old(self).position,
                old(self).position < old(self).feed.len() ==> self.position <= self.feed.len()
                    && next_outcome_at(self.feed@, self.position as int) == next_outcome_at(
                    old(self).feed@,
                    old(self).position as int,
                ),
            decreases self.feed.len() - self.position,
        {
            let result = self.feed[self.position].observe();
            self.position += 1;
            if result.is_some() {
                return result;
            }
        }
        None
    }
}

/// The results of a feed are those of its front followed by those of its
/// back: each observation contributes on its own, and the order of the
/// feed is kept.
pub proof fn lemma_scan_outcomes_concat(front: Seq<Observation>, back: Seq<Observation>)
    ensures
        scan_outcomes(front + back) == scan_outcomes(front) + scan_outcomes(back),
    decreases back.len(),
{
    if back.len() == 0 {
        assert(front + back =~= front);
        assert(scan_outcomes(front) + scan_outcomes(back) =~= scan_outcomes(front));
    } else {
        lemma_scan_outcomes_concat(front, back.drop_last());
        assert((front + back).drop_last() =~= front + back.drop_last());
        assert((front + back).last() == back.last());
        match back.last().outcome() {
            Some(result) => {
                assert((scan_outcomes(front) + scan_outcomes(back.drop_last())).push(result)
                    =~= scan_outcomes(front) + scan_outcomes(back.drop_last()).push(result));
            },
            None => {},
        }
    }
}

/// The results of a feed of one observation.
pub proof fn lemma_scan_outcomes_single(o: Observation)
    ensures
        scan_outcomes(seq![o]) == match o.outcome() {
            Some(result) => seq![result],
            None => Seq::empty(),
        },
{
    assert(seq![o].drop_last() =~= Seq::<Observation>::empty());
    assert(seq![o].last() == o);
    assert(scan_outcomes(Seq::<Observation>::empty()) =~= Seq::empty());
    match o.outcome() {
        Some(result) => {
            assert(Seq::<Result<SensorData, DecodeError>>::empty().push(result) =~= seq![result]);
        },
        None => {},
    }
}

/// What `ScanReplay::next` returns heads the results of what was not yet
/// handled, and what it leaves unhandled gives the rest of them; it
/// returns nothing only where nothing is left to report.
pub proof fn lemma_next_outcome_heads_the_rest(feed: Seq<Observation>, from: int)
    requires
        0 <= from <= feed.len(),
    ensures
        from <= next_outcome_at(feed, from) <= feed.len(),
        next_outcome_at(feed, from) < feed.len() ==> feed[next_outcome_at(feed, from)].outcome()
            is Some && scan_outcomes(feed.skip(from)) == seq![
            feed[next_outcome_at(feed, from)].outcome().unwrap(),
        ] + scan_outcomes(feed.skip(next_outcome_at(feed, from) + 1)),
        next_outcome_at(feed, from) == feed.len() ==> scan_outcomes(feed.skip(from))
            == Seq::<Result<SensorData, DecodeError>>::empty(),
    decreases feed.len() - from,
{
    if from < feed.len() {
        let head = seq![feed[from]];
        assert(feed.skip(from) =~= head + feed.skip(from + 1));
        lemma_scan_outcomes_concat(head, feed.skip(from + 1));
        lemma_scan_outcomes_single(feed[from]);
        if feed[from].outcome() is None {
            lemma_next_outcome_heads_the_rest(feed, from + 1);
            assert(Seq::<Result<SensorData, DecodeError>>::empty() + scan_outcomes(
                feed.skip(from + 1),
            ) =~= scan_outcomes(feed.skip(from + 1)));
        }
    } else {
        assert(feed.skip(from) =~= Seq::<Observation>::empty());
    }
}

/// An observation without an outcome leaves no trace in the results,
/// wherever in the feed it stands.
pub proof fn lemma_silent_observation_is_dropped(
    front: Seq<Observation>,
    o: Observation,
    back: Seq<Observation>,
)
    requires
        o.outcome() is None,
    ensures
        scan_outcomes(front + seq![o] + back) == scan_outcomes(front) + scan_outcomes(back),
{
    lemma_scan_outcomes_concat(front + seq![o], back);
    lemma_scan_outcomes_concat(front, seq![o]);
    lemma_scan_outcomes_single(o);
    assert(scan_outcomes(front) + Seq::<Result<SensorData, DecodeError>>::empty()
        =~= scan_outcomes(front));
}

/// An observation with an outcome puts exactly that result between the
/// results of what came before and of what comes after: a failure is
/// reported in its place and the scan goes on.
pub proof fn lemma_outcome_is_reported_in_place(
    front: Seq<Observation>,
    o: Observation,
    back: Seq<Observation>,
)
    requires
        o.outcome() is Some,
    ensures
        scan_outcomes(front + seq![o] + back) == scan_outcomes(front).push(o.outcome().unwrap())
            + scan_outcomes(back),
{
    lemma_scan_outcomes_concat(front + seq![o], back);
    lemma_scan_outcomes_concat(front, seq![o]);
    lemma_scan_outcomes_single(o);
    assert(scan_outcomes(front) + seq![o.outcome().unwrap()] =~= scan_outcomes(front).push(
        o.outcome().unwrap(),
    ));
}

/// Manufacturer data under another identifier than that of RuuviTags has no
/// outcome, whatever the event and whatever follows the identifier.
pub proof fn lemma_unknown_identifier_is_silent(o: Observation)
    requires
        o.data() is Some,
        manufacturer_id(o.data().unwrap()) != MANUFACTURER_DATA_ID,
    ensures
        o.outcome() is None,
{
}

/// Manufacturer data of two bytes or fewer has no outcome.
pub proof fn lemma_short_data_is_silent(o: Observation)
    requires
        o.data() is Some ==> o.data().unwrap().len() <= 2,
    ensures
        o.outcome() is None,
{
}

/// Every reading that an observation gives has a temperature between
/// -163.835 and 163.835 degrees Celsius, so that its temperature in
/// milli-Celsius can always be taken.
pub proof fn lemma_reading_temperature_is_convertible(o: Observation)
    ensures
        match o.outcome() {
            Some(Ok(reading)) => -163_835 <= reading.millicelsius() <= 163_835,
            _ => true,
        },
{
    if o.event.subject() is Some && o.data() is Some && o.data().unwrap().len() > 2 {
        let payload = o.data().unwrap().skip(2);
        if decode_failure(manufacturer_id(o.data().unwrap()), payload) is None {
            lemma_number_of_bytes(payload[1], payload[2]);
        }
    }
}

/// A malformed payload of a discovered or updated device is reported as
/// the failure with which its decoding ends.
pub proof fn lemma_malformed_payload_is_reported(o: Observation)
    requires
        o.event.subject() is Some,
        o.data() is Some,
        o.data().unwrap().len() > 2,
        manufacturer_id(o.data().unwrap()) == MANUFACTURER_DATA_ID,
        decode_failure(MANUFACTURER_DATA_ID, o.data().unwrap().skip(2)) is Some,
    ensures
        o.outcome() == Some(
            Err::<SensorData, DecodeError>(
                decode_failure(MANUFACTURER_DATA_ID, o.data().unwrap().skip(2)).unwrap(),
            ),
        ),
{
}

} // verus!
