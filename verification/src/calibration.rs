//! The dataset of one recording session: every packet received, and the
//! moments at which the user performed a labelled movement.

use vstd::prelude::*;

verus! {

/// Number of packets before a datapoint that make up its features.
pub const LOOKBEHIND: usize = 10;

/// A labelled moment of the session. It names a place in the dataset's list
/// of packets, and becomes a [`TrainingSample`] through [`PsyLinkDataset::get`].
#[derive(Clone, Debug)]
pub struct Datapoint {
    /// Number of packets that had been received when the label was recorded.
    pub packet_index: usize,
    /// The movement that the user was asked to perform.
    pub label: u8,
}

impl Default for Datapoint {
    fn default() -> (datapoint: Datapoint)
        ensures
            datapoint.packet_index == 0,
            datapoint.label == 0,
    {
        Datapoint { packet_index: 0, label: 0 }
    }
}

/// A training sample as plain values.
pub struct SampleView {
    pub features: Seq<Seq<u8>>,
    pub label: u8,
}

/// Features and label of one datapoint, ready for training.
#[derive(Clone, Debug)]
pub struct TrainingSample {
    /// The packets of the window before the datapoint, oldest first.
    pub features: Vec<Vec<u8>>,
    /// The datapoint's label.
    pub label: u8,
}

impl View for TrainingSample {
    type V = SampleView;

    open spec fn view(&self) -> SampleView {
        SampleView { features: self.features.deep_view(), label: self.label }
    }
}

impl Default for TrainingSample {
    fn default() -> (sample: TrainingSample)
        ensures
            sample@.features.len() == 0,
            sample@.label == 0,
    {
        TrainingSample { features: Vec::new(), label: 0 }
    }
}

/// A dataset as plain values.
pub struct DatasetView {
    pub datapoints: Seq<Datapoint>,
    pub all_packets: Seq<Seq<u8>>,
}

impl DatasetView {
    /// Whether datapoint `index` exists and has a full window of packets
    /// before it: more than [`LOOKBEHIND`] packets had been received when it
    /// was recorded, and the dataset holds all of them.
    pub open spec fn has_sample(self, index: int) -> bool {
        &&& 0 <= index < self.datapoints.len()
        &&& LOOKBEHIND < self.datapoints[index].packet_index <= self.all_packets.len()
    }

    /// The training sample of datapoint `index`: the [`LOOKBEHIND`] packets
    /// received last before the datapoint, with its label.
    pub open spec fn sample(self, index: int) -> SampleView
        recommends
            self.has_sample(index),
    {
        let datapoint = self.datapoints[index];
        SampleView {
            features: self.all_packets.subrange(
                datapoint.packet_index - LOOKBEHIND,
                datapoint.packet_index as int,
            ),
            label: datapoint.label,
        }
    }
}

/// All packets received in this session, and the datapoints recorded while
/// the user performed a particular movement.
#[derive(Clone, Debug)]
pub struct PsyLinkDataset {
    pub datapoints: Vec<Datapoint>,
    pub all_packets: Vec<Vec<u8>>,
}

impl View for PsyLinkDataset {
    type V = DatasetView;

    open spec fn view(&self) -> DatasetView {
        DatasetView { datapoints: self.datapoints@, all_packets: self.all_packets.deep_view() }
    }
}

impl Default for PsyLinkDataset {
    fn default() -> (dataset: PsyLinkDataset)
        ensures
            dataset@.datapoints.len() == 0,
            dataset@.all_packets.len() == 0,
    {
        PsyLinkDataset { datapoints: Vec::new(), all_packets: Vec::new() }
    }
}

/// A copy of the packets `start..end`.
fn copy_window(packets: &Vec<Vec<u8>>, start: usize, end: usize) -> (window: Vec<Vec<u8>>)
    requires
        start <= end <= packets.len(),
    ensures
        window.deep_view() == packets.deep_view().subrange(start as int, end as int),
{
    let mut window: Vec<Vec<u8>> = Vec::new();
    let mut at: usize = start;
    while at < end
        invariant
            start <= at <= end <= packets.len(),
            window@.len() == at - start,
            forall|i: int| 0 <= i < at - start ==> (#[trigger] window@[i])@ == packets@[start + i]@,
        decreases end - at,
    {
        let packet = packets[at].clone();
        assert(packet@ =~= packets@[at as int]@);
        window.push(packet);
        at = at + 1;
    }
    assert(window.deep_view() =~~= packets.deep_view().subrange(start as int, end as int));
    window
}

impl PsyLinkDataset {
    /// The training sample of datapoint `index`: its label, and as features
    /// the packets of the window before it. There is none where the datapoint
    /// does not exist or its window is not complete.
    pub fn get(&self, index: usize) -> (sample: Option<TrainingSample>)
        ensures
            sample is Some <==> self@.has_sample(index as int),
            sample matches Some(found) ==> found@ == self@.sample(index as int),
    {
        if index >= self.datapoints.len() {
            return None;
        }
        let datapoint = &self.datapoints[index];
        if datapoint.packet_index <= LOOKBEHIND {
            return None;
        }
        let start: usize = datapoint.packet_index - LOOKBEHIND;
        let end: usize = datapoint.packet_index;
        if end > self.all_packets.len() {
            return None;
        }
        Some(
            TrainingSample {
                features: copy_window(&self.all_packets, start, end),
                label: datapoint.label,
            },
        )
    }

    /// The number of datapoints.
    pub fn len(&self) -> (count: usize)
        ensures
            count == self@.datapoints.len(),
    {
        self.datapoints.len()
    }
}

/// Collects the packets and datapoints of a session.
#[derive(Clone, Debug)]
pub struct CalibController {
    pub dataset: PsyLinkDataset,
}

impl View for CalibController {
    type V = DatasetView;

    open spec fn view(&self) -> DatasetView {
        self.dataset@
    }
}

impl Default for CalibController {
    fn default() -> (controller: CalibController)
        ensures
            controller@.datapoints.len() == 0,
            controller@.all_packets.len() == 0,
    {
        CalibController { dataset: PsyLinkDataset::default() }
    }
}

impl CalibController {
    /// Appends a packet to the session.
    pub fn add_packet(&mut self, sample: Vec<u8>)
        ensures
            final(self)@.all_packets == old(self)@.all_packets.push(sample@),
            final(self)@.datapoints == old(self)@.datapoints,
    {
        self.dataset.all_packets.push(sample);
        assert(self.dataset.all_packets.deep_view() =~~= old(self).dataset.all_packets.deep_view().push(
            sample@,
        ));
    }

    /// Appends a datapoint to the session.
    pub fn add_datapoint(&mut self, datapoint: Datapoint)
        ensures
            final(self)@.datapoints == old(self)@.datapoints.push(datapoint),
            final(self)@.all_packets == old(self)@.all_packets,
    {
        self.dataset.datapoints.push(datapoint);
    }

    /// The index that the next packet will get, which is the number of
    /// packets received so far. A datapoint recorded now takes it as its
    /// `packet_index`, so add the packet first.
    pub fn get_current_index(&self) -> (index: usize)
        ensures
            index == self@.all_packets.len(),
    {
        self.dataset.all_packets.len()
    }
}

} // verus!
