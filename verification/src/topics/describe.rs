//! `topics describe`: one topic with its partitions and their leaders.

use vstd::prelude::*;
use crate::command::{spec_texts, Action, ActionView};

verus! {

/// The flags of `topics describe`.
#[derive(Clone, Debug, PartialEq, Eq)]
pub struct Describe {
    /// The brokers to start from, handed to the broker client as one entry.
    pub bootstrap_servers: String,
    /// The topic to describe.
    pub topic: String,
}

/// The mathematical value of a [`Describe`].
pub struct DescribeView {
    pub bootstrap_servers: Seq<char>,
    pub topic: Seq<char>,
}

impl View for Describe {
    type V = DescribeView;

    open spec fn view(&self) -> DescribeView {
        DescribeView { bootstrap_servers: self.bootstrap_servers@, topic: self.topic@ }
    }
}

/// A broker of the cluster.
#[derive(Clone, Debug, PartialEq, Eq)]
pub struct Broker {
    pub id: i32,
    pub host: String,
}

/// The mathematical value of a [`Broker`].
pub struct BrokerView {
    pub id: i32,
    pub host: Seq<char>,
}

impl View for Broker {
    type V = BrokerView;

    open spec fn view(&self) -> BrokerView {
        BrokerView { id: self.id, host: self.host@ }
    }
}

/// A partition as the broker client reports it: its leader may be missing.
#[derive(Clone, Debug, PartialEq, Eq)]
pub struct PartitionMeta {
    pub id: i32,
    pub is_available: bool,
    pub leader: Option<Broker>,
}

/// The mathematical value of a [`PartitionMeta`].
pub struct PartitionMetaView {
    pub id: i32,
    pub is_available: bool,
    pub leader: Option<BrokerView>,
}

impl View for PartitionMeta {
    type V = PartitionMetaView;

    open spec fn view(&self) -> PartitionMetaView {
        PartitionMetaView {
            id: self.id,
            is_available: self.is_available,
            leader: match self.leader {
                Some(broker) => Some(broker@),
                None => None,
            },
        }
    }
}

/// A partition of the described topic, with its leader.
#[derive(Clone, Debug, PartialEq, Eq)]
pub struct Partition {
    pub id: i32,
    pub is_available: bool,
    pub leader: Broker,
}

/// The mathematical value of a [`Partition`].
pub struct PartitionView {
    pub id: i32,
    pub is_available: bool,
    pub leader: BrokerView,
}

impl View for Partition {
    type V = PartitionView;

    open spec fn view(&self) -> PartitionView {
        PartitionView { id: self.id, is_available: self.is_available, leader: self.leader@ }
    }
}

/// The described topic.
#[derive(Clone, Debug, PartialEq, Eq)]
pub struct Topic {
    pub name: String,
    pub partitions: Vec<Partition>,
}

/// The mathematical value of a [`Topic`].
pub struct TopicView {
    pub name: Seq<char>,
    pub partitions: Seq<PartitionView>,
}

impl View for Topic {
    type V = TopicView;

    open spec fn view(&self) -> TopicView {
        TopicView {
            name: self.name@,
            partitions: Seq::new(self.partitions@.len(), |i: int| self.partitions@[i]@),
        }
    }
}

/// Why a topic could not be described.
#[derive(Clone, Copy, Debug, PartialEq, Eq, Structural)]
pub enum DescribeError {
    /// The brokers know no topic of that name.
    UnknownTopic,
    /// The partition with this id has no leader.
    NoLeader { partition: i32 },
}

/// The mathematical values of a list of reported partitions.
pub open spec fn spec_metas(partitions: Vec<PartitionMeta>) -> Seq<PartitionMetaView> {
    Seq::new(partitions@.len(), |i: int| partitions@[i]@)
}

/// The mathematical value of what the broker client reports of a topic.
pub open spec fn spec_report(partitions: Option<Vec<PartitionMeta>>) -> Option<
    Seq<PartitionMetaView>,
> {
    match partitions {
        Some(list) => Some(spec_metas(list)),
        None => None,
    }
}

/// The first action of `topics describe`: load the topic from the one entry
/// of bootstrap servers.
pub open spec fn spec_describe_run(d: DescribeView) -> ActionView {
    ActionView::LoadTopic { hosts: seq![d.bootstrap_servers], topic: d.topic }
}

/// The index of the first partition at or after `from` that has no leader.
pub open spec fn spec_leaderless_from(partitions: Seq<PartitionMetaView>, from: int) -> Option<int>
    decreases partitions.len() - from,
{
    if from < 0 || from >= partitions.len() {
        None
    } else if partitions[from].leader is None {
        Some(from)
    } else {
        spec_leaderless_from(partitions, from + 1)
    }
}

/// A reported partition with its leader.
pub open spec fn spec_led(meta: PartitionMetaView) -> PartitionView
    recommends
        meta.leader is Some,
{
    PartitionView { id: meta.id, is_available: meta.is_available, leader: meta.leader->0 }
}

/// The description of `topic` from what the broker client reports: an
/// unknown topic where it reports nothing, the first partition without a
/// leader where there is one, else each partition in its place with its
/// leader.
pub open spec fn spec_describe(topic: Seq<char>, report: Option<Seq<PartitionMetaView>>) -> Result<
    TopicView,
    DescribeError,
> {
    match report {
        None => Err(DescribeError::UnknownTopic),
        Some(partitions) => match spec_leaderless_from(partitions, 0) {
            Some(i) => Err(DescribeError::NoLeader { partition: partitions[i].id }),
            None => Ok(
                TopicView {
                    name: topic,
                    partitions: Seq::new(partitions.len(), |i: int| spec_led(partitions[i])),
                },
            ),
        },
    }
}

/// The mathematical value of what `loaded` returns.
pub open spec fn spec_described(r: Result<Topic, DescribeError>) -> Result<TopicView, DescribeError> {
    match r {
        Ok(topic) => Ok(topic@),
        Err(e) => Err(e),
    }
}

/// What `spec_leaderless_from` returns, said of the partitions: `None` when
/// every partition from `from` on has a leader, else the index of the first
/// that has none.
pub proof fn lemma_leaderless_from(partitions: Seq<PartitionMetaView>, from: int)
    requires
        0 <= from <= partitions.len(),
    ensures
        match spec_leaderless_from(partitions, from) {
            None => forall|j: int| from <= j < partitions.len() ==> (#[trigger] partitions[j]).leader is Some,
            Some(i) => {
                &&& from <= i < partitions.len()
                &&& partitions[i].leader is None
                &&& forall|j: int| from <= j < i ==> (#[trigger] partitions[j]).leader is Some
            },
        },
    decreases partitions.len() - from,
{
    if from < partitions.len() && partitions[from].leader is Some {
        lemma_leaderless_from(partitions, from + 1);
    }
}

/// When a description is owed: exactly when the topic is known and each of
/// its partitions has a leader. It then holds as many partitions as were
/// reported. An error names the first partition without a leader.
pub proof fn lemma_describe_outcomes(topic: Seq<char>, partitions: Seq<PartitionMetaView>)
    ensures
        spec_describe(topic, None) == Err::<TopicView, DescribeError>(DescribeError::UnknownTopic),
        spec_describe(topic, Some(partitions)) is Ok <==> forall|j: int|
            0 <= j < partitions.len() ==> (#[trigger] partitions[j]).leader is Some,
        spec_describe(topic, Some(partitions)) is Ok ==> {
            &&& spec_describe(topic, Some(partitions))->Ok_0.name == topic
            &&& spec_describe(topic, Some(partitions))->Ok_0.partitions.len() == partitions.len()
        },
        spec_describe(topic, Some(partitions)) is Err ==> exists|i: int|
            {
                &&& 0 <= i < partitions.len()
                &&& (#[trigger] partitions[i]).leader is None
                &&& spec_describe(topic, Some(partitions)) == Err::<TopicView, DescribeError>(
                    DescribeError::NoLeader { partition: partitions[i].id },
                )
                &&& forall|j: int| 0 <= j < i ==> (#[trigger] partitions[j]).leader is Some
            },
{
    lemma_leaderless_from(partitions, 0);
}

impl Describe {
    /// The first action of `topics describe`.
    pub fn run(&self) -> (a: Action)
        ensures
            a@ == spec_describe_run(self@),
    {
        let hosts = vec![self.bootstrap_servers.clone()];
        assert(spec_texts(hosts) =~= seq![self.bootstrap_servers@]);
        Action::LoadTopic { hosts, topic: self.topic.clone() }
    }

    /// Describes the topic once its metadata is loaded: `report` holds its
    /// partitions as the broker client reports them, or nothing where the
    /// brokers do not know the topic.
    pub fn loaded(&self, report: &Option<Vec<PartitionMeta>>) -> (r: Result<Topic, DescribeError>)
        ensures
            spec_described(r) == spec_describe(self.topic@, spec_report(*report)),
    {
        match report {
            None => Err(DescribeError::UnknownTopic),
            Some(metas) => {
                let ghost all = spec_metas(*metas);
                let mut partitions: Vec<Partition> = Vec::new();
                let mut i: usize = 0;
                while i < metas.len()
                    invariant
                        i <= metas.len(),
                        all == spec_metas(*metas),
                        spec_report(*report) == Some(all),
                        spec_leaderless_from(all, 0) == spec_leaderless_from(all, i as int),
                        partitions@.len() == i,
                        forall|j: int| 0 <= j < i ==> (#[trigger] all[j]).leader is Some,
                        forall|j: int|
                            0 <= j < i ==> (#[trigger] partitions@[j])@ == spec_led(all[j]),
                    decreases metas.len() - i,
                {
                    let meta = &metas[i];
                    assert(all[i as int] == meta@);
                    match &meta.leader {
                        Some(broker) => {
                            let leader = Broker { id: broker.id, host: broker.host.clone() };
                            let partition = Partition {
                                id: meta.id,
                                is_available: meta.is_available,
                                leader,
                            };
                            assert(partition@ == spec_led(all[i as int]));
                            partitions.push(partition);
                        },
                        None => {
                            assert(all[i as int].leader is None);
                            return Err(DescribeError::NoLeader { partition: meta.id });
                        },
                    }
                    i += 1;
                }
                let topic = Topic { name: self.topic.clone(), partitions };
                assert(topic@.partitions =~= Seq::new(all.len(), |i: int| spec_led(all[i])));
                Ok(topic)
            },
        }
    }
}

} // verus!
