use vstd::prelude::*;

use vstd::utf8::decode_utf8;
use vstd::utf8::valid_utf8;

use crate::kafka_client::OffsetEntry;
use crate::kafka_client::PartitionMeta;
use crate::kafka_client::TopicMeta;

verus! {

/// kafka's cluster client, held and passed around by verified code; its
/// value is opaque here and is only read through the wrappers below.
#[verifier::external_type_specification]
#[verifier::external_body]
pub struct ExKafkaClient(kafka::client::KafkaClient);

/// kafka's consumer-group session handle, opaque to verified code.
#[verifier::external_type_specification]
#[verifier::external_body]
pub struct ExConsumer(kafka::consumer::Consumer);

/// kafka's error value.  Verified code never reads it; every wrapper
/// failure is mapped to one of this library's error kinds.
#[verifier::external_type_specification]
#[verifier::external_body]
pub struct ExKafkaError(kafka::error::Error);

/// The host list a cluster client was created with and reports back.
pub uninterp spec fn hosts_of(c: kafka::client::KafkaClient) -> Seq<Seq<char>>;

/// Relies on kafka::client::KafkaClient::new: the new client stores the
/// given host list, which `hosts` exposes again.
#[verifier::external_body]
pub fn client_new(hosts: Vec<String>) -> (c: kafka::client::KafkaClient)
    ensures
        hosts_of(c) == hosts.deep_view(),
{
    kafka::client::KafkaClient::new(hosts)
}

/// Relies on kafka::client::KafkaClient::hosts: it returns the host list
/// that was supplied to `new`.
#[verifier::external_body]
pub fn client_hosts(c: &kafka::client::KafkaClient) -> (r: Vec<String>)
    ensures
        r.deep_view() == hosts_of(*c),
{
    c.hosts().to_vec()
}

/// Relies on kafka::client::KafkaClient::load_metadata_all: loads the full
/// cluster metadata over a transient connection.  Whether it succeeds
/// depends on the network, so nothing is promised of the outcome.
#[verifier::external_body]
pub fn load_metadata(c: &mut kafka::client::KafkaClient) -> (r: Result<(), kafka::error::Error>) {
    c.load_metadata_all()
}

/// Relies on kafka::client::KafkaClient::topics and the metadata accessors
/// Topic::name, Partition::id, Partition::leader, Broker::host and
/// Partition::is_available: the loaded topics — in the crate's iteration
/// order, since it stores them in a map — each with its partitions in the
/// reported order.  What they hold depends on the cluster, so nothing more
/// is promised.
#[verifier::external_body]
pub fn fetch_topics(c: &kafka::client::KafkaClient) -> (r: Vec<TopicMeta>) {
    c.topics().iter().map(|t| TopicMeta {
        name: t.name().to_owned(),
        partitions: t
            .partitions()
            .iter()
            .map(|p| PartitionMeta {
                id: p.id(),
                leader: p.leader().map(|b| b.host().to_owned()),
                available: p.is_available(),
            })
            .collect(),
    }).collect()
}

/// Relies on kafka::client::KafkaClient::fetch_topic_offsets: one
/// latest-offset query for one topic; each entry of the result carries a
/// partition id and that partition's latest offset.  The result depends on
/// the cluster.
#[verifier::external_body]
pub fn fetch_latest_offsets(c: &mut kafka::client::KafkaClient, topic: &str) -> (r: Result<
    Vec<OffsetEntry>,
    kafka::error::Error,
>) {
    match c.fetch_topic_offsets(topic, kafka::client::FetchOffset::Latest) {
        Ok(v) => Ok(
            v.into_iter().map(|o| OffsetEntry { partition: o.partition, offset: o.offset }).collect(),
        ),
        Err(e) => Err(e),
    }
}

/// Relies on kafka::consumer::Consumer::from_hosts and its builder: opens a
/// consumer-group session for `topic` under group `group`, falling back to
/// the earliest offset when the group has no committed one, with
/// broker-side offset storage.  Opening consumes nothing.
#[verifier::external_body]
pub fn open_consumer(hosts: Vec<String>, topic: &str, group: &str) -> (r: Result<
    kafka::consumer::Consumer,
    kafka::error::Error,
>) {
    kafka::consumer::Consumer::from_hosts(hosts)
        .with_topic(topic.to_owned())
        .with_fallback_offset(kafka::client::FetchOffset::Earliest)
        .with_group(group.to_owned())
        .with_offset_storage(Some(kafka::client::GroupOffsetStorage::Kafka))
        .create()
}

/// Relies on kafka::consumer::Consumer::poll and consume_messageset: one
/// fetch round for the session, returning the raw payload of every
/// delivered message in delivery order, with the whole batch marked as
/// consumed (not yet committed).  What arrives depends on the broker.
#[verifier::external_body]
pub fn poll_round(c: &mut kafka::consumer::Consumer) -> (r: Result<
    Vec<Vec<u8>>,
    kafka::error::Error,
>) {
    let sets = c.poll()?;
    let mut out: Vec<Vec<u8>> = Vec::new();
    for ms in sets.iter() {
        for m in ms.messages() {
            out.push(m.value.to_vec());
        }
        c.consume_messageset(ms)?;
    }
    Ok(out)
}

/// Relies on kafka::consumer::Consumer::commit_consumed: persists the
/// marked-as-consumed offsets for the session's group on the broker side.
#[verifier::external_body]
pub fn commit_raw(c: &mut kafka::consumer::Consumer) -> (r: Result<(), kafka::error::Error>) {
    c.commit_consumed()
}

/// Relies on core::str::from_utf8: it succeeds exactly on valid UTF-8 and
/// yields the text those bytes encode.
#[verifier::external_body]
pub fn utf8_to_string(bytes: &[u8]) -> (r: Option<String>)
    ensures
        r is Some <==> valid_utf8(bytes@),
        r matches Some(s) ==> s@ == decode_utf8(bytes@),
{
    match core::str::from_utf8(bytes) {
        Ok(s) => Some(s.to_owned()),
        Err(_) => None,
    }
}

} // verus!
