use vstd::prelude::*;

use vstd::utf8::decode_utf8;
use vstd::utf8::valid_utf8;

use crate::errors::DashboardError;
use crate::kafka_api::client_hosts;
use crate::kafka_api::client_new;
use crate::kafka_api::commit_raw;
use crate::kafka_api::fetch_latest_offsets;
use crate::kafka_api::fetch_topics;
use crate::kafka_api::hosts_of;
use crate::kafka_api::load_metadata;
use crate::kafka_api::open_consumer;
use crate::kafka_api::poll_round;
use crate::kafka_api::utf8_to_string;

verus! {

/// A partition of a topic as one metadata refresh reports it: its id, the
/// address of its leader (or the fixed placeholder when none is reachable),
/// whether it is available, and the latest offset read at snapshot time.
/// The offset is advisory display data, not used for consumption.
#[derive(Debug, Clone)]
pub struct Partition {
    pub id: i32,
    pub leader: String,
    pub available: bool,
    pub offset: i64,
}

/// One topic of the catalog: its name and its partitions in broker-reported
/// order.  Immutable once constructed; rebuilt wholesale on every refresh.
#[derive(Debug, Clone)]
pub struct TopicData {
    pub name: String,
    pub partitions: Vec<Partition>,
}

/// The partition metadata the broker reports before offsets are joined on:
/// the partition id, the leader's host when one is reachable, and the
/// reported availability.
#[derive(Debug, Clone)]
pub struct PartitionMeta {
    pub id: i32,
    pub leader: Option<String>,
    pub available: bool,
}

/// One topic as the broker reports it, before offsets are joined on.
#[derive(Debug, Clone)]
pub struct TopicMeta {
    pub name: String,
    pub partitions: Vec<PartitionMeta>,
}

/// One entry of a latest-offset query result: a partition id and the latest
/// offset of that partition.
#[derive(Debug, Clone, Copy)]
pub struct OffsetEntry {
    pub partition: i32,
    pub offset: i64,
}

/// The leader address reported for a partition with no reachable leader.
pub open spec fn no_leader_text() -> Seq<char> {
    "no leader available"@
}

/// The placeholder leader address, as a value.
pub fn no_leader_string() -> (r: String)
    ensures
        r@ == no_leader_text(),
{
    "no leader available".to_owned()
}

/// The offset joined onto partition `id` from an offset-query result: the
/// offset of the first entry for that partition, and 0 when the result
/// holds no entry for it.
pub open spec fn offset_for(offs: Seq<OffsetEntry>, id: i32) -> i64
    decreases offs.len(),
{
    if offs.len() == 0 {
        0
    } else if offs[0].partition == id {
        offs[0].offset
    } else {
        offset_for(offs.drop_first(), id)
    }
}

/// Law: a partition that no entry of the offset-query result matches is
/// joined with latest offset 0 — an explicit design decision, never an
/// error, since an offset query may legitimately return a partial result
/// set for an empty partition.
pub proof fn lemma_unmatched_offset_is_zero(offs: Seq<OffsetEntry>, id: i32)
    requires
        forall|j: int| 0 <= j < offs.len() ==> (#[trigger] offs[j]).partition != id,
    ensures
        offset_for(offs, id) == 0,
    decreases offs.len(),
{
    if offs.len() > 0 {
        assert forall|j: int| 0 <= j < offs.drop_first().len() implies (#[trigger] offs.drop_first()[j]).partition
            != id by {
            assert(offs.drop_first()[j] == offs[j + 1]);
        }
        lemma_unmatched_offset_is_zero(offs.drop_first(), id);
    }
}

/// How one reported partition is joined with the offset-query result:
/// ids correspond one to one; the joined offset is `offset_for`; a
/// partition with no reachable leader is reported with the placeholder
/// address and as unavailable rather than failing the refresh.
pub open spec fn partition_joined(m: PartitionMeta, offs: Seq<OffsetEntry>, p: Partition) -> bool {
    &&& p.id == m.id
    &&& p.offset == offset_for(offs, m.id)
    &&& match m.leader {
        Option::None => p.leader@ == no_leader_text() && !p.available,
        Option::Some(h) => p.leader@ == h@ && p.available == m.available,
    }
}

/// Law: a partition that no entry of the offset-query result matches is
/// joined with latest offset 0.
pub proof fn lemma_unmatched_partition_offset(m: PartitionMeta, offs: Seq<OffsetEntry>, p: Partition)
    requires
        partition_joined(m, offs, p),
        forall|j: int| 0 <= j < offs.len() ==> (#[trigger] offs[j]).partition != m.id,
    ensures
        p.offset == 0,
{
    lemma_unmatched_offset_is_zero(offs, m.id);
}

/// Law: a partition joined from metadata with no reachable leader is
/// reported with the placeholder leader address and as unavailable, rather
/// than failing the refresh.
pub proof fn lemma_no_leader_reported(m: PartitionMeta, offs: Seq<OffsetEntry>, p: Partition)
    requires
        partition_joined(m, offs, p),
        m.leader is None,
    ensures
        p.leader@ == no_leader_text(),
        !p.available,
{
}

/// Returns the offset joined onto partition `id`.
fn find_offset(offs: &Vec<OffsetEntry>, id: i32) -> (r: i64)
    ensures
        r == offset_for(offs@, id),
{
    let mut i: usize = 0;
    proof {
        assert(offs@.skip(0) =~= offs@);
    }
    while i < offs.len()
        invariant
            i <= offs@.len(),
            offset_for(offs@, id) == offset_for(offs@.skip(i as int), id),
        decreases offs@.len() - i,
    {
        if offs[i].partition == id {
            assert(offs@.skip(i as int)[0] == offs@[i as int]);
            return offs[i].offset;
        }
        proof {
            assert(offs@.skip(i as int).drop_first() =~= offs@.skip(i as int + 1));
        }
        i += 1;
    }
    proof {
        assert(offs@.skip(i as int) =~= Seq::<OffsetEntry>::empty());
    }
    0
}

/// Joins one latest-offset query result onto the reported partitions of a
/// topic, by partition id.  Every reported partition appears in the result,
/// in the reported order.
pub fn join_partitions(parts: &Vec<PartitionMeta>, offs: &Vec<OffsetEntry>) -> (r: Vec<Partition>)
    ensures
        r@.len() == parts@.len(),
        forall|k: int| 0 <= k < parts@.len() ==> partition_joined(
            parts@[k],
            offs@,
            #[trigger] r@[k],
        ),
{
    let mut out: Vec<Partition> = Vec::new();
    let mut i: usize = 0;
    while i < parts.len()
        invariant
            i <= parts@.len(),
            out@.len() == i,
            forall|k: int| 0 <= k < i ==> partition_joined(parts@[k], offs@, #[trigger] out@[k]),
        decreases parts@.len() - i,
    {
        let offset = find_offset(offs, parts[i].id);
        let p = match &parts[i].leader {
            Option::Some(h) => Partition {
                id: parts[i].id,
                leader: h.clone(),
                available: parts[i].available,
                offset,
            },
            Option::None => Partition {
                id: parts[i].id,
                leader: no_leader_string(),
                available: false,
                offset,
            },
        };
        out.push(p);
        i += 1;
    }
    out
}

/// How one catalog entry is built from one topic's reported metadata and
/// its latest-offset query result: the name is kept, and every reported
/// partition is joined, in the reported order.
pub open spec fn topic_built(m: TopicMeta, offs: Seq<OffsetEntry>, t: TopicData) -> bool {
    &&& t.name@ == m.name@
    &&& t.partitions@.len() == m.partitions@.len()
    &&& forall|j: int| 0 <= j < m.partitions@.len() ==> partition_joined(
        m.partitions@[j],
        offs,
        #[trigger] t.partitions@[j],
    )
}

/// Builds the catalog entry for one topic from its reported metadata and
/// its latest-offset query result.
pub fn build_topic(meta: &TopicMeta, offs: &Vec<OffsetEntry>) -> (t: TopicData)
    ensures
        topic_built(*meta, offs@, t),
{
    TopicData { name: meta.name.clone(), partitions: join_partitions(&meta.partitions, offs) }
}

/// Extracts the topic names from reported metadata: exactly one name per
/// topic, in the same order.
pub fn topic_names(metas: &Vec<TopicMeta>) -> (r: Vec<String>)
    ensures
        r@.len() == metas@.len(),
        forall|k: int| 0 <= k < metas@.len() ==> (#[trigger] r@[k])@ == metas@[k].name@,
{
    let mut names: Vec<String> = Vec::new();
    let mut i: usize = 0;
    while i < metas.len()
        invariant
            i <= metas@.len(),
            names@.len() == i,
            forall|k: int| 0 <= k < i ==> (#[trigger] names@[k])@ == metas@[k].name@,
        decreases metas@.len() - i,
    {
        names.push(metas[i].name.clone());
        i += 1;
    }
    names
}

/// Assembles the whole catalog from the reported metadata and one
/// latest-offset query result per topic: exactly one entry per reported
/// topic, in the same order, each built as `topic_built` states.
pub fn assemble_catalog(metas: &Vec<TopicMeta>, offsets: &Vec<Vec<OffsetEntry>>) -> (r: Vec<
    TopicData,
>)
    requires
        offsets@.len() == metas@.len(),
    ensures
        r@.len() == metas@.len(),
        forall|k: int| 0 <= k < metas@.len() ==> topic_built(
            metas@[k],
            offsets@[k]@,
            #[trigger] r@[k],
        ),
{
    let mut out: Vec<TopicData> = Vec::new();
    let mut i: usize = 0;
    while i < metas.len()
        invariant
            offsets@.len() == metas@.len(),
            i <= metas@.len(),
            out@.len() == i,
            forall|k: int| 0 <= k < i ==> topic_built(metas@[k], offsets@[k]@, #[trigger] out@[k]),
        decreases metas@.len() - i,
    {
        out.push(build_topic(&metas[i], &offsets[i]));
        i += 1;
    }
    out
}

/// Law: the topic-name listing and the detailed catalog derived from the
/// same reported metadata enumerate the same topics, in the same order —
/// one is the other's list of names.
pub proof fn lemma_names_match_catalog(
    metas: Seq<TopicMeta>,
    names: Seq<String>,
    catalog: Seq<TopicData>,
)
    requires
        names.len() == metas.len(),
        forall|k: int| 0 <= k < metas.len() ==> (#[trigger] names[k])@ == metas[k].name@,
        catalog.len() == metas.len(),
        forall|k: int| 0 <= k < metas.len() ==> (#[trigger] catalog[k]).name@ == metas[k].name@,
    ensures
        names.len() == catalog.len(),
        forall|k: int| 0 <= k < names.len() ==> (#[trigger] names[k])@ == catalog[k].name@,
{
}

/// Decodes one message payload, delivered as raw bytes, into UTF-8 text.
/// Decoding is total on valid UTF-8; the caller must rule the rest out.
pub fn parse_message(message_bytes: &[u8]) -> (r: String)
    requires
        valid_utf8(message_bytes@),
    ensures
        r@ == decode_utf8(message_bytes@),
{
    utf8_to_string(message_bytes).unwrap()
}

/// An owned copy of a host list.
fn clone_strings(v: &Vec<String>) -> (r: Vec<String>)
    ensures
        r@ == v@,
{
    let mut r: Vec<String> = Vec::new();
    let mut i: usize = 0;
    while i < v.len()
        invariant
            i <= v@.len(),
            r@.len() == i,
            forall|k: int| 0 <= k < i ==> #[trigger] r@[k] == v@[k],
        decreases v@.len() - i,
    {
        r.push(v[i].clone());
        i += 1;
    }
    proof {
        assert(r@ =~= v@);
    }
    r
}

/// The fixed consumer-group name every session of this process shares, so
/// that repeated runs resume from the group's last committed offset.
pub open spec fn default_group_name() -> Seq<char> {
    "somegroup3"@
}

/// The fixed consumer-group name, as a value to hand to `create_consumer`.
pub fn default_group() -> (r: String)
    ensures
        r@ == default_group_name(),
{
    "somegroup3".to_owned()
}

/// The client of one broker cluster: it holds the resolved broker address
/// list and opens short-lived connections on demand, never holding a
/// persistent one across operations.
pub struct SimpleKafkaClient {
    pub hosts: Vec<String>,
}

impl SimpleKafkaClient {
    /// Opens a fresh cluster client over this client's host list.
    pub fn create(&self) -> (c: kafka::client::KafkaClient)
        ensures
            hosts_of(c) == self.hosts.deep_view(),
    {
        let hosts = clone_strings(&self.hosts);
        let c = client_new(hosts);
        assert(hosts_of(c) =~= self.hosts.deep_view());
        c
    }

    /// The host addresses this client talks to, as a fresh cluster client
    /// reports them back.
    pub fn list_brokers(&self) -> (r: Vec<String>)
        ensures
            r.deep_view() == self.hosts.deep_view(),
    {
        let client = self.create();
        client_hosts(&client)
    }

    /// Loads the cluster metadata once and lists the topic names: one name
    /// per reported topic, in the reported order, as `topic_names` states.
    /// Any transport-level failure is fatal to the whole call.
    pub fn list_topics(&self) -> (r: Result<Vec<String>, DashboardError>)
        ensures
            r matches Err(e) ==> e == DashboardError::MetadataFetchFailed,
    {
        let mut client = self.create();
        match load_metadata(&mut client) {
            Result::Err(_) => {
                return Err(DashboardError::MetadataFetchFailed);
            },
            Result::Ok(_) => {},
        }
        let metas = fetch_topics(&client);
        Ok(topic_names(&metas))
    }

    /// One latest-offset query for one topic, over a fresh client.
    fn get_offsets(&self, topic: &str) -> (r: Result<Vec<OffsetEntry>, DashboardError>)
        ensures
            r matches Err(e) ==> e == DashboardError::OffsetFetchFailed,
    {
        let mut client = self.create();
        match load_metadata(&mut client) {
            Result::Err(_) => {
                return Err(DashboardError::OffsetFetchFailed);
            },
            Result::Ok(_) => {},
        }
        match fetch_latest_offsets(&mut client, topic) {
            Result::Ok(v) => Ok(v),
            Result::Err(_) => Err(DashboardError::OffsetFetchFailed),
        }
    }

    /// One full metadata refresh: loads the cluster metadata once,
    /// enumerates the topics, and issues one latest-offset query per topic
    /// (not per partition); the catalog is then one entry per reported
    /// topic, in the reported order, as `assemble_catalog` states, with the
    /// offsets joined back onto the partitions by id as `partition_joined`
    /// states.  All-or-nothing: the whole catalog is returned, or an error
    /// and no catalog at all — a partial catalog is never observable.  No
    /// shared state is mutated.
    pub fn list_topic_details(&self) -> (r: Result<Vec<TopicData>, DashboardError>)
        ensures
            r matches Err(e) ==> e == DashboardError::MetadataFetchFailed || e
                == DashboardError::OffsetFetchFailed,
    {
        let mut client = self.create();
        match load_metadata(&mut client) {
            Result::Err(_) => {
                return Err(DashboardError::MetadataFetchFailed);
            },
            Result::Ok(_) => {},
        }
        let metas = fetch_topics(&client);
        let mut all_offsets: Vec<Vec<OffsetEntry>> = Vec::new();
        let mut i: usize = 0;
        while i < metas.len()
            invariant
                i <= metas@.len(),
                all_offsets@.len() == i,
            decreases metas@.len() - i,
        {
            match self.get_offsets(metas[i].name.as_str()) {
                Result::Ok(o) => all_offsets.push(o),
                Result::Err(e) => {
                    return Err(e);
                },
            }
            i += 1;
        }
        Ok(assemble_catalog(&metas, &all_offsets))
    }

    /// Opens a consumer-group session against `topic` for the group
    /// `group`.  Opening a session does not consume anything; consumption
    /// only occurs on an explicit `poll_once`.
    pub fn create_consumer(&self, topic: &str, group: &str) -> (r: Result<
        kafka::consumer::Consumer,
        DashboardError,
    >)
        ensures
            r matches Err(e) ==> e == DashboardError::SessionOpenFailed,
    {
        match open_consumer(clone_strings(&self.hosts), topic, group) {
            Result::Ok(c) => Ok(c),
            Result::Err(_) => Err(DashboardError::SessionOpenFailed),
        }
    }

    /// The operator's pull request: opens a session for `topic` under
    /// `group`, runs exactly one `poll_once` and one `commit_session`, and
    /// returns the decoded batch.  An empty batch is a normal result, not
    /// an error.
    pub fn pull_messages(&self, topic: &str, group: &str) -> (r: Result<
        Vec<String>,
        DashboardError,
    >)
        ensures
            r matches Err(e) ==> e == DashboardError::SessionOpenFailed || e
                == DashboardError::PollFailed || e == DashboardError::DecodeFailed || e
                == DashboardError::CommitFailed,
    {
        let mut consumer = match self.create_consumer(topic, group) {
            Result::Ok(c) => c,
            Result::Err(e) => {
                return Err(e);
            },
        };
        let msgs = match poll_once(&mut consumer) {
            Result::Ok(m) => m,
            Result::Err(e) => {
                return Err(e);
            },
        };
        match commit_session(&mut consumer) {
            Result::Ok(_) => Ok(msgs),
            Result::Err(e) => Err(e),
        }
    }
}

/// One poll of an open session: one network round trip fetching one finite
/// batch of available messages, every payload decoded as UTF-8 text in
/// delivery order, and the batch marked consumed.  A decode failure aborts
/// the call with an error rather than skipping the bad message.
pub fn poll_once(consumer: &mut kafka::consumer::Consumer) -> (r: Result<
    Vec<String>,
    DashboardError,
>)
    ensures
        r matches Err(e) ==> e == DashboardError::PollFailed || e == DashboardError::DecodeFailed,
{
    match poll_round(consumer) {
        Result::Err(_) => Err(DashboardError::PollFailed),
        Result::Ok(payloads) => decode_all(&payloads),
    }
}

/// Commits the batch returned by the most recent `poll_once` as consumed
/// for the session's group.  It is called after processing, not before, to
/// preserve at-least-once delivery: a crash between poll and commit leads
/// to redelivery, which is accepted.
pub fn commit_session(consumer: &mut kafka::consumer::Consumer) -> (r: Result<
    (),
    DashboardError,
>)
    ensures
        r matches Err(e) ==> e == DashboardError::CommitFailed,
{
    match commit_raw(consumer) {
        Result::Ok(_) => Ok(()),
        Result::Err(_) => Err(DashboardError::CommitFailed),
    }
}

/// Decodes a whole batch of payloads as UTF-8 text, in order.  One payload
/// that is not valid UTF-8 fails the whole batch — message integrity
/// matters more than availability here — and no message is ever silently
/// substituted or skipped.
pub fn decode_all(payloads: &Vec<Vec<u8>>) -> (r: Result<Vec<String>, DashboardError>)
    ensures
        r is Ok <==> (forall|k: int|
            0 <= k < payloads@.len() ==> valid_utf8((#[trigger] payloads@[k])@)),
        r matches Ok(msgs) ==> msgs@.len() == payloads@.len() && (forall|k: int|
            0 <= k < payloads@.len() ==> (#[trigger] msgs@[k])@ == decode_utf8(payloads@[k]@)),
        r matches Err(e) ==> e == DashboardError::DecodeFailed,
{
    let mut msgs: Vec<String> = Vec::new();
    let mut i: usize = 0;
    while i < payloads.len()
        invariant
            i <= payloads@.len(),
            msgs@.len() == i,
            forall|k: int| 0 <= k < i ==> valid_utf8((#[trigger] payloads@[k])@),
            forall|k: int| 0 <= k < i ==> (#[trigger] msgs@[k])@ == decode_utf8(payloads@[k]@),
        decreases payloads@.len() - i,
    {
        match utf8_to_string(payloads[i].as_slice()) {
            Option::Some(s) => msgs.push(s),
            Option::None => {
                assert(!valid_utf8(payloads@[i as int]@));
                return Err(DashboardError::DecodeFailed);
            },
        }
        i += 1;
    }
    Ok(msgs)
}

} // verus!
