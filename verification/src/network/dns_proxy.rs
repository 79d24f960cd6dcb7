//! A name server that answers only for names that a sandbox may look up, and one that has the
//! same answer for all names.

use crate::config::NetworkMode;
use crate::network::policy::{lets_through, NetworkPolicyEvaluator};
use crate::text::{shed_end, trim_end_matches};
use hickory_proto::error::ProtoError;
use hickory_proto::op::{Message, OpCode, Query, ResponseCode};
use hickory_proto::rr::rdata::A;
use hickory_proto::rr::{Name, RData, Record};
use vstd::prelude::*;

verus! {

/// The number of the answer that a name does not exist.
pub const NXDOMAIN: u8 = 3;

/// A question of a message: a name as a text and as its labels, and the type and class that is
/// asked for.
#[derive(Debug, Clone, PartialEq, Eq)]
pub struct DnsQuestion {
    pub name: String,
    pub labels: Vec<Vec<u8>>,
    pub kind: u16,
    pub class: u16,
}

/// A message that came in, as far as it matters here.
#[derive(Debug, Clone, PartialEq, Eq)]
pub struct DnsRequest {
    pub id: u16,
    pub questions: Vec<DnsQuestion>,
}

/// A record of a message: the address of a name, which is given as its labels, and for how many
/// seconds it may be kept.
#[derive(Debug, Clone, PartialEq, Eq)]
pub struct DnsRecord {
    pub labels: Vec<Vec<u8>>,
    pub address: u32,
    pub ttl: u32,
}

/// A response that goes out.
#[derive(Debug, Clone, PartialEq, Eq)]
pub struct DnsMessage {
    pub id: u16,
    pub op_code: u8,
    pub response_code: u8,
    pub questions: Vec<DnsQuestion>,
    pub records: Vec<DnsRecord>,
}

/// A question as a value.
#[verifier::ext_equal]
pub struct QuestionModel {
    pub name: Seq<char>,
    pub labels: Seq<Seq<u8>>,
    pub kind: u16,
    pub class: u16,
}

/// A message that came in, as a value.
#[verifier::ext_equal]
pub struct RequestModel {
    pub id: u16,
    pub questions: Seq<QuestionModel>,
}

/// A record as a value.
#[verifier::ext_equal]
pub struct RecordModel {
    pub labels: Seq<Seq<u8>>,
    pub address: u32,
    pub ttl: u32,
}

/// A response that goes out, as a value.
#[verifier::ext_equal]
pub struct MessageModel {
    pub id: u16,
    pub op_code: u8,
    pub response_code: u8,
    pub questions: Seq<QuestionModel>,
    pub records: Seq<RecordModel>,
}

pub open spec fn label_views(labels: Seq<Vec<u8>>) -> Seq<Seq<u8>> {
    Seq::new(labels.len(), |i: int| labels[i]@)
}

impl View for DnsQuestion {
    type V = QuestionModel;

    open spec fn view(&self) -> QuestionModel {
        QuestionModel {
            name: self.name@,
            labels: label_views(self.labels@),
            kind: self.kind,
            class: self.class,
        }
    }
}

pub open spec fn question_views(list: Seq<DnsQuestion>) -> Seq<QuestionModel> {
    Seq::new(list.len(), |i: int| list[i]@)
}

impl View for DnsRequest {
    type V = RequestModel;

    open spec fn view(&self) -> RequestModel {
        RequestModel { id: self.id, questions: question_views(self.questions@) }
    }
}

impl View for DnsRecord {
    type V = RecordModel;

    open spec fn view(&self) -> RecordModel {
        RecordModel { labels: label_views(self.labels@), address: self.address, ttl: self.ttl }
    }
}

pub open spec fn record_views(list: Seq<DnsRecord>) -> Seq<RecordModel> {
    Seq::new(list.len(), |i: int| list[i]@)
}

impl View for DnsMessage {
    type V = MessageModel;

    open spec fn view(&self) -> MessageModel {
        MessageModel {
            id: self.id,
            op_code: self.op_code,
            response_code: self.response_code,
            questions: question_views(self.questions@),
            records: record_views(self.records@),
        }
    }
}

/// An address that an answer holds.
#[derive(Debug, Clone, Copy, PartialEq, Eq, Structural)]
pub enum DnsAddress {
    V4(u32),
    V6(u128),
    Other,
}

/// An answer of a message: its data, and for how many seconds it may be kept.
#[derive(Debug, Clone, Copy, PartialEq, Eq, Structural)]
pub struct DnsAnswer {
    pub address: DnsAddress,
    pub ttl: u32,
}

/// An address of a host.
#[derive(Debug, Clone, Copy, PartialEq, Eq, Structural)]
pub enum HostIp {
    V4(u32),
    V6(u128),
}

/// An address that a lookup gave, and for how many seconds it holds.
#[derive(Debug, Clone, Copy, PartialEq, Eq, Structural)]
pub struct ResolvedIp {
    pub ip: HostIp,
    pub ttl_secs: u32,
}

/// A request, or the characters of an error.
pub open spec fn request_result(r: Result<DnsRequest, String>) -> Result<RequestModel, Seq<char>> {
    match r {
        Ok(m) => Ok(m@),
        Err(e) => Err(e@),
    }
}

/// Answers, or the characters of an error.
pub open spec fn answers_result(r: Result<Vec<DnsAnswer>, String>) -> Result<
    Seq<DnsAnswer>,
    Seq<char>,
> {
    match r {
        Ok(list) => Ok(list@),
        Err(e) => Err(e@),
    }
}

/// Bytes, or the characters of an error.
pub open spec fn bytes_result(r: Result<Vec<u8>, String>) -> Result<Seq<u8>, Seq<char>> {
    match r {
        Ok(b) => Ok(b@),
        Err(e) => Err(e@),
    }
}

/// The request that a packet holds.
pub uninterp spec fn dns_decoded(packet: Seq<u8>) -> Result<RequestModel, Seq<char>>;

/// The answers of the message that a packet holds.
pub uninterp spec fn dns_answers(packet: Seq<u8>) -> Result<Seq<DnsAnswer>, Seq<char>>;

/// The packet of a message.
pub uninterp spec fn dns_encoded(m: MessageModel) -> Result<Seq<u8>, Seq<char>>;

/// `hickory_proto::op::Message::from_vec` and `Message::queries`, with the identifier and the
/// questions as plain values. A packet that can be read has a header of twelve bytes, which
/// starts with the identifier.
#[verifier::external_body]
fn decode_message(packet: &[u8]) -> (r: Result<DnsRequest, String>)
    ensures
        request_result(r) == dns_decoded(packet@),
        r matches Ok(m) ==> packet@.len() >= 12 && m.id == packet@[0] * 256 + packet@[1],
{
    let m = Message::from_vec(packet).map_err(|e| e.to_string())?;
    let questions = m.queries().iter().map(|q| DnsQuestion {
        name: q.name().to_ascii(),
        labels: q.name().iter().map(|label| label.to_vec()).collect(),
        kind: q.query_type().into(),
        class: q.query_class().into(),
    }).collect();
    Ok(DnsRequest { id: m.id(), questions })
}

/// `hickory_proto::op::Message::from_vec` and `Message::answers`, with the data and the time to
/// live of each answer as plain values.
#[verifier::external_body]
fn decode_answers(packet: &[u8]) -> (r: Result<Vec<DnsAnswer>, String>)
    ensures
        answers_result(r) == dns_answers(packet@),
{
    let m = Message::from_vec(packet).map_err(|e| e.to_string())?;
    Ok(m.answers().iter().map(|a| DnsAnswer {
        ttl: a.ttl(),
        address: match a.data() {
            Some(RData::A(ip)) => DnsAddress::V4(u32::from(ip.0)),
            Some(RData::AAAA(ip)) => DnsAddress::V6(u128::from(ip.0)),
            _ => DnsAddress::Other,
        },
    }).collect())
}

/// The first four bytes of a packet: the identifier, that it is a response and to what kind of
/// request, and the response code.
pub open spec fn header_start(m: MessageModel) -> Seq<u8> {
    seq![
        (m.id / 256) as u8,
        (m.id % 256) as u8,
        (128 + m.op_code * 8) as u8,
        m.response_code,
    ]
}

/// `hickory_proto::op::Message::to_vec` on what `Message::error_msg` makes of the identifier and
/// the two codes: a response, to which these questions and these records of addresses in the
/// internet class are added, whose labels make their names. A packet without records starts with
/// the identifier, the response bit with the operation code, and the response code, all other
/// flags being clear.
#[verifier::external_body]
fn encode_message(m: &DnsMessage) -> (r: Result<Vec<u8>, String>)
    requires
        m.op_code < 16,
        m.response_code < 16,
    ensures
        bytes_result(r) == dns_encoded(m@),
        r matches Ok(b) ==> (m.records@.len() == 0 ==> b@.len() >= 12 && b@.subrange(0, 4)
            == header_start(m@)),
{
    let text = |e: ProtoError| e.to_string();
    let op_code = OpCode::from_u8(m.op_code).map_err(text)?;
    let mut out = Message::error_msg(m.id, op_code, ResponseCode::from(0, m.response_code));
    for q in &m.questions {
        let name = Name::from_labels(q.labels.clone()).map_err(text)?;
        out.add_query(Query::query(name, q.kind.into()).set_query_class(q.class.into()).clone());
    }
    for a in &m.records {
        let name = Name::from_labels(a.labels.clone()).map_err(text)?;
        out.add_answer(Record::from_rdata(name, a.ttl, RData::A(A(a.address.into()))));
    }
    out.to_vec().map_err(text)
}

/// The answer to a request for a name that may not be looked up: the name does not exist.
pub open spec fn denial(request: RequestModel) -> MessageModel {
    MessageModel {
        id: request.id,
        op_code: 0,
        response_code: NXDOMAIN,
        questions: request.questions,
        records: Seq::empty(),
    }
}

fn copy_labels(list: &Vec<Vec<u8>>) -> (r: Vec<Vec<u8>>)
    ensures
        label_views(r@) == label_views(list@),
{
    let ghost all = label_views(list@);
    let mut labels: Vec<Vec<u8>> = Vec::new();
    let mut i: usize = 0;
    while i < list.len()
        invariant
            i <= list.len(),
            all == label_views(list@),
            label_views(labels@) == all.take(i as int),
        decreases list.len() - i,
    {
        let label = vstd::slice::slice_to_vec(list[i].as_slice());
        let ghost before = labels@;
        labels.push(label);
        assert(label_views(labels@) =~= label_views(before).push(label@));
        assert(all.take(i + 1) =~= all.take(i as int).push(all[i as int]));
        i = i + 1;
    }
    assert(all.take(all.len() as int) =~= all);
    labels
}

fn copy_question(q: &DnsQuestion) -> (r: DnsQuestion)
    ensures
        r@ == q@,
{
    DnsQuestion {
        name: q.name.clone(),
        labels: copy_labels(&q.labels),
        kind: q.kind,
        class: q.class,
    }
}

fn copy_questions(list: &Vec<DnsQuestion>) -> (r: Vec<DnsQuestion>)
    ensures
        question_views(r@) == question_views(list@),
{
    let ghost all = question_views(list@);
    let mut questions: Vec<DnsQuestion> = Vec::new();
    let mut i: usize = 0;
    while i < list.len()
        invariant
            i <= list.len(),
            all == question_views(list@),
            question_views(questions@) == all.take(i as int),
        decreases list.len() - i,
    {
        let copy = copy_question(&list[i]);
        let ghost before = questions@;
        questions.push(copy);
        assert(question_views(questions@) =~= question_views(before).push(copy@));
        assert(all.take(i + 1) =~= all.take(i as int).push(all[i as int]));
        i = i + 1;
    }
    assert(all.take(all.len() as int) =~= all);
    questions
}

pub fn denied_response(request: &DnsRequest) -> (r: DnsMessage)
    ensures
        r@ == denial(request@),
{
    let records: Vec<DnsRecord> = Vec::new();
    assert(record_views(records@) =~= Seq::<RecordModel>::empty());
    DnsMessage {
        id: request.id,
        op_code: 0,
        response_code: NXDOMAIN,
        questions: copy_questions(&request.questions),
        records,
    }
}

/// The number of the type of a question for an address of four bytes.
pub const KIND_A: u16 = 1;

/// The address that every name has for the server with one answer: 203.0.113.10.
pub const FIXED_ADDRESS: u32 = 0xcb00_710a;

/// For how many seconds that answer may be kept.
pub const FIXED_TTL: u32 = 60;

/// The records of the server with one answer: one for each question for an address, in their
/// order.
pub open spec fn fixed_records(questions: Seq<QuestionModel>) -> Seq<RecordModel>
    decreases questions.len(),
{
    if questions.len() == 0 {
        Seq::<RecordModel>::empty()
    } else {
        let init = fixed_records(questions.drop_last());
        let q = questions.last();
        if q.kind == KIND_A {
            init.push(RecordModel { labels: q.labels, address: FIXED_ADDRESS, ttl: FIXED_TTL })
        } else {
            init
        }
    }
}

/// The message of the server with one answer.
pub open spec fn acceptance(request: RequestModel) -> MessageModel {
    MessageModel {
        id: request.id,
        op_code: 0,
        response_code: 0,
        questions: request.questions,
        records: fixed_records(request.questions),
    }
}

pub fn accepted_response(request: &DnsRequest) -> (r: DnsMessage)
    ensures
        r@ == acceptance(request@),
{
    let ghost all = request@.questions;
    let mut records: Vec<DnsRecord> = Vec::new();
    let mut i: usize = 0;
    assert(record_views(records@) =~= fixed_records(all.take(0)));
    while i < request.questions.len()
        invariant
            i <= request.questions.len(),
            all == request@.questions,
            record_views(records@) == fixed_records(all.take(i as int)),
        decreases request.questions.len() - i,
    {
        let q = &request.questions[i];
        assert(all.take(i + 1).drop_last() =~= all.take(i as int));
        assert(all.take(i + 1).last() == q@);
        if q.kind == KIND_A {
            let record = DnsRecord {
                labels: copy_labels(&q.labels),
                address: FIXED_ADDRESS,
                ttl: FIXED_TTL,
            };
            let ghost before = records@;
            records.push(record);
            assert(record_views(records@) =~= record_views(before).push(record@));
        }
        i = i + 1;
    }
    assert(all.take(all.len() as int) =~= all);
    DnsMessage {
        id: request.id,
        op_code: 0,
        response_code: 0,
        questions: copy_questions(&request.questions),
        records,
    }
}

/// What the server with one answer sends back for a packet. One that cannot be read is an error.
pub fn fixed_answer(packet: &[u8]) -> (r: Result<Vec<u8>, String>)
    ensures
        match dns_decoded(packet@) {
            Err(m) => r matches Err(e) && e@ == m,
            Ok(request) => bytes_result(r) == dns_encoded(acceptance(request)),
        },
{
    match decode_message(packet) {
        Ok(request) => encode_message(&accepted_response(&request)),
        Err(e) => Err(e),
    }
}

/// The name that a request is about: that of its first question, without the dots at its end;
/// empty where there is no question.
pub open spec fn asked_name(request: RequestModel) -> Seq<char> {
    if request.questions.len() == 0 {
        Seq::<char>::empty()
    } else {
        shed_end(request.questions[0].name, '.')
    }
}

fn name_of(request: &DnsRequest) -> (r: String)
    ensures
        r@ == asked_name(request@),
{
    if request.questions.len() == 0 {
        return String::new();
    }
    assert(request@.questions[0].name == request.questions@[0].name@);
    trim_end_matches(request.questions[0].name.as_str(), '.')
}

/// The addresses among answers, in their order.
pub open spec fn addresses(answers: Seq<DnsAnswer>) -> Seq<ResolvedIp>
    decreases answers.len(),
{
    if answers.len() == 0 {
        Seq::<ResolvedIp>::empty()
    } else {
        let init = addresses(answers.drop_last());
        let a = answers.last();
        match a.address {
            DnsAddress::V4(ip) => init.push(ResolvedIp { ip: HostIp::V4(ip), ttl_secs: a.ttl }),
            DnsAddress::V6(ip) => init.push(ResolvedIp { ip: HostIp::V6(ip), ttl_secs: a.ttl }),
            DnsAddress::Other => init,
        }
    }
}

pub fn resolved_addresses(answers: &Vec<DnsAnswer>) -> (r: Vec<ResolvedIp>)
    ensures
        r@ == addresses(answers@),
{
    let mut out: Vec<ResolvedIp> = Vec::new();
    let mut i: usize = 0;
    while i < answers.len()
        invariant
            i <= answers.len(),
            out@ == addresses(answers@.take(i as int)),
        decreases answers.len() - i,
    {
        assert(answers@.take(i + 1).drop_last() =~= answers@.take(i as int));
        let a = answers[i];
        match a.address {
            DnsAddress::V4(ip) => out.push(ResolvedIp { ip: HostIp::V4(ip), ttl_secs: a.ttl }),
            DnsAddress::V6(ip) => out.push(ResolvedIp { ip: HostIp::V6(ip), ttl_secs: a.ttl }),
            DnsAddress::Other => {},
        }
        i = i + 1;
    }
    assert(answers@.take(answers@.len() as int) =~= answers@);
    out
}

/// What becomes of a packet.
#[derive(Debug, Clone, PartialEq, Eq)]
pub enum QueryVerdict {
    /// It is answered with this packet.
    Answer(Vec<u8>),
    /// It goes to the name server above.
    Forward,
}

/// What becomes of a request, before any packet is made of it.
#[derive(Debug, Clone, PartialEq, Eq)]
pub enum RequestVerdict {
    /// It is answered with this message.
    Deny(DnsMessage),
    /// It goes to the name server above.
    Forward,
}

#[derive(Debug)]
pub struct DnsAllowlistProxy {
    pub mode: NetworkMode,
    pub upstream: String,
}

impl DnsAllowlistProxy {
    pub fn new(mode: NetworkMode, upstream: String) -> (r: Self)
        ensures
            r.mode == mode,
            r.upstream == upstream,
    {
        DnsAllowlistProxy { mode, upstream }
    }

    /// What becomes of a request: it is forwarded exactly where its name may be looked up,
    /// and denied otherwise.
    pub fn judge(&self, request: &DnsRequest) -> (r: RequestVerdict)
        ensures
            lets_through(self.mode@, asked_name(request@)) ==> r is Forward,
            !lets_through(self.mode@, asked_name(request@)) ==> (r matches RequestVerdict::Deny(m)
                && m@ == denial(request@)),
    {
        let domain = name_of(request);
        let evaluator = NetworkPolicyEvaluator::new(&self.mode);
        if evaluator.allows_domain(&self.mode, domain.as_str()) {
            RequestVerdict::Forward
        } else {
            RequestVerdict::Deny(denied_response(request))
        }
    }

    /// What becomes of a packet. One that cannot be read is an error; one about a name that
    /// may not be looked up is answered at once, under its own identifier, that the name does
    /// not exist; any other one is forwarded.
    pub fn handle_query(&self, packet: &[u8]) -> (r: Result<QueryVerdict, String>)
        ensures
            match dns_decoded(packet@) {
                Err(m) => r matches Err(e) && e@ == m,
                Ok(request) => if lets_through(self.mode@, asked_name(request)) {
                    r == Ok::<QueryVerdict, String>(QueryVerdict::Forward)
                } else {
                    match dns_encoded(denial(request)) {
                        Err(m) => r matches Err(e) && e@ == m,
                        Ok(bytes) => r matches Ok(QueryVerdict::Answer(b)) && b@ == bytes,
                    }
                },
            },
            r matches Ok(QueryVerdict::Answer(b)) ==> {
                &&& b@.len() >= 12
                &&& b@[0] == packet@[0]
                &&& b@[1] == packet@[1]
                &&& b@[2] == 128
                &&& b@[3] == NXDOMAIN
            },
    {
        let request = match decode_message(packet) {
            Ok(m) => m,
            Err(e) => {
                return Err(e);
            },
        };
        match self.judge(&request) {
            RequestVerdict::Forward => Ok(QueryVerdict::Forward),
            RequestVerdict::Deny(reply) => match encode_message(&reply) {
                Ok(bytes) => {
                    proof {
                        let h = header_start(reply@);
                        assert(reply@.records.len() == reply.records@.len());
                        assert(bytes@.subrange(0, 4) == h);
                        assert(bytes@[0] == h[0] && bytes@[1] == h[1] && bytes@[2] == h[2]
                            && bytes@[3] == h[3]);
                        let a: int = packet@[0] as int;
                        let b: int = packet@[1] as int;
                        assert(request.id as int == a * 256 + b);
                        assert((a * 256 + b) / 256 == a && (a * 256 + b) % 256 == b);
                    }
                    Ok(QueryVerdict::Answer(bytes))
                },
                Err(e) => Err(e),
            },
        }
    }

    /// What a packet of the name server above comes to: it is handed on as it is, with the
    /// addresses that it holds.
    pub fn handle_upstream(&self, response: Vec<u8>) -> (r: Result<
        (Vec<u8>, Vec<ResolvedIp>),
        String,
    >)
        ensures
            match dns_answers(response@) {
                Err(m) => r matches Err(e) && e@ == m,
                Ok(answers) => r matches Ok(p) && p.0 == response && p.1@ == addresses(answers),
            },
    {
        match decode_answers(response.as_slice()) {
            Ok(answers) => {
                let resolved = resolved_addresses(&answers);
                Ok((response, resolved))
            },
            Err(e) => Err(e),
        }
    }
}

/// A request is never answered with anything but that the name does not exist, and under the
/// questions and the identifier that it came with.
pub proof fn denials_echo_the_request(request: RequestModel)
    ensures
        denial(request).id == request.id,
        denial(request).questions == request.questions,
        denial(request).response_code == NXDOMAIN,
        denial(request).response_code == 3,
        denial(request).records.len() == 0,
{
}

/// A name is the same with and without dots at its end, and only the first question counts.
pub proof fn trailing_dots_do_not_count(
    id: u16,
    question: QuestionModel,
    dotted: QuestionModel,
    more: Seq<QuestionModel>,
)
    requires
        dotted.name == question.name.push('.'),
    ensures
        asked_name(RequestModel { id, questions: seq![dotted] + more }) == asked_name(
            RequestModel { id, questions: seq![question] },
        ),
        question.name.len() > 0 && question.name.last() != '.' ==> asked_name(
            RequestModel { id, questions: seq![question] + more },
        ) == question.name,
{
    assert((seq![dotted] + more)[0] == dotted);
    assert((seq![question] + more)[0] == question);
    assert(dotted.name.drop_last() =~= question.name);
}

/// The addresses of an answer are those of its records that are addresses, each with its own time,
/// and in their order.
pub proof fn answers_give_their_addresses(answers: Seq<DnsAnswer>, more: DnsAnswer)
    ensures
        ({
            let before = addresses(answers);
            let after = addresses(answers.push(more));
            match more.address {
                DnsAddress::V4(ip) => after.drop_last() == before && after.last().ip == HostIp::V4(ip)
                    && after.last().ttl_secs == more.ttl && after.len() == before.len() + 1,
                DnsAddress::V6(ip) => after.drop_last() == before && after.last().ip == HostIp::V6(ip)
                    && after.last().ttl_secs == more.ttl && after.len() == before.len() + 1,
                DnsAddress::Other => after == before,
            }
        }),
{
    assert(answers.push(more).drop_last() =~= answers);
    assert(addresses(answers.push(more)).drop_last() =~= addresses(answers) || more.address
        is Other);
}

/// The server with one answer gives its address for every question for one, under the name that
/// was asked for, and none for other questions.
pub proof fn every_question_for_an_address_is_answered(request: RequestModel, more: QuestionModel)
    ensures
        ({
            let before = fixed_records(request.questions);
            let after = fixed_records(request.questions.push(more));
            if more.kind == 1 {
                &&& after.len() == before.len() + 1
                &&& after.drop_last() == before
                &&& after.last().labels == more.labels
                &&& after.last().address == 203 * 0x100_0000 + 113 * 0x100 + 10
                &&& after.last().ttl == 60
            } else {
                after == before
            }
        }),
        acceptance(request).id == request.id,
        acceptance(request).questions == request.questions,
        acceptance(request).response_code == 0,
        acceptance(request).records == fixed_records(request.questions),
        denial(request).response_code == 3,
        denial(request).records.len() == 0,
{
    let all = request.questions.push(more);
    assert(all.drop_last() =~= request.questions);
    if more.kind == 1 {
        assert(fixed_records(all).drop_last() =~= fixed_records(request.questions));
    }
}

} // verus!
