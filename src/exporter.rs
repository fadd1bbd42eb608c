use crate::response::{
    answers, encoded_body, respond, EncodingFailure, MetricsResponse,
};
use prometheus::Encoder;
use vstd::prelude::*;

verus! {

#[verifier::external_type_specification]
#[verifier::external_body]
pub struct ExRegistry(prometheus::Registry);

#[verifier::external_type_specification]
#[verifier::external_body]
pub struct ExMetricFamily(prometheus::proto::MetricFamily);

#[verifier::external_type_specification]
#[verifier::external_body]
pub struct ExPrometheusError(prometheus::Error);

/// Relies on prometheus::Registry::gather: a snapshot of the registry's
/// families at the time of the call. What it holds depends on the registry's
/// state, so nothing is promised of it.
pub assume_specification[ prometheus::Registry::gather ](
    registry: &prometheus::Registry,
) -> Vec<prometheus::proto::MetricFamily>;

/// The identifier of the text exposition format.
pub open spec fn text_format() -> Seq<char> {
    "text/plain; version=0.0.4"@
}

/// Relies on prometheus's TextEncoder::format_type, which returns the constant
/// TEXT_FORMAT.
#[verifier::external_body]
fn encoder_format_type() -> (r: String)
    ensures
        r@ == text_format(),
{
    prometheus::TextEncoder::new().format_type().to_owned()
}

/// What the text encoder produces for a snapshot: the bytes it writes, or
/// `None` when it rejects the snapshot.
pub uninterp spec fn text_encoding(families: Seq<prometheus::proto::MetricFamily>) -> Option<Seq<u8>>;

/// Whether a family is of the untyped kind.
pub uninterp spec fn is_untyped(family: prometheus::proto::MetricFamily) -> bool;

/// How many metrics (label combinations) a family holds.
pub uninterp spec fn metric_count(family: prometheus::proto::MetricFamily) -> nat;

/// A family the text encoder can take without aborting: the encoder has no
/// line shape for samples of the untyped kind.
pub open spec fn writable(family: prometheus::proto::MetricFamily) -> bool {
    !(is_untyped(family) && metric_count(family) > 0)
}

pub open spec fn all_writable(families: Seq<prometheus::proto::MetricFamily>) -> bool {
    forall|i: int| 0 <= i < families.len() ==> writable(#[trigger] families[i])
}

/// The outcome of encoding a snapshot: the text encoding of a snapshot whose
/// families are all writable, a failure otherwise.
pub open spec fn snapshot_encoding(families: Seq<prometheus::proto::MetricFamily>) -> Option<Seq<u8>> {
    if all_writable(families) {
        text_encoding(families)
    } else {
        None
    }
}

/// Relies on prometheus's MetricFamily::get_field_type, to tell the untyped
/// kind apart from the others.
#[verifier::external_body]
fn family_is_untyped(family: &prometheus::proto::MetricFamily) -> (r: bool)
    ensures
        r == is_untyped(*family),
{
    match family.get_field_type() {
        prometheus::proto::MetricType::COUNTER => false,
        prometheus::proto::MetricType::GAUGE => false,
        prometheus::proto::MetricType::SUMMARY => false,
        prometheus::proto::MetricType::UNTYPED => true,
        prometheus::proto::MetricType::HISTOGRAM => false,
    }
}

/// Relies on prometheus's MetricFamily::get_metric, for the number of metrics.
#[verifier::external_body]
fn family_metric_count(family: &prometheus::proto::MetricFamily) -> (r: usize)
    ensures
        r as nat == metric_count(*family),
{
    family.get_metric().len()
}

/// Relies on prometheus's TextEncoder::encode into a fresh `Vec`: its output
/// depends on the families alone, and with no family it writes nothing and
/// succeeds. It aborts on an untyped family with metrics, which `requires`
/// leaves out.
#[verifier::external_body]
fn encode_text(
    families: &Vec<prometheus::proto::MetricFamily>,
) -> (r: Result<Vec<u8>, prometheus::Error>)
    requires
        all_writable(families@),
    ensures
        r is Ok <==> text_encoding(families@) is Some,
        r matches Ok(bytes) ==> text_encoding(families@) == Some(bytes@),
        families@.len() == 0 ==> r is Ok,
        families@.len() == 0 ==> r->Ok_0@.len() == 0,
{
    let mut buffer = Vec::new();
    prometheus::TextEncoder::new().encode(families, &mut buffer).map(|()| buffer)
}

/// Relies on the `Display` of prometheus::Error, for the failure's detail.
#[verifier::external_body]
fn error_detail(error: &prometheus::Error) -> String {
    error.to_string()
}

/// Encodes a gathered snapshot in the text exposition format. A snapshot
/// holding an untyped family with metrics is refused before the encoder sees
/// it. An empty snapshot encodes to no bytes.
pub fn encode_snapshot(
    families: &Vec<prometheus::proto::MetricFamily>,
) -> (r: Result<Vec<u8>, EncodingFailure>)
    ensures
        encoded_body(r) == snapshot_encoding(families@),
        families@.len() == 0 ==> (r matches Ok(bytes) && bytes@.len() == 0),
{
    let mut i: usize = 0;
    while i < families.len()
        invariant
            i <= families@.len(),
            forall|j: int| 0 <= j < i ==> writable(#[trigger] families@[j]),
        decreases families@.len() - i,
    {
        if family_is_untyped(&families[i]) && family_metric_count(&families[i]) > 0 {
            assert(!writable(families@[i as int]));
            return Err(EncodingFailure { detail: "untyped metric family has samples".to_string() });
        }
        i = i + 1;
    }
    match encode_text(families) {
        Ok(bytes) => Ok(bytes),
        Err(error) => Err(EncodingFailure { detail: error_detail(&error) }),
    }
}

/// Answers a scrape of a gathered snapshot: its text encoding with status 200
/// and the encoder's own format identifier as content type, or status 500
/// with no body when the snapshot cannot be encoded. An empty snapshot is
/// answered with status 200 and an empty body.
pub fn render(families: &Vec<prometheus::proto::MetricFamily>) -> (r: MetricsResponse)
    ensures
        answers(r, snapshot_encoding(families@), text_format()),
        families@.len() == 0 ==> answers(r, Some(Seq::empty()), text_format()),
{
    let encoded = encode_snapshot(families);
    let format = encoder_format_type();
    let r = respond(encoded, format);
    proof {
        if families@.len() == 0 {
            assert(r.body@ =~= Seq::<u8>::empty());
        }
    }
    r
}

/// Answers one scrape of `registry`: gathers a fresh snapshot, with no cache
/// between scrapes, and renders it. The response is the answer to the
/// encoding of the snapshot that was gathered.
pub fn scrape(registry: &prometheus::Registry) -> (r: MetricsResponse)
    ensures
        exists|families: Seq<prometheus::proto::MetricFamily>|
            answers(r, #[trigger] snapshot_encoding(families), text_format()),
{
    let families = registry.gather();
    let r = render(&families);
    assert(answers(r, snapshot_encoding(families@), text_format()));
    r
}

} // verus!
