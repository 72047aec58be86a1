//! The Prometheus metrics endpoint: text exposition of the samples a
//! metrics provider exports, request routing by gRPC method path, and the
//! endpoint's reply.

use vstd::prelude::*;
use crate::text::str_starts_with;

verus! {

/// Kind of an exported metric.
#[derive(Debug, Clone, Copy, PartialEq, Eq, Structural)]
pub enum MetricKind {
    Counter,
    Gauge,
    Histogram,
}

/// One exported metric, its value already rendered as text.
#[derive(Debug, Clone)]
pub struct MetricSample {
    pub name: String,
    pub kind: MetricKind,
    pub labels: Vec<(String, String)>,
    pub value_text: String,
}

/// Mathematical model of a [`MetricSample`].
pub struct MetricSampleView {
    pub name: Seq<char>,
    pub kind: MetricKind,
    pub labels: Seq<(Seq<char>, Seq<char>)>,
    pub value_text: Seq<char>,
}

impl View for MetricSample {
    type V = MetricSampleView;

    open spec fn view(&self) -> MetricSampleView {
        MetricSampleView {
            name: self.name@,
            kind: self.kind,
            labels: self.labels.deep_view(),
            value_text: self.value_text@,
        }
    }
}

/// The `# TYPE` word of a kind; histograms are exported as gauges.
pub open spec fn kind_text(k: MetricKind) -> Seq<char> {
    match k {
        MetricKind::Counter => "counter"@,
        MetricKind::Gauge => "gauge"@,
        MetricKind::Histogram => "gauge"@,
    }
}

/// `key="value"`.
pub open spec fn label_text(l: (Seq<char>, Seq<char>)) -> Seq<char> {
    l.0 + "=\""@ + l.1 + "\""@
}

/// The labels, each as `key="value"`, separated by commas.
pub open spec fn joined_labels(ls: Seq<(Seq<char>, Seq<char>)>) -> Seq<char>
    decreases ls.len(),
{
    if ls.len() == 0 {
        Seq::empty()
    } else if ls.len() == 1 {
        label_text(ls[0])
    } else {
        joined_labels(ls.drop_last()) + ","@ + label_text(ls.last())
    }
}

/// The label block: nothing without labels, else `{...}`.
pub open spec fn label_block(ls: Seq<(Seq<char>, Seq<char>)>) -> Seq<char> {
    if ls.len() == 0 {
        Seq::empty()
    } else {
        "{"@ + joined_labels(ls) + "}"@
    }
}

/// The two exposition lines of one sample.
pub open spec fn sample_text(s: MetricSampleView) -> Seq<char> {
    "# TYPE "@ + s.name + " "@ + kind_text(s.kind) + "\n"@ + s.name + label_block(s.labels) + " "@
        + s.value_text + "\n"@
}

/// The exposition of all samples, in order.
pub open spec fn exposition_text(ss: Seq<MetricSampleView>) -> Seq<char>
    decreases ss.len(),
{
    if ss.len() == 0 {
        Seq::empty()
    } else {
        exposition_text(ss.drop_last()) + sample_text(ss.last())
    }
}

/// Model of a list of samples.
pub open spec fn samples_view(v: Seq<MetricSample>) -> Seq<MetricSampleView> {
    v.map_values(|s: MetricSample| s@)
}

fn kind_str(k: MetricKind) -> (r: &'static str)
    ensures
        r@ == kind_text(k),
{
    match k {
        MetricKind::Counter => "counter",
        MetricKind::Gauge => "gauge",
        MetricKind::Histogram => "gauge",
    }
}

fn render_labels(labels: &Vec<(String, String)>) -> (r: String)
    ensures
        r@ == label_block(labels.deep_view()),
{
    let n = labels.len();
    if n == 0 {
        return String::new();
    }
    let ghost ls = labels.deep_view();
    let mut out = String::new();
    let mut i: usize = 0;
    while i < n
        invariant
            n == labels@.len(),
            ls == labels.deep_view(),
            i <= n,
            out@ == joined_labels(ls.take(i as int)),
        decreases n - i,
    {
        let ghost t = ls.take(i as int + 1);
        assert(t.drop_last() =~= ls.take(i as int));
        assert(t.last() == ls[i as int]);
        if i > 0 {
            out.append(",");
        }
        let (k, v) = &labels[i];
        out.append(k.as_str());
        out.append("=\"");
        out.append(v.as_str());
        out.append("\"");
        assert(ls[i as int] == (k@, v@));
        if i == 0 {
            assert(t.len() == 1);
            assert(out@ =~= label_text(t[0]));
        } else {
            assert(out@ =~= joined_labels(ls.take(i as int)) + ","@ + label_text(t.last()));
        }
        i = i + 1;
    }
    assert(ls.take(n as int) =~= ls);
    let r = String::from_str("{").concat(out.as_str());
    r.concat("}")
}

/// Formats exported samples as Prometheus text exposition: for each, a
/// `# TYPE` line, then `name{labels} value`.
pub fn render_prometheus(samples: &Vec<MetricSample>) -> (r: String)
    ensures
        r@ == exposition_text(samples_view(samples@)),
{
    let ghost ss = samples_view(samples@);
    let n = samples.len();
    let mut out = String::new();
    let mut i: usize = 0;
    while i < n
        invariant
            n == samples@.len(),
            ss == samples_view(samples@),
            i <= n,
            out@ == exposition_text(ss.take(i as int)),
        decreases n - i,
    {
        let ghost t = ss.take(i as int + 1);
        assert(t.drop_last() =~= ss.take(i as int));
        assert(t.last() == samples@[i as int]@);
        let s = &samples[i];
        out.append("# TYPE ");
        out.append(s.name.as_str());
        out.append(" ");
        out.append(kind_str(s.kind));
        out.append("\n");
        out.append(s.name.as_str());
        let lb = render_labels(&s.labels);
        out.append(lb.as_str());
        out.append(" ");
        out.append(s.value_text.as_str());
        out.append("\n");
        assert(out@ =~= exposition_text(ss.take(i as int)) + sample_text(t.last()));
        i = i + 1;
    }
    assert(ss.take(n as int) =~= ss);
    out
}

/// Path prefix of the gRPC reflection service.
pub open spec fn reflection_prefix() -> Seq<char> {
    "/grpc.reflection."@
}

/// Whether a gRPC call for `method` goes to the reflection handler (its
/// path starts with `/grpc.reflection.`) rather than the primary one.
pub fn routes_to_reflection(method: &str) -> (r: bool)
    ensures
        r == (reflection_prefix().len() <= method@.len()
            && method@.subrange(0, reflection_prefix().len() as int) == reflection_prefix()),
{
    str_starts_with(method, "/grpc.reflection.")
}

/// Content type of the exposition.
pub open spec fn exposition_content_type() -> Seq<char> {
    "text/plain; version=0.0.4; charset=utf-8"@
}

/// Message of the refusal of any method but GET.
pub open spec fn get_only_text() -> Seq<char> {
    "metrics endpoint only accepts GET"@
}

/// The reply of the metrics endpoint.
#[derive(Debug, Clone)]
pub struct MetricsReply {
    pub status: u16,
    pub content_type: String,
    pub body: String,
}

/// The metrics endpoint answers GET with status 200, the exposition
/// content type and `body`; any other method is refused as invalid input.
pub fn metrics_reply(is_get: bool, body: String) -> (r: Result<MetricsReply, String>)
    ensures
        is_get ==> (r matches Ok(rep) && rep.status == 200 && rep.content_type@
            == exposition_content_type() && rep.body@ == body@),
        !is_get ==> (r matches Err(m) && m@ == get_only_text()),
{
    if !is_get {
        return Err(String::from_str("metrics endpoint only accepts GET"));
    }
    Ok(MetricsReply {
        status: 200,
        content_type: String::from_str("text/plain; version=0.0.4; charset=utf-8"),
        body,
    })
}

} // verus!
