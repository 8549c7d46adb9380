//! The metric exporter's compute half: mapping one validated `Reading`
//! into the fixed batch of four named metric samples, and turning the
//! collector's acknowledgment fields into the per-batch summary line.
//! Opening the connection and moving bytes is the transport's business
//! outside the library; a transport failure is a returned outcome, never
//! an escaping fault.

use vstd::prelude::*;
use vstd::string::*;

use crate::num::{dec_digits_of, dec_string};
use crate::reading::Reading;

verus! {

/// One outgoing metric sample: a key-value pair tagged with the logical
/// host identity under which the collector files it.
#[derive(Debug, Clone)]
pub struct MetricSample {
    pub host: String,
    pub key: String,
    pub value: String,
}

/// Whether `s` is the sample `host:key=value`.
pub open spec fn sample_is(s: MetricSample, host: Seq<char>, key: Seq<char>, value: Seq<char>) -> bool {
    &&& s.host@ == host
    &&& s.key@ == key
    &&& s.value@ == value
}

/// Builds the batch for one reading: exactly four samples, one per
/// physical quantity, each keyed by its fixed metric name, tagged with
/// the configured host identity, and valued with the quantity's decimal
/// textual representation.
pub fn build_samples(reading: &Reading, identity: &str) -> (samples: Vec<MetricSample>)
    requires
        reading.wf(),
    ensures
        samples@.len() == 4,
        sample_is(samples@[0], identity@, "bme680.temperature"@, reading.temperature_celsius.chars()),
        sample_is(samples@[1], identity@, "bme680.pressure"@, reading.pressure_hpa.chars()),
        sample_is(samples@[2], identity@, "bme680.humidity"@, reading.humidity_percent.chars()),
        sample_is(
            samples@[3],
            identity@,
            "bme680.gas-resistance"@,
            reading.gas_resistance_ohm.chars(),
        ),
{
    let mut samples: Vec<MetricSample> = Vec::new();
    samples.push(
        MetricSample {
            host: String::from_str(identity),
            key: String::from_str("bme680.temperature"),
            value: reading.temperature_celsius.render(),
        },
    );
    samples.push(
        MetricSample {
            host: String::from_str(identity),
            key: String::from_str("bme680.pressure"),
            value: reading.pressure_hpa.render(),
        },
    );
    samples.push(
        MetricSample {
            host: String::from_str(identity),
            key: String::from_str("bme680.humidity"),
            value: reading.humidity_percent.render(),
        },
    );
    samples.push(
        MetricSample {
            host: String::from_str(identity),
            key: String::from_str("bme680.gas-resistance"),
            value: reading.gas_resistance_ohm.render(),
        },
    );
    samples
}

/// The keys of a batch, in batch order.
pub open spec fn batch_keys(samples: Seq<MetricSample>) -> Seq<Seq<char>> {
    samples.map_values(|s: MetricSample| s.key@)
}

/// The batch built for any reading is set-exact and order-independent:
/// it holds exactly four samples, its keys are exactly the four fixed
/// metric names — each occurring once, in whatever order the batch is
/// read — and every sample is tagged with the configured host identity.
pub proof fn lemma_batch_set_exact(samples: Seq<MetricSample>, identity: Seq<char>, reading: Reading)
    requires
        samples.len() == 4,
        sample_is(samples[0], identity, "bme680.temperature"@, reading.temperature_celsius.chars()),
        sample_is(samples[1], identity, "bme680.pressure"@, reading.pressure_hpa.chars()),
        sample_is(samples[2], identity, "bme680.humidity"@, reading.humidity_percent.chars()),
        sample_is(samples[3], identity, "bme680.gas-resistance"@, reading.gas_resistance_ohm.chars()),
    ensures
        forall|i: int| 0 <= i < samples.len() ==> #[trigger] samples[i].host@ == identity,
        batch_keys(samples).to_multiset() == seq![
            "bme680.temperature"@,
            "bme680.pressure"@,
            "bme680.humidity"@,
            "bme680.gas-resistance"@,
        ].to_multiset(),
{
    assert(batch_keys(samples) =~= seq![
        "bme680.temperature"@,
        "bme680.pressure"@,
        "bme680.humidity"@,
        "bme680.gas-resistance"@,
    ]);
}

/// The collector's acknowledgment of one batch, as far as its reply
/// could be read: per-item counts and the server-side processing time
/// already rendered as its decimal text. Any field the reply did not
/// carry is absent.
#[derive(Debug, Clone)]
pub struct Acknowledgment {
    pub processed: Option<u64>,
    pub failed: Option<u64>,
    pub total: Option<u64>,
    pub seconds_spent: Option<String>,
}

/// How one export attempt ended. A transport failure (connection
/// refused, timeout, unreadable reply) is captured here and never
/// propagates as a fault: the batch is dropped, not retried.
#[derive(Debug, Clone)]
pub enum ExportOutcome {
    /// The collector acknowledged the batch.
    Delivered(Acknowledgment),
    /// The batch could not be delivered or acknowledged.
    TransportFailed,
}

/// The characters of the per-batch summary line for the given
/// acknowledgment fields.
pub open spec fn summary_chars(processed: int, failed: int, total: int, seconds: Seq<char>) -> Seq<
    char,
> {
    "processed: "@ + dec_digits_of(processed) + "; failed: "@ + dec_digits_of(failed) + "; total: "@
        + dec_digits_of(total) + "; seconds spent: "@ + seconds
}

/// Builds the summary log line of one acknowledged batch. The line
/// exists exactly when the acknowledgment carries all four fields; a
/// reply that lacks one yields no line, so the gap is surfaced to the
/// caller instead of being papered over.
pub fn summary_line(ack: &Acknowledgment) -> (r: Option<String>)
    ensures
        r is Some <==> (ack.processed is Some && ack.failed is Some && ack.total is Some
            && ack.seconds_spent is Some),
        (match r {
            Option::Some(line) => line@ == summary_chars(
                ack.processed->0 as int,
                ack.failed->0 as int,
                ack.total->0 as int,
                ack.seconds_spent->0@,
            ),
            Option::None => true,
        }),
{
    let processed: u64 = match &ack.processed {
        Option::Some(v) => *v,
        Option::None => {
            return None;
        },
    };
    let failed: u64 = match &ack.failed {
        Option::Some(v) => *v,
        Option::None => {
            return None;
        },
    };
    let total: u64 = match &ack.total {
        Option::Some(v) => *v,
        Option::None => {
            return None;
        },
    };
    let seconds: &String = match &ack.seconds_spent {
        Option::Some(v) => v,
        Option::None => {
            return None;
        },
    };
    let mut line = String::from_str("processed: ");
    let p = dec_string(processed);
    line.append(p.as_str());
    line.append("; failed: ");
    let f = dec_string(failed);
    line.append(f.as_str());
    line.append("; total: ");
    let t = dec_string(total);
    line.append(t.as_str());
    line.append("; seconds spent: ");
    line.append(seconds.as_str());
    proof {
        assert(line@ =~= summary_chars(
            ack.processed->0 as int,
            ack.failed->0 as int,
            ack.total->0 as int,
            ack.seconds_spent->0@,
        ));
    }
    Some(line)
}

} // verus!
