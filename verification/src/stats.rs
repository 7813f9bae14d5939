//! Per-request aggregation over the pollutant readings of a record set.
//!
//! Each statistic reads one text field per record, parses every reading as a
//! non-negative 32-bit integer, and reduces the parsed values. Field
//! selection is deliberately asymmetric, mirroring the service's observed
//! behaviour: the average and the minimum read `pollutant_avg`, while the
//! maximum reads `pollutant_max` (the minimum does *not* read
//! `pollutant_min`). A single unparsable reading aborts the whole
//! aggregation — no value is skipped and no partial result is returned —
//! and an empty record set is an error, never a silent zero.

use vstd::arithmetic::div_mod::{lemma_div_is_ordered, lemma_div_multiples_vanish};
use vstd::prelude::*;

use crate::model::JsonRecord;
use crate::numtext::{numeral_value, parse_u32, parses_as_u32};

verus! {

/// The statistic a request asks for.
#[derive(Debug, Clone, Copy, PartialEq, Eq)]
pub enum AggOp {
    Average,
    Maximum,
    Minimum,
}

/// Why an aggregation produced no value.
#[derive(Debug, Clone, Copy, PartialEq, Eq)]
pub enum AggregateError {
    /// Some selected reading is not a well-formed non-negative `u32` numeral.
    Parse,
    /// There are no records to aggregate over.
    EmptyInput,
}

/// The text field a statistic reads from one record: `pollutant_max` for the
/// maximum, `pollutant_avg` for the average and the minimum.
pub open spec fn selected_text(r: JsonRecord, op: AggOp) -> Seq<char> {
    match op {
        AggOp::Maximum => r.pollutant_max@,
        _ => r.pollutant_avg@,
    }
}

/// Every record's selected reading is a well-formed `u32` numeral.
pub open spec fn all_selected_parse(rs: Seq<JsonRecord>, op: AggOp) -> bool {
    forall|i: int| 0 <= i < rs.len() ==> parses_as_u32(selected_text(#[trigger] rs[i], op))
}

/// The parsed readings, one per record, in record order.
pub open spec fn selected_values(rs: Seq<JsonRecord>, op: AggOp) -> Seq<u32> {
    rs.map_values(|r: JsonRecord| (numeral_value(selected_text(r, op)) as u32))
}

/// Sum of a sequence of readings.
pub open spec fn sum_of(vs: Seq<u32>) -> int
    decreases vs.len(),
{
    if vs.len() == 0 {
        0
    } else {
        sum_of(vs.drop_last()) + vs.last()
    }
}

/// Largest reading of a non-empty sequence.
pub open spec fn max_of(vs: Seq<u32>) -> int
    recommends
        vs.len() >= 1,
    decreases vs.len(),
{
    if vs.len() <= 1 {
        if vs.len() == 1 {
            vs[0] as int
        } else {
            0
        }
    } else {
        let m = max_of(vs.drop_last());
        if vs.last() as int > m {
            vs.last() as int
        } else {
            m
        }
    }
}

/// Smallest reading of a non-empty sequence.
pub open spec fn min_of(vs: Seq<u32>) -> int
    recommends
        vs.len() >= 1,
    decreases vs.len(),
{
    if vs.len() <= 1 {
        if vs.len() == 1 {
            vs[0] as int
        } else {
            0
        }
    } else {
        let m = min_of(vs.drop_last());
        if (vs.last() as int) < m {
            vs.last() as int
        } else {
            m
        }
    }
}

/// The outcome an aggregation request is required to produce: an error on an
/// empty record set or on any unparsable selected reading, and otherwise the
/// requested reduction of the parsed readings (the average uses floor
/// division).
pub open spec fn spec_aggregate(rs: Seq<JsonRecord>, op: AggOp) -> Result<u32, AggregateError> {
    if rs.len() == 0 {
        Err(AggregateError::EmptyInput)
    } else if !all_selected_parse(rs, op) {
        Err(AggregateError::Parse)
    } else {
        let vs = selected_values(rs, op);
        match op {
            AggOp::Average => Ok(((sum_of(vs) / (vs.len() as int)) as u32)),
            AggOp::Maximum => Ok((max_of(vs) as u32)),
            AggOp::Minimum => Ok((min_of(vs) as u32)),
        }
    }
}

/// Parse the selected reading of every record, in record order.
///
/// Fails with [`AggregateError::Parse`] exactly when some record's selected
/// reading is not a well-formed `u32` numeral.
pub fn parse_selected(records: &Vec<JsonRecord>, op: AggOp) -> (r: Result<
    Vec<u32>,
    AggregateError,
>)
    ensures
        r is Ok <==> all_selected_parse(records@, op),
        r matches Ok(vs) ==> vs@ == selected_values(records@, op),
        r matches Err(e) ==> e == AggregateError::Parse,
{
    let n = records.len();
    let mut vs: Vec<u32> = Vec::new();
    let mut i: usize = 0;
    while i < n
        invariant
            i <= n,
            n == records@.len(),
            forall|j: int| 0 <= j < i ==> parses_as_u32(selected_text(#[trigger] records@[j], op)),
            vs@ == selected_values(records@.take(i as int), op),
        decreases n - i,
    {
        let rec = &records[i];
        let text: &String = match op {
            AggOp::Maximum => &rec.pollutant_max,
            _ => &rec.pollutant_avg,
        };
        proof {
            assert(text@ == selected_text(records@[i as int], op));
        }
        match parse_u32(text.as_str()) {
            Some(v) => {
                vs.push(v);
                proof {
                    assert(selected_values(records@.take(i + 1), op) =~= selected_values(
                        records@.take(i as int),
                        op,
                    ).push((numeral_value(selected_text(records@[i as int], op)) as u32)));
                }
            },
            None => {
                return Err(AggregateError::Parse);
            },
        }
        i = i + 1;
    }
    proof {
        assert(records@.take(n as int) =~= records@);
    }
    Ok(vs)
}

/// Floor of the mean of a non-empty sequence of readings.
fn average_of(vs: &Vec<u32>) -> (r: u32)
    requires
        vs@.len() >= 1,
    ensures
        r == sum_of(vs@) / (vs@.len() as int),
{
    let n = vs.len();
    let mut total: u128 = 0;
    let mut i: usize = 0;
    while i < n
        invariant
            i <= n,
            n == vs@.len(),
            total == sum_of(vs@.take(i as int)),
            total <= (i as int) * 0xFFFF_FFFF,
        decreases n - i,
    {
        let v = vs[i];
        proof {
            assert(vs@.take(i + 1).drop_last() =~= vs@.take(i as int));
            let x = i as int;
            assert(x * 0xFFFF_FFFF + 0xFFFF_FFFF == (x + 1) * 0xFFFF_FFFF) by (nonlinear_arith);
            assert(x * 0xFFFF_FFFF <= 0xFFFF_FFFF_FFFF_FFFF * 0xFFFF_FFFF) by (nonlinear_arith)
                requires
                    0 <= x <= 0xFFFF_FFFF_FFFF_FFFF,
            ;
        }
        total = total + (v as u128);
        i = i + 1;
    }
    proof {
        assert(vs@.take(n as int) =~= vs@);
        let s = total as int;
        let len = n as int;
        assert(s <= len * 0xFFFF_FFFF);
        lemma_div_is_ordered(s, len * 0xFFFF_FFFF, len);
        lemma_div_multiples_vanish(0xFFFF_FFFF, len);
        assert((len * 0xFFFF_FFFF) / len == 0xFFFF_FFFF);
    }
    let avg: u128 = total / (n as u128);
    avg as u32
}

/// Largest reading of a non-empty sequence.
fn maximum_of(vs: &Vec<u32>) -> (r: u32)
    requires
        vs@.len() >= 1,
    ensures
        r == max_of(vs@),
{
    let mut best: u32 = vs[0];
    let mut i: usize = 1;
    while i < vs.len()
        invariant
            1 <= i <= vs@.len(),
            best == max_of(vs@.take(i as int)),
        decreases vs@.len() - i,
    {
        let v = vs[i];
        proof {
            assert(vs@.take(i + 1).drop_last() =~= vs@.take(i as int));
        }
        if v > best {
            best = v;
        }
        i = i + 1;
    }
    proof {
        assert(vs@.take(vs@.len() as int) =~= vs@);
    }
    best
}

/// Smallest reading of a non-empty sequence.
fn minimum_of(vs: &Vec<u32>) -> (r: u32)
    requires
        vs@.len() >= 1,
    ensures
        r == min_of(vs@),
{
    let mut best: u32 = vs[0];
    let mut i: usize = 1;
    while i < vs.len()
        invariant
            1 <= i <= vs@.len(),
            best == min_of(vs@.take(i as int)),
        decreases vs@.len() - i,
    {
        let v = vs[i];
        proof {
            assert(vs@.take(i + 1).drop_last() =~= vs@.take(i as int));
        }
        if v < best {
            best = v;
        }
        i = i + 1;
    }
    proof {
        assert(vs@.take(vs@.len() as int) =~= vs@);
    }
    best
}

/// Compute one statistic over a record set, with fail-fast semantics:
/// an empty set and any unparsable selected reading are hard errors.
pub fn aggregate(records: &Vec<JsonRecord>, op: AggOp) -> (r: Result<u32, AggregateError>)
    ensures
        r == spec_aggregate(records@, op),
{
    if records.len() == 0 {
        return Err(AggregateError::EmptyInput);
    }
    let vs = match parse_selected(records, op) {
        Ok(vs) => vs,
        Err(e) => {
            return Err(e);
        },
    };
    let v = match op {
        AggOp::Average => average_of(&vs),
        AggOp::Maximum => maximum_of(&vs),
        AggOp::Minimum => minimum_of(&vs),
    };
    Ok(v)
}

/// `max_of` denotes the maximum: it bounds every reading of a non-empty
/// sequence and is itself one of them.
pub proof fn lemma_max_of_properties(vs: Seq<u32>)
    requires
        vs.len() >= 1,
    ensures
        forall|i: int| 0 <= i < vs.len() ==> #[trigger] vs[i] <= max_of(vs),
        exists|i: int| 0 <= i < vs.len() && vs[i] == max_of(vs),
    decreases vs.len(),
{
    if vs.len() == 1 {
        assert(vs[0] == max_of(vs));
    } else {
        lemma_max_of_properties(vs.drop_last());
        let m = max_of(vs.drop_last());
        assert forall|i: int| 0 <= i < vs.len() implies #[trigger] vs[i] <= max_of(vs) by {
            if i < vs.len() - 1 {
                assert(vs.drop_last()[i] == vs[i]);
            } else {
                assert(vs.last() == vs[i]);
            }
        }
        if vs.last() as int > m {
            assert(vs[vs.len() - 1] == max_of(vs));
        } else {
            let j = choose|j: int| 0 <= j < vs.drop_last().len() && vs.drop_last()[j] == m;
            assert(vs[j] == max_of(vs));
        }
    }
}

/// `min_of` denotes the minimum: it is a lower bound on every reading of a
/// non-empty sequence and is itself one of them.
pub proof fn lemma_min_of_properties(vs: Seq<u32>)
    requires
        vs.len() >= 1,
    ensures
        forall|i: int| 0 <= i < vs.len() ==> #[trigger] vs[i] >= min_of(vs),
        exists|i: int| 0 <= i < vs.len() && vs[i] == min_of(vs),
    decreases vs.len(),
{
    if vs.len() == 1 {
        assert(vs[0] == min_of(vs));
    } else {
        lemma_min_of_properties(vs.drop_last());
        let m = min_of(vs.drop_last());
        assert forall|i: int| 0 <= i < vs.len() implies #[trigger] vs[i] >= min_of(vs) by {
            if i < vs.len() - 1 {
                assert(vs.drop_last()[i] == vs[i]);
            } else {
                assert(vs.last() == vs[i]);
            }
        }
        if (vs.last() as int) < m {
            assert(vs[vs.len() - 1] == min_of(vs));
        } else {
            let j = choose|j: int| 0 <= j < vs.drop_last().len() && vs.drop_last()[j] == m;
            assert(vs[j] == min_of(vs));
        }
    }
}

/// An empty record set never yields a number: every statistic fails with
/// [`AggregateError::EmptyInput`].
pub proof fn lemma_empty_aggregate(op: AggOp)
    ensures
        spec_aggregate(Seq::<JsonRecord>::empty(), op) == Err::<u32, AggregateError>(
            AggregateError::EmptyInput,
        ),
{
}

/// One unparsable selected reading poisons the whole request: the statistic
/// fails with [`AggregateError::Parse`], and no partial result is computed
/// from the remaining records.
pub proof fn lemma_unparsable_aggregate(rs: Seq<JsonRecord>, op: AggOp, i: int)
    requires
        0 <= i < rs.len(),
        !parses_as_u32(selected_text(rs[i], op)),
    ensures
        spec_aggregate(rs, op) == Err::<u32, AggregateError>(AggregateError::Parse),
{
    assert(!all_selected_parse(rs, op));
}

/// Aggregation is a function of the record set and the requested statistic
/// alone: equal payloads always yield equal outcomes, so repeated requests
/// against an unchanged upstream payload return identical results.
pub proof fn lemma_aggregate_deterministic(rs1: Seq<JsonRecord>, rs2: Seq<JsonRecord>, op: AggOp)
    requires
        rs1 == rs2,
    ensures
        spec_aggregate(rs1, op) == spec_aggregate(rs2, op),
{
}

} // verus!
