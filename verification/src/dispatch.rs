//! The dispatcher: takes one decoded entry, looks its identifier up in
//! the catalog, extracts a numeric value, and updates the metric sink.
//!
//! Every rejection path — unknown identifier, non-exportable entry,
//! unsupported value encoding — is a silent pass-through: the dispatcher
//! never fails observably and never touches a gauge it should not.

use crate::catalog::Catalog;
use crate::catalog::Obi;
use crate::catalog::catalog_wf;
use crate::catalog::lookup_in;
use crate::model::RawValue;
use crate::model::Unit;
use crate::model::numeric_value;
use crate::model::spec_numeric;
use crate::sink::MetricSink;
use vstd::prelude::*;

verus! {

/// The sink map after dispatching one entry: unchanged unless the
/// identifier names an exportable record and the value has a supported
/// encoding, in which case the gauge registered under the record's
/// metric key is overwritten with the numeric reading.
pub open spec fn spec_process(
    cat: Seq<Obi>,
    m: Map<Seq<char>, i64>,
    id: Seq<u8>,
    v: RawValue,
) -> Map<Seq<char>, i64> {
    match lookup_in(cat, id) {
        None => m,
        Some(e) => {
            if !e.exportable {
                m
            } else {
                match spec_numeric(v) {
                    None => m,
                    Some(n) => {
                        if m.dom().contains(e.metric_name@) {
                            m.insert(e.metric_name@, n)
                        } else {
                            m
                        }
                    },
                }
            }
        },
    }
}

/// Dispatches one decoded entry into the sink.
///
/// The unit tag takes part in optional validation only: no catalog
/// record declares an expected unit, so a mismatch is never reported and
/// the value is applied regardless.
pub fn process(
    catalog: &Catalog,
    sink: &mut MetricSink,
    identifier: &[u8; 6],
    value: &RawValue,
    _unit: Option<Unit>,
)
    ensures
        final(sink)@ == spec_process(catalog@, old(sink)@, identifier@, *value),
        lookup_in(catalog@, identifier@) is None ==> final(sink)@ == old(sink)@,
        (value matches RawValue::Text(_)) ==> final(sink)@ == old(sink)@,
        final(sink)@.dom() == old(sink)@.dom(),
{
    match catalog.lookup(identifier) {
        None => {},
        Some(e) => {
            if e.exportable {
                match numeric_value(value) {
                    None => {},
                    Some(n) => {
                        sink.set(e.metric_name, n);
                    },
                }
            }
        },
    }
    proof {
        assert(sink@.dom() =~= old(sink)@.dom());
    }
}

/// Dispatch never registers or drops a gauge: the sink's key set is
/// fixed whatever entry arrives.
pub proof fn lemma_process_preserves_dom(
    cat: Seq<Obi>,
    m: Map<Seq<char>, i64>,
    id: Seq<u8>,
    v: RawValue,
)
    ensures
        spec_process(cat, m, id, v).dom() == m.dom(),
{
    assert(spec_process(cat, m, id, v).dom() =~= m.dom());
}

/// Idempotence: dispatching the same identifier and value twice leaves
/// the sink exactly where one dispatch left it — a gauge is overwritten,
/// never accumulated.
pub proof fn lemma_process_idempotent(
    cat: Seq<Obi>,
    m: Map<Seq<char>, i64>,
    id: Seq<u8>,
    v: RawValue,
)
    ensures
        spec_process(cat, spec_process(cat, m, id, v), id, v) == spec_process(cat, m, id, v),
{
    let m1 = spec_process(cat, m, id, v);
    match lookup_in(cat, id) {
        None => {},
        Some(e) => {
            if e.exportable {
                match spec_numeric(v) {
                    None => {},
                    Some(n) => {
                        if m.dom().contains(e.metric_name@) {
                            assert(m1.dom().contains(e.metric_name@));
                            assert(m1.insert(e.metric_name@, n) =~= m1);
                        }
                    },
                }
            }
        },
    }
}

/// The metric keys of the exportable records of a catalog.
pub open spec fn exportable_keys(s: Seq<Obi>) -> Set<Seq<char>> {
    Set::new(
        |k: Seq<char>|
            exists|i: int|
                0 <= i < s.len() && (#[trigger] s[i]).exportable && s[i].metric_name@ == k,
    )
}

/// Registers one gauge, starting at zero, for each exportable catalog
/// record, in table order. Startup-only, before any frame arrives.
pub fn register_exportable(catalog: &Catalog, sink: &mut MetricSink)
    requires
        catalog.wf(),
        old(sink)@ == Map::<Seq<char>, i64>::empty(),
    ensures
        final(sink)@.dom() == exportable_keys(catalog@),
        forall|k: Seq<char>| final(sink)@.dom().contains(k) ==> final(sink)@[k] == 0,
{
    let n = catalog.len();
    let mut i: usize = 0;
    proof {
        assert(sink@.dom() =~= exportable_keys(catalog@.take(0)));
    }
    while i < n
        invariant
            catalog.wf(),
            n == catalog@.len(),
            i <= n,
            sink@.dom() == exportable_keys(catalog@.take(i as int)),
            forall|k: Seq<char>| sink@.dom().contains(k) ==> sink@[k] == 0,
        decreases n - i,
    {
        let e = catalog.entry_at(i);
        if e.exportable {
            proof {
                if sink@.dom().contains(e.metric_name@) {
                    let t = catalog@.take(i as int);
                    let j = choose|j: int|
                        0 <= j < t.len() && (#[trigger] t[j]).exportable && t[j].metric_name@
                            == e.metric_name@;
                    assert(catalog@[j] == t[j]);
                    assert(catalog@[i as int].exportable);
                    assert(false);
                }
            }
            sink.register(e.metric_name);
        }
        proof {
            let t1 = catalog@.take(i as int + 1);
            let t = catalog@.take(i as int);
            assert forall|k: Seq<char>| exportable_keys(t1).contains(k) implies sink@.dom().contains(
                k,
            ) by {
                let j = choose|j: int|
                    0 <= j < t1.len() && (#[trigger] t1[j]).exportable && t1[j].metric_name@ == k;
                if j < i {
                    assert(t[j].exportable && t[j].metric_name@ == k);
                }
            }
            assert forall|k: Seq<char>| sink@.dom().contains(k) implies exportable_keys(
                t1,
            ).contains(k) by {
                if exportable_keys(t).contains(k) {
                    let j = choose|j: int|
                        0 <= j < t.len() && (#[trigger] t[j]).exportable && t[j].metric_name@ == k;
                    assert(t1[j].exportable && t1[j].metric_name@ == k);
                } else {
                    assert(t1[i as int].exportable && t1[i as int].metric_name@ == k);
                }
            }
            assert(sink@.dom() =~= exportable_keys(t1));
        }
        i += 1;
    }
    proof {
        assert(catalog@.take(catalog@.len() as int) =~= catalog@);
    }
}

/// For every exportable catalog record exactly one registered gauge
/// exists — the sink maps each key to a single value — and its key is
/// that record's metric key; no gauge exists for a non-exportable
/// record.
pub proof fn lemma_registration_matches_catalog(cat: Seq<Obi>, dom: Set<Seq<char>>, i: int)
    requires
        catalog_wf(cat),
        dom == exportable_keys(cat),
        0 <= i < cat.len(),
    ensures
        cat[i].exportable ==> dom.contains(cat[i].metric_name@),
        !cat[i].exportable ==> !dom.contains(cat[i].metric_name@),
{
    if cat[i].exportable {
        assert(exportable_keys(cat).contains(cat[i].metric_name@));
    } else {
        if dom.contains(cat[i].metric_name@) {
            let j = choose|j: int|
                0 <= j < cat.len() && (#[trigger] cat[j]).exportable && cat[j].metric_name@
                    == cat[i].metric_name@;
            assert(false);
        }
    }
}

} // verus!
