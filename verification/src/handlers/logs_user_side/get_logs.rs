//! Selection of the logs returned to a user: keep the requested types,
//! then order by timestamp, keeping the stored order among equal timestamps.
use vstd::prelude::*;

use crate::structs::Log;
use crate::utils::has_permission::{list_contains, list_has};

verus! {

/// Body of a log query.
#[derive(Debug, Clone)]
pub struct GetLogsInput {
    pub token: String,
    pub target_apps: Option<Vec<String>>,
    pub target_types: Option<Vec<String>>,
}

/// The timestamp by which logs are ordered (stored logs always carry one).
pub open spec fn time_of(log: Log) -> i64 {
    log.timestamp->0
}

/// Holds of the logs stamped with time `t`.
pub open spec fn at_time(t: i64) -> spec_fn(Log) -> bool {
    |log: Log| time_of(log) == t
}

/// Every log of `s` carries a timestamp.
pub open spec fn all_timestamped(s: Seq<Log>) -> bool {
    forall|i: int| 0 <= i < s.len() ==> (#[trigger] s[i]).timestamp is Some
}

/// Every log of `s` carries a type.
pub open spec fn all_typed(s: Seq<Log>) -> bool {
    forall|i: int| 0 <= i < s.len() ==> (#[trigger] s[i]).type_ is Some
}

/// Timestamps never decrease along `s`.
pub open spec fn sorted_by_time(s: Seq<Log>) -> bool {
    forall|i: int, j: int| 0 <= i < j < s.len() ==> time_of(#[trigger] s[i]) <= time_of(#[trigger] s[j])
}

/// For every timestamp, `out` holds the logs of `input` with that timestamp,
/// in the order in which `input` holds them.
pub open spec fn same_order_per_time(out: Seq<Log>, input: Seq<Log>) -> bool {
    forall|t: i64| #[trigger] out.filter(at_time(t)) == input.filter(at_time(t))
}

/// `out` is the stable ordering of `input` by timestamp.
pub open spec fn stable_time_order(out: Seq<Log>, input: Seq<Log>) -> bool {
    sorted_by_time(out) && same_order_per_time(out, input)
}

/// Whether a log passes the optional type filter of a query.
pub open spec fn type_wanted(types: Option<Vec<String>>, log: Log) -> bool {
    match types {
        None => true,
        Some(ts) => list_has(ts@, log.type_->0@),
    }
}

/// The type filter of a query, as a predicate on logs.
pub open spec fn wanted_by(types: Option<Vec<String>>) -> spec_fn(Log) -> bool {
    |log: Log| type_wanted(types, log)
}

proof fn lemma_filter_none_at(s: Seq<Log>, t: i64)
    requires
        forall|k: int| 0 <= k < s.len() ==> time_of(#[trigger] s[k]) != t,
    ensures
        s.filter(at_time(t)) == Seq::<Log>::empty(),
    decreases s.len(),
{
    reveal(Seq::filter);
    if s.len() > 0 {
        lemma_filter_none_at(s.drop_last(), t);
    }
}

proof fn lemma_insert_order(old_s: Seq<Log>, done: Seq<Log>, pos: int, x: Log)
    requires
        0 <= pos <= old_s.len(),
        same_order_per_time(old_s, done),
        sorted_by_time(old_s),
        forall|k: int| 0 <= k < pos ==> time_of(#[trigger] old_s[k]) <= time_of(x),
        forall|k: int| pos <= k < old_s.len() ==> time_of(#[trigger] old_s[k]) > time_of(x),
    ensures
        same_order_per_time(old_s.insert(pos, x), done.push(x)),
        sorted_by_time(old_s.insert(pos, x)),
{
    let a = old_s.subrange(0, pos);
    let b = old_s.subrange(pos, old_s.len() as int);
    let n = old_s.insert(pos, x);
    assert(old_s == a + b);
    assert(n == a.push(x) + b);
    assert forall|t: i64| #[trigger] n.filter(at_time(t)) == done.push(x).filter(at_time(t)) by {
        let p = at_time(t);
        Seq::filter_distributes_over_add(a.push(x), b, p);
        Seq::filter_distributes_over_add(a, b, p);
        a.lemma_filter_push(x, p);
        done.lemma_filter_push(x, p);
        assert(done.filter(p) == old_s.filter(p));
        if t == time_of(x) {
            assert forall|k: int| 0 <= k < b.len() implies time_of(#[trigger] b[k]) != t by {
                assert(b[k] == old_s[pos + k]);
            }
            lemma_filter_none_at(b, t);
            assert(b.filter(p) == Seq::<Log>::empty());
            assert(a.filter(p) + Seq::<Log>::empty() == a.filter(p));
            assert(a.filter(p).push(x) + Seq::<Log>::empty() == a.filter(p).push(x));
        }
    }
    old_s.insert_ensures(pos, x);
    assert forall|i: int, j: int| 0 <= i < j < n.len() implies time_of(#[trigger] n[i]) <= time_of(
        #[trigger] n[j],
    ) by {
        if j < pos {
            assert(n[i] == old_s[i] && n[j] == old_s[j]);
        } else if j == pos {
            assert(n[i] == old_s[i]);
        } else if i < pos {
            assert(n[i] == old_s[i] && n[j] == old_s[j - 1]);
        } else if i == pos {
            assert(n[j] == old_s[j - 1]);
        } else {
            assert(n[i] == old_s[i - 1] && n[j] == old_s[j - 1]);
        }
    }
}

proof fn lemma_count_in_filter(s: Seq<Log>, p: spec_fn(Log) -> bool, x: Log)
    requires
        p(x),
    ensures
        s.filter(p).to_multiset().count(x) == s.to_multiset().count(x),
    decreases s.len(),
{
    reveal(Seq::filter);
    broadcast use vstd::seq_lib::group_to_multiset_ensures;
    if s.len() > 0 {
        let init = s.drop_last();
        lemma_count_in_filter(init, p, x);
        assert(s == init.push(s.last()));
        init.lemma_filter_push(s.last(), p);
    }
}

/// Ordering by timestamp neither drops nor adds logs: a sequence that holds,
/// for every timestamp, the logs of another in the same order is a
/// permutation of it.
pub proof fn lemma_same_order_per_time_is_permutation(out: Seq<Log>, input: Seq<Log>)
    requires
        same_order_per_time(out, input),
    ensures
        out.to_multiset() =~= input.to_multiset(),
{
    assert forall|x: Log| out.to_multiset().count(x) == input.to_multiset().count(x) by {
        let p = at_time(time_of(x));
        lemma_count_in_filter(out, p, x);
        lemma_count_in_filter(input, p, x);
        assert(out.filter(p) == input.filter(p));
    }
}

/// The stable ordering by timestamp is unique: two sorted sequences that hold,
/// for every timestamp, the same logs in the same order are equal. So the
/// result of `sort_logs_by_timestamp` and of `select_logs` is determined by
/// their contracts.
pub proof fn lemma_stable_time_order_unique(a: Seq<Log>, b: Seq<Log>)
    requires
        sorted_by_time(a),
        sorted_by_time(b),
        same_order_per_time(a, b),
    ensures
        a == b,
    decreases a.len(),
{
    broadcast use vstd::seq_lib::group_to_multiset_ensures;
    lemma_same_order_per_time_is_permutation(a, b);
    assert(a.len() == a.to_multiset().len());
    assert(b.len() == b.to_multiset().len());
    if a.len() > 0 {
        let x = a.last();
        let y = b.last();
        let ai = a.drop_last();
        let bi = b.drop_last();
        assert(b.contains(x)) by {
            assert(a.to_multiset().count(x) > 0) by {
                assert(a.contains(x)) by {
                    assert(a[a.len() - 1] == x);
                }
            }
        }
        assert(a.contains(y)) by {
            assert(b.to_multiset().count(y) > 0) by {
                assert(b.contains(y)) by {
                    assert(b[b.len() - 1] == y);
                }
            }
        }
        let tx = time_of(x);
        let ky = choose|k: int| 0 <= k < a.len() && a[k] == y;
        let kx = choose|k: int| 0 <= k < b.len() && b[k] == x;
        if ky < a.len() - 1 {
            assert(time_of(a[ky]) <= time_of(a[a.len() - 1]));
        }
        if kx < b.len() - 1 {
            assert(time_of(b[kx]) <= time_of(b[b.len() - 1]));
        }
        assert(time_of(y) == tx);
        assert(a == ai.push(x));
        assert(b == bi.push(y));
        assert forall|t: i64| #[trigger] ai.filter(at_time(t)) == bi.filter(at_time(t)) by {
            let p = at_time(t);
            ai.lemma_filter_push(x, p);
            bi.lemma_filter_push(y, p);
            assert(a.filter(p) == b.filter(p));
            if t == tx {
                assert(ai.filter(p).push(x) == bi.filter(p).push(y));
                assert(ai.filter(p) == ai.filter(p).push(x).drop_last());
                assert(bi.filter(p) == bi.filter(p).push(y).drop_last());
            }
        }
        assert(x == y) by {
            let p = at_time(tx);
            ai.lemma_filter_push(x, p);
            bi.lemma_filter_push(y, p);
            assert(a.filter(p) == b.filter(p));
            assert(ai.filter(p).push(x).last() == bi.filter(p).push(y).last());
        }
        assert(sorted_by_time(ai)) by {
            assert forall|i: int, j: int| 0 <= i < j < ai.len() implies time_of(#[trigger] ai[i]) <= time_of(#[trigger] ai[j]) by {
                assert(ai[i] == a[i] && ai[j] == a[j]);
            }
        }
        assert(sorted_by_time(bi)) by {
            assert forall|i: int, j: int| 0 <= i < j < bi.len() implies time_of(#[trigger] bi[i]) <= time_of(#[trigger] bi[j]) by {
                assert(bi[i] == b[i] && bi[j] == b[j]);
            }
        }
        lemma_stable_time_order_unique(ai, bi);
    } else {
        assert(b.len() == 0);
        assert(a =~= b);
    }
}

/// Orders logs by timestamp; logs with equal timestamps keep their order.
/// Fewer than two logs are returned as they are, without reading a timestamp.
pub fn sort_logs_by_timestamp(logs: Vec<Log>) -> (sorted: Vec<Log>)
    requires
        logs@.len() >= 2 ==> all_timestamped(logs@),
    ensures
        stable_time_order(sorted@, logs@),
        all_timestamped(logs@) ==> all_timestamped(sorted@),
{
    if logs.len() < 2 {
        return logs;
    }
    let ghost input = logs@;
    let mut rest = logs;
    let mut sorted: Vec<Log> = Vec::new();
    let ghost mut done: Seq<Log> = Seq::empty();
    assert(same_order_per_time(sorted@, done)) by {
        reveal(Seq::filter);
    }
    while rest.len() > 0
        invariant
            input == done + rest@,
            all_timestamped(input),
            all_timestamped(sorted@),
            sorted_by_time(sorted@),
            same_order_per_time(sorted@, done),
        decreases rest.len(),
    {
        let ghost before = rest@;
        let log = rest.remove(0);
        assert(input[done.len() as int] == log) by {
            assert(before[0] == log);
            assert((done + before)[done.len() as int] == before[0]);
        }
        let t: i64 = match log.timestamp {
            Some(t) => t,
            None => 0,
        };
        assert(time_of(log) == t);
        let ghost old_sorted = sorted@;
        let mut pos: usize = sorted.len();
        while pos > 0 && later_than(&sorted[pos - 1], t)
            invariant
                pos <= sorted@.len(),
                sorted@ == old_sorted,
                all_timestamped(old_sorted),
                forall|k: int| pos <= k < old_sorted.len() ==> time_of(#[trigger] old_sorted[k]) > t,
            decreases pos,
        {
            pos = pos - 1;
        }
        proof {
            if pos > 0 {
                assert forall|k: int| 0 <= k < pos implies time_of(#[trigger] old_sorted[k]) <= t by {
                    if k < pos - 1 {
                        assert(time_of(old_sorted[k]) <= time_of(old_sorted[pos - 1]));
                    }
                }
            }
            lemma_insert_order(old_sorted, done, pos as int, log);
            old_sorted.insert_ensures(pos as int, log);
        }
        sorted.insert(pos, log);
        proof {
            assert(done.push(log) + rest@ == input) by {
                assert(before == seq![log] + rest@);
            }
            done = done.push(log);
            assert forall|i: int| 0 <= i < sorted@.len() implies (#[trigger] sorted@[i]).timestamp is Some by {
                if i < pos {
                    assert(sorted@[i] == old_sorted[i]);
                } else if i > pos {
                    assert(sorted@[i] == old_sorted[i - 1]);
                }
            }
        }
    }
    assert(done == input);
    sorted
}

/// Whether `log` carries a timestamp later than `t`.
fn later_than(log: &Log, t: i64) -> (later: bool)
    requires
        log.timestamp is Some,
    ensures
        later == (time_of(*log) > t),
{
    match log.timestamp {
        Some(time) => time > t,
        None => false,
    }
}

/// With a list of requested types, the type filter keeps a log exactly when
/// its type equals one of the requested strings: every kept log has a
/// requested type (so no unrequested type, such as "default", slips in), and
/// every log with a requested type is kept.
pub proof fn lemma_type_filter_keeps_exactly_requested(logs: Seq<Log>, ts: Vec<String>, kept: Seq<Log>)
    requires
        kept == logs.filter(wanted_by(Some(ts))),
    ensures
        forall|k: int|
            0 <= k < kept.len() ==> ts@.map_values(|t: String| t@).contains(#[trigger] kept[k].type_->0@),
        forall|j: int|
            0 <= j < logs.len() && ts@.map_values(|t: String| t@).contains(#[trigger] logs[j].type_->0@)
                ==> kept.contains(logs[j]),
{
    let p = wanted_by(Some(ts));
    let names = ts@.map_values(|t: String| t@);
    assert forall|k: int| 0 <= k < kept.len() implies names.contains(#[trigger] kept[k].type_->0@) by {
        logs.lemma_filter_pred(p, k);
        assert(type_wanted(Some(ts), kept[k]));
        assert(list_has(ts@, kept[k].type_->0@));
        let i = choose|i: int| 0 <= i < ts@.len() && #[trigger] ts@[i]@ == kept[k].type_->0@;
        assert(names[i] == kept[k].type_->0@);
    }
    assert forall|j: int| 0 <= j < logs.len() && names.contains(#[trigger] logs[j].type_->0@) implies kept.contains(
        logs[j],
    ) by {
        let i = choose|i: int| 0 <= i < names.len() && names[i] == logs[j].type_->0@;
        assert(ts@[i]@ == logs[j].type_->0@);
        assert(list_has(ts@, logs[j].type_->0@));
        assert(p(logs[j]));
        logs.lemma_filter_contains(p, j);
    }
}

/// Without a list of requested types, the type filter keeps every log, in order.
pub proof fn lemma_no_type_filter_keeps_all(logs: Seq<Log>)
    ensures
        logs.filter(wanted_by(None)) == logs,
    decreases logs.len(),
{
    reveal(Seq::filter);
    if logs.len() > 0 {
        lemma_no_type_filter_keeps_all(logs.drop_last());
        assert(logs.drop_last().push(logs.last()) =~= logs);
    }
}

/// Keeps the logs whose type is among `types`; keeps every log when `types` is `None`.
pub fn filter_logs_by_type(logs: Vec<Log>, types: &Option<Vec<String>>) -> (kept: Vec<Log>)
    requires
        types is Some ==> all_typed(logs@),
    ensures
        kept@ == logs@.filter(wanted_by(*types)),
        types is None ==> kept@ == logs@,
        types matches Some(ts) ==> forall|k: int|
            0 <= k < kept@.len() ==> ts@.map_values(|t: String| t@).contains(#[trigger] kept@[k].type_->0@),
        types matches Some(ts) ==> forall|j: int|
            0 <= j < logs@.len() && ts@.map_values(|t: String| t@).contains(#[trigger] logs@[j].type_->0@)
                ==> kept@.contains(logs@[j]),
{
    let ghost input = logs@;
    let mut rest = logs;
    let mut kept: Vec<Log> = Vec::new();
    let ghost mut done: Seq<Log> = Seq::empty();
    assert(kept@ == done.filter(wanted_by(*types))) by {
        reveal(Seq::filter);
    }
    while rest.len() > 0
        invariant
            input == done + rest@,
            types is Some ==> all_typed(input),
            kept@ == done.filter(wanted_by(*types)),
        decreases rest.len(),
    {
        let ghost before = rest@;
        let log = rest.remove(0);
        assert(input[done.len() as int] == log) by {
            assert(before[0] == log);
            assert((done + before)[done.len() as int] == before[0]);
        }
        let wanted = match types {
            None => true,
            Some(ts) => match &log.type_ {
                Some(type_) => list_contains(ts, type_),
                None => false,
            },
        };
        assert(wanted == wanted_by(*types)(log));
        proof {
            done.lemma_filter_push(log, wanted_by(*types));
            assert(done.push(log) + rest@ == input) by {
                assert(before == seq![log] + rest@);
            }
            done = done.push(log);
        }
        if wanted {
            kept.push(log);
        }
    }
    assert(done == input);
    proof {
        match types {
            Some(ts) => lemma_type_filter_keeps_exactly_requested(input, *ts, kept@),
            None => lemma_no_type_filter_keeps_all(input),
        }
    }
    kept
}

/// The logs of one application that a query returns: those of the requested
/// types, ordered by timestamp, equal timestamps in stored order.
pub fn select_logs(logs: Vec<Log>, types: &Option<Vec<String>>) -> (selected: Vec<Log>)
    requires
        types is Some ==> all_typed(logs@),
        logs@.filter(wanted_by(*types)).len() >= 2 ==> all_timestamped(logs@.filter(wanted_by(*types))),
    ensures
        stable_time_order(selected@, logs@.filter(wanted_by(*types))),
{
    let kept = filter_logs_by_type(logs, types);
    sort_logs_by_timestamp(kept)
}

} // verus!
