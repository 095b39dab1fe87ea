use vstd::prelude::*;
use crate::access::AccessLevel;
use crate::dispatch::{spec_dispatch, spec_signal};
use crate::node::{Node, lemma_mount_paths, lemma_table_lookup};
use crate::store::StoreState;
use crate::value::ValueModel;

verus! {

/// Setting the number to `v1` and then to a different `v2`, starting from a
/// number other than `v1`, sends exactly two change signals, carrying `v1`
/// and then `v2`; the getter then returns `v2`.
pub proof fn lemma_distinct_number_sets_signal_twice(
    s: StoreState,
    v1: i32,
    v2: i32,
    granted: AccessLevel,
)
    requires
        v1 != v2,
        s.number != v1,
        granted.spec_satisfies(AccessLevel::Write),
    ensures
        ({
            let (s1, r1) = spec_dispatch(s, "state/number"@, "set"@, ValueModel::Int(v1 as int), granted);
            let (s2, r2) = spec_dispatch(s1, "state/number"@, "set"@, ValueModel::Int(v2 as int), granted);
            let (s3, r3) = spec_dispatch(s2, "state/number"@, "get"@, ValueModel::Null, granted);
            &&& r1.result == Ok::<ValueModel, crate::dispatch::RpcError>(ValueModel::Bool(true))
            &&& r1.signal == Some(spec_signal(Node::Number, ValueModel::Int(v1 as int)))
            &&& r2.result == Ok::<ValueModel, crate::dispatch::RpcError>(ValueModel::Bool(true))
            &&& r2.signal == Some(spec_signal(Node::Number, ValueModel::Int(v2 as int)))
            &&& r3.result == Ok::<ValueModel, crate::dispatch::RpcError>(ValueModel::Int(v2 as int))
            &&& r3.signal is None
            &&& s3.number == v2
        }),
{
    lemma_table_lookup();
    lemma_mount_paths();
}

/// Setting the number to the same value twice in a row, starting from
/// another number, sends exactly one change signal; both calls return `true`.
pub proof fn lemma_repeated_number_set_signals_once(s: StoreState, v: i32, granted: AccessLevel)
    requires
        s.number != v,
        granted.spec_satisfies(AccessLevel::Write),
    ensures
        ({
            let (s1, r1) = spec_dispatch(s, "state/number"@, "set"@, ValueModel::Int(v as int), granted);
            let (s2, r2) = spec_dispatch(s1, "state/number"@, "set"@, ValueModel::Int(v as int), granted);
            &&& r1.result == Ok::<ValueModel, crate::dispatch::RpcError>(ValueModel::Bool(true))
            &&& r1.signal == Some(spec_signal(Node::Number, ValueModel::Int(v as int)))
            &&& r2.result == Ok::<ValueModel, crate::dispatch::RpcError>(ValueModel::Bool(true))
            &&& r2.signal is None
            &&& s2 == s1
        }),
{
    lemma_table_lookup();
    lemma_mount_paths();
}

/// The state after setting the text to each of `writes` in turn.
pub open spec fn after_text_sets(s: StoreState, writes: Seq<Seq<char>>, granted: AccessLevel) -> StoreState
    decreases writes.len(),
{
    if writes.len() == 0 {
        s
    } else {
        let next = spec_dispatch(s, "state/text"@, "set"@, ValueModel::Str(writes[0]), granted).0;
        after_text_sets(next, writes.drop_first(), granted)
    }
}

/// After any non-empty run of text sets, the getter returns exactly the last
/// text written, whole, and the number is left as it was.
pub proof fn lemma_text_read_returns_last_write(
    s: StoreState,
    writes: Seq<Seq<char>>,
    granted: AccessLevel,
)
    requires
        writes.len() > 0,
        granted.spec_satisfies(AccessLevel::Write),
    ensures
        ({
            let last = after_text_sets(s, writes, granted);
            &&& spec_dispatch(last, "state/text"@, "get"@, ValueModel::Null, granted).1.result
                == Ok::<ValueModel, crate::dispatch::RpcError>(ValueModel::Str(writes.last()))
            &&& last.number == s.number
        }),
    decreases writes.len(),
{
    lemma_table_lookup();
    lemma_mount_paths();
    if writes.len() > 1 {
        let next = spec_dispatch(s, "state/text"@, "set"@, ValueModel::Str(writes[0]), granted).0;
        lemma_text_read_returns_last_write(next, writes.drop_first(), granted);
        assert(writes.drop_first().last() == writes.last());
    } else {
        let next = spec_dispatch(s, "state/text"@, "set"@, ValueModel::Str(writes[0]), granted).0;
        assert(writes.drop_first().len() == 0);
        reveal_with_fuel(after_text_sets, 2);
        assert(after_text_sets(s, writes, granted) == next);
    }
}

} // verus!
