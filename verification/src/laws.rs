//! What holds of every sequence of messages and of every sequence of
//! window creations.

use vstd::prelude::*;
use crate::win_layer::{HWND, UINT, WPARAM, LPARAM, ATOM, WM_NCDESTROY};
use crate::win_cls::WinCls;
use crate::hwnd_table::{Entry, bound_as, entry_of, consistent};
use crate::atom_table::recorded;
use crate::dispatch::{Reply, final_instance, binds, target, table_after, reply_of};

verus! {

/// One message as the trampoline of a behaviour receives it, with the
/// creation parameter that comes with it.
pub struct Delivery<T> {
    pub hwnd: HWND,
    pub msg: UINT,
    pub param: WPARAM,
    pub para: LPARAM,
    pub create: Option<T>,
}

/// The table after the trampoline of `T` has dispatched `d`.
pub open spec fn delivered<E, T: WinCls<E>>(table: Map<HWND, Entry<E>>, d: Delivery<T>) -> Map<
    HWND,
    Entry<E>,
> {
    table_after::<E, T>(table, d.hwnd, d.msg, d.param, d.para, d.create)
}

/// Whether dispatching `d` on `table` binds its creation parameter.
pub open spec fn binding<E, T: WinCls<E>>(table: Map<HWND, Entry<E>>, d: Delivery<T>) -> bool {
    binds::<E, T>(table, d.hwnd, d.msg, d.param, d.para, d.create)
}

/// Whether dispatching `d` on `table` asks the handler of an instance.
pub open spec fn asks_instance<E, T: WinCls<E>>(table: Map<HWND, Entry<E>>, d: Delivery<T>) -> bool {
    ||| final_instance::<E, T>(table, d.hwnd, d.msg) is Some
    ||| target::<E, T>(table, d.hwnd, d.msg, d.param, d.para, d.create) is Some
}

/// Whether `after` follows `before` by one step in the life of the window
/// `hwnd` of behaviour `T`. A step is a message that the trampoline of `T`
/// dispatches, for `hwnd` or for another window of `T`; or it is anything
/// else that happens to the table and leaves the binding of `hwnd` alone,
/// such as the messages of the windows of other behaviours.
pub open spec fn follows<E, T: WinCls<E>>(
    before: Map<HWND, Entry<E>>,
    after: Map<HWND, Entry<E>>,
    step: Option<Delivery<T>>,
    hwnd: HWND,
) -> bool {
    match step {
        Some(d) => after == delivered::<E, T>(before, d),
        None => {
            &&& after.contains_key(hwnd) == before.contains_key(hwnd)
            &&& before.contains_key(hwnd) ==> after[hwnd] == before[hwnd]
        },
    }
}

/// A history of the table of bindings in the life of the window `hwnd` of
/// behaviour `T`: `tables[k]` is the table that step `k` finds, and
/// `tables[k + 1]` the one that it leaves.
pub open spec fn history<E, T: WinCls<E>>(
    tables: Seq<Map<HWND, Entry<E>>>,
    steps: Seq<Option<Delivery<T>>>,
    hwnd: HWND,
) -> bool {
    &&& tables.len() == steps.len() + 1
    &&& forall|k: int|
        0 <= k < steps.len() ==> follows::<E, T>(tables[k], tables[k + 1], #[trigger] steps[k], hwnd)
}

/// Whether step `k` is a message for `hwnd`.
pub open spec fn message_at<T>(steps: Seq<Option<Delivery<T>>>, k: int, hwnd: HWND) -> bool {
    steps[k] is Some && steps[k].unwrap().hwnd == hwnd
}

/// Whether step `k` is the final message of `hwnd`.
pub open spec fn final_at<T>(steps: Seq<Option<Delivery<T>>>, k: int, hwnd: HWND) -> bool {
    message_at(steps, k, hwnd) && steps[k].unwrap().msg == WM_NCDESTROY
}

/// Whether step `k` is a message for `hwnd` that binds its creation
/// parameter.
pub open spec fn binds_at<E, T: WinCls<E>>(
    tables: Seq<Map<HWND, Entry<E>>>,
    steps: Seq<Option<Delivery<T>>>,
    k: int,
    hwnd: HWND,
) -> bool {
    message_at(steps, k, hwnd) && binding::<E, T>(tables[k], steps[k].unwrap())
}

/// Whether step `k` is a message for `hwnd` that asks the handler of an
/// instance.
pub open spec fn asks_instance_at<E, T: WinCls<E>>(
    tables: Seq<Map<HWND, Entry<E>>>,
    steps: Seq<Option<Delivery<T>>>,
    k: int,
    hwnd: HWND,
) -> bool {
    message_at(steps, k, hwnd) && asks_instance::<E, T>(tables[k], steps[k].unwrap())
}

/// A delivery to one handle leaves the binding of every other handle as it
/// was.
pub proof fn lemma_other_handles_untouched<E, T: WinCls<E>>(
    table: Map<HWND, Entry<E>>,
    d: Delivery<T>,
    hwnd: HWND,
)
    requires
        d.hwnd != hwnd,
    ensures
        delivered::<E, T>(table, d).contains_key(hwnd) == table.contains_key(hwnd),
        table.contains_key(hwnd) ==> delivered::<E, T>(table, d)[hwnd] == table[hwnd],
{
}

/// A handle that is bound stays bound until its final message.
pub proof fn lemma_stays_bound<E, T: WinCls<E>>(
    tables: Seq<Map<HWND, Entry<E>>>,
    steps: Seq<Option<Delivery<T>>>,
    hwnd: HWND,
    from: int,
    to: int,
)
    requires
        history::<E, T>(tables, steps, hwnd),
        0 <= from <= to <= steps.len(),
        bound_as::<E, T>(tables[from], hwnd) is Some,
        forall|k: int| from <= k < to ==> !final_at(steps, k, hwnd),
    ensures
        bound_as::<E, T>(tables[to], hwnd) is Some,
    decreases to - from,
{
    if from < to {
        lemma_stays_bound::<E, T>(tables, steps, hwnd, from, to - 1);
        assert(!final_at(steps, to - 1, hwnd));
        assert(follows::<E, T>(tables[to - 1], tables[to - 1 + 1], steps[to - 1], hwnd));
    }
}

/// A handle without an instance of `T` stays so as long as no message
/// binds one.
pub proof fn lemma_stays_unbound<E, T: WinCls<E>>(
    tables: Seq<Map<HWND, Entry<E>>>,
    steps: Seq<Option<Delivery<T>>>,
    hwnd: HWND,
    from: int,
    to: int,
)
    requires
        history::<E, T>(tables, steps, hwnd),
        0 <= from <= to <= steps.len(),
        bound_as::<E, T>(tables[from], hwnd) is None,
        forall|k: int| from <= k < to ==> !binds_at::<E, T>(tables, steps, k, hwnd),
    ensures
        bound_as::<E, T>(tables[to], hwnd) is None,
    decreases to - from,
{
    if from < to {
        lemma_stays_unbound::<E, T>(tables, steps, hwnd, from, to - 1);
        assert(!binds_at::<E, T>(tables, steps, to - 1, hwnd));
        assert(follows::<E, T>(tables[to - 1], tables[to - 1 + 1], steps[to - 1], hwnd));
    }
}

/// Single binding: of two messages that bind an instance to the same
/// handle, the later one comes after a final message for that handle. So
/// between two final messages a handle is bound at most once.
pub proof fn lemma_single_binding<E, T: WinCls<E>>(
    tables: Seq<Map<HWND, Entry<E>>>,
    steps: Seq<Option<Delivery<T>>>,
    hwnd: HWND,
    i: int,
    j: int,
)
    requires
        history::<E, T>(tables, steps, hwnd),
        0 <= i < j < steps.len(),
        binds_at::<E, T>(tables, steps, i, hwnd),
        binds_at::<E, T>(tables, steps, j, hwnd),
    ensures
        exists|k: int| i < k < j && final_at(steps, k, hwnd),
{
    if !(exists|k: int| i < k < j && final_at(steps, k, hwnd)) {
        assert(follows::<E, T>(tables[i], tables[i + 1], steps[i], hwnd));
        steps[i].unwrap().create.unwrap().lemma_round_trip();
        lemma_stays_bound::<E, T>(tables, steps, hwnd, i + 1, j);
        assert(false);
    }
}

/// Every instance whose handler a dispatch asks is bound to the handle:
/// it was bound before the dispatch, or the dispatch has just bound it.
pub proof fn lemma_asked_instance_is_bound<E, T: WinCls<E>>(
    table: Map<HWND, Entry<E>>,
    d: Delivery<T>,
)
    ensures
        final_instance::<E, T>(table, d.hwnd, d.msg) is Some ==> final_instance::<E, T>(
            table,
            d.hwnd,
            d.msg,
        ) == bound_as::<E, T>(table, d.hwnd),
        target::<E, T>(table, d.hwnd, d.msg, d.param, d.para, d.create) is Some ==> {
            let inst = target::<E, T>(table, d.hwnd, d.msg, d.param, d.para, d.create);
            &&& bound_as::<E, T>(delivered::<E, T>(table, d), d.hwnd) == inst
            &&& bound_as::<E, T>(table, d.hwnd) == inst || binding::<E, T>(table, d)
        },
{
    if binding::<E, T>(table, d) {
        d.create.unwrap().lemma_round_trip();
    }
}

/// Bind precedes use: where a handle starts without an instance, the
/// handler of an instance is asked for it only once a message has bound
/// one. The class-wide handler needs no binding.
pub proof fn lemma_bind_precedes_use<E, T: WinCls<E>>(
    tables: Seq<Map<HWND, Entry<E>>>,
    steps: Seq<Option<Delivery<T>>>,
    hwnd: HWND,
    j: int,
)
    requires
        history::<E, T>(tables, steps, hwnd),
        0 <= j < steps.len(),
        bound_as::<E, T>(tables[0], hwnd) is None,
        asks_instance_at::<E, T>(tables, steps, j, hwnd),
    ensures
        exists|i: int| 0 <= i <= j && binds_at::<E, T>(tables, steps, i, hwnd),
{
    if !(exists|i: int| 0 <= i <= j && binds_at::<E, T>(tables, steps, i, hwnd)) {
        lemma_stays_unbound::<E, T>(tables, steps, hwnd, 0, j);
        assert(!binds_at::<E, T>(tables, steps, j, hwnd));
        assert(false);
    }
}

/// Unbind precedes handle death: the final message asks the instance that
/// was bound, if there was one, and leaves the handle without a binding
/// of any behaviour. It binds nothing.
pub proof fn lemma_final_message_unbinds<E, T: WinCls<E>>(
    table: Map<HWND, Entry<E>>,
    d: Delivery<T>,
)
    requires
        d.msg == WM_NCDESTROY,
    ensures
        final_instance::<E, T>(table, d.hwnd, d.msg) == bound_as::<E, T>(table, d.hwnd),
        !delivered::<E, T>(table, d).contains_key(d.hwnd),
        !binding::<E, T>(table, d),
{
}

/// No stale binding: once a handle has had its final message, the handler
/// of an instance is asked for it again only after a later message has
/// bound a new one.
pub proof fn lemma_no_stale_binding<E, T: WinCls<E>>(
    tables: Seq<Map<HWND, Entry<E>>>,
    steps: Seq<Option<Delivery<T>>>,
    hwnd: HWND,
    i: int,
    j: int,
)
    requires
        history::<E, T>(tables, steps, hwnd),
        0 <= i < j < steps.len(),
        final_at(steps, i, hwnd),
        asks_instance_at::<E, T>(tables, steps, j, hwnd),
    ensures
        exists|k: int| i < k <= j && binds_at::<E, T>(tables, steps, k, hwnd),
{
    if !(exists|k: int| i < k <= j && binds_at::<E, T>(tables, steps, k, hwnd)) {
        assert(follows::<E, T>(tables[i], tables[i + 1], steps[i], hwnd));
        lemma_final_message_unbinds::<E, T>(tables[i], steps[i].unwrap());
        lemma_stays_unbound::<E, T>(tables, steps, hwnd, i + 1, j);
        assert(!binds_at::<E, T>(tables, steps, j, hwnd));
        assert(false);
    }
}

/// A message on which neither handler of the behaviour has an opinion,
/// whatever the instance, is left to default handling.
pub proof fn lemma_no_opinion_is_default<E, T: WinCls<E>>(table: Map<HWND, Entry<E>>, d: Delivery<T>)
    requires
        T::handles_static(d.hwnd, d.msg, d.param, d.para) is None,
        forall|inst: T| (#[trigger] inst.handles(d.hwnd, d.msg, d.param, d.para)) is None,
    ensures
        reply_of::<E, T>(table, d.hwnd, d.msg, d.param, d.para, d.create) == Reply::<
            T::Work,
        >::Default,
{
}

/// The class-wide handler needs no binding: what it takes is handled as it
/// says whatever the table holds, unless the message is the final one and
/// the instance that it unbinds has an opinion of its own.
pub proof fn lemma_class_wide_needs_no_binding<E, T: WinCls<E>>(
    table: Map<HWND, Entry<E>>,
    d: Delivery<T>,
)
    requires
        d.msg != WM_NCDESTROY,
        T::handles_static(d.hwnd, d.msg, d.param, d.para) is Some,
    ensures
        reply_of::<E, T>(table, d.hwnd, d.msg, d.param, d.para, d.create) == Reply::Handled(
            T::handles_static(d.hwnd, d.msg, d.param, d.para).unwrap(),
        ),
        delivered::<E, T>(table, d) == table,
        !binding::<E, T>(table, d),
        !asks_instance::<E, T>(table, d),
{
}

/// Type safety of lookup: a lookup for behaviour `A` finds nothing at a
/// handle that is bound under another behaviour `B`, and a lookup for `B`
/// finds what was bound.
pub proof fn lemma_lookup_type_safe<E, A: WinCls<E>, B: WinCls<E>>(
    table: Map<HWND, Entry<E>>,
    hwnd: HWND,
    inst: B,
)
    requires
        A::class_spec() != B::class_spec(),
    ensures
        bound_as::<E, A>(table.insert(hwnd, entry_of::<E, B>(inst)), hwnd) is None,
        bound_as::<E, B>(table.insert(hwnd, entry_of::<E, B>(inst)), hwnd) == Some(inst),
{
    inst.lemma_round_trip();
}

/// Binding consistency, of the dispatching behaviour: a dispatch through
/// the trampoline of `T` leaves every entry bound under `T` an instance
/// of `T`.
pub proof fn lemma_dispatch_keeps_consistent<E, T: WinCls<E>>(
    table: Map<HWND, Entry<E>>,
    d: Delivery<T>,
)
    requires
        consistent::<E, T>(table),
    ensures
        consistent::<E, T>(delivered::<E, T>(table, d)),
{
    if binding::<E, T>(table, d) {
        d.create.unwrap().lemma_round_trip();
    }
}

/// Binding consistency, of every other behaviour: a dispatch through the
/// trampoline of `T` leaves every entry bound under another behaviour `U`
/// an instance of `U`.
pub proof fn lemma_dispatch_keeps_others_consistent<E, T: WinCls<E>, U: WinCls<E>>(
    table: Map<HWND, Entry<E>>,
    d: Delivery<T>,
)
    requires
        T::class_spec() != U::class_spec(),
        consistent::<E, U>(table),
    ensures
        consistent::<E, U>(delivered::<E, T>(table, d)),
{
}

/// Binding consistency over time: a handle that starts without a binding
/// never comes to be bound under `T` to a value that holds no instance of
/// `T`. So a lookup for `T` finds an instance whenever the handle is
/// bound under `T`.
pub proof fn lemma_never_inconsistent<E, T: WinCls<E>>(
    tables: Seq<Map<HWND, Entry<E>>>,
    steps: Seq<Option<Delivery<T>>>,
    hwnd: HWND,
    k: int,
)
    requires
        history::<E, T>(tables, steps, hwnd),
        0 <= k <= steps.len(),
        !tables[0].contains_key(hwnd),
    ensures
        tables[k].contains_key(hwnd) ==> tables[k][hwnd].class == T::class_spec(),
        bound_as::<E, T>(tables[k], hwnd) is Some <==> tables[k].contains_key(hwnd),
    decreases k,
{
    if k > 0 {
        lemma_never_inconsistent::<E, T>(tables, steps, hwnd, k - 1);
        assert(follows::<E, T>(tables[k - 1], tables[k - 1 + 1], steps[k - 1], hwnd));
        if steps[k - 1] is Some {
            let d = steps[k - 1].unwrap();
            if binding::<E, T>(tables[k - 1], d) {
                d.create.unwrap().lemma_round_trip();
            }
        }
    }
}

/// One window creation of a behaviour: its class key, and what the
/// registration of its class yields if it is attempted.
pub struct Creation {
    pub class: u64,
    pub outcome: Result<ATOM, u32>,
}

/// Whether a creation has to register the class: its identifier is not in
/// the cache, so that `get_cls_id` does not answer `Ready`.
pub open spec fn registers(atoms: Map<u64, ATOM>, c: Creation) -> bool {
    !atoms.contains_key(c.class)
}

/// The class identifier that a creation gets: the cached one, else the
/// outcome of the registration.
pub open spec fn cls_id_of(atoms: Map<u64, ATOM>, c: Creation) -> Result<ATOM, u32> {
    if atoms.contains_key(c.class) {
        Ok(atoms[c.class])
    } else {
        c.outcome
    }
}

/// The cache after a creation: where the class had to be registered,
/// `registered` has recorded the outcome.
pub open spec fn created(atoms: Map<u64, ATOM>, c: Creation) -> Map<u64, ATOM> {
    if atoms.contains_key(c.class) {
        atoms
    } else {
        recorded(atoms, c.class, c.outcome)
    }
}

/// The cache after all creations of `cs`, first to last.
pub open spec fn created_all(atoms: Map<u64, ATOM>, cs: Seq<Creation>) -> Map<u64, ATOM>
    decreases cs.len(),
{
    if cs.len() == 0 {
        atoms
    } else {
        created(created_all(atoms, cs.drop_last()), cs.last())
    }
}

/// The cache as the `i`-th creation of `cs` finds it.
pub open spec fn cache_at(atoms: Map<u64, ATOM>, cs: Seq<Creation>, i: int) -> Map<u64, ATOM> {
    created_all(atoms, cs.take(i))
}

/// An identifier that is cached stays cached, unchanged.
pub proof fn lemma_stays_cached(
    atoms: Map<u64, ATOM>,
    cs: Seq<Creation>,
    class: u64,
    from: int,
    to: int,
)
    requires
        0 <= from <= to <= cs.len(),
        cache_at(atoms, cs, from).contains_key(class),
    ensures
        cache_at(atoms, cs, to).contains_key(class),
        cache_at(atoms, cs, to)[class] == cache_at(atoms, cs, from)[class],
    decreases to - from,
{
    if from < to {
        lemma_stays_cached(atoms, cs, class, from, to - 1);
        assert(cs.take(to).drop_last() == cs.take(to - 1));
        assert(cs.take(to).last() == cs[to - 1]);
    }
}

/// Class identifier reuse: once a creation of a behaviour has its class
/// identifier, every later creation of that behaviour gets the identical
/// identifier and registers nothing.
pub proof fn lemma_class_id_reuse(atoms: Map<u64, ATOM>, cs: Seq<Creation>, i: int, j: int)
    requires
        0 <= i < j < cs.len(),
        cs[i].class == cs[j].class,
        cls_id_of(cache_at(atoms, cs, i), cs[i]) is Ok,
    ensures
        !registers(cache_at(atoms, cs, j), cs[j]),
        cls_id_of(cache_at(atoms, cs, j), cs[j]) == cls_id_of(cache_at(atoms, cs, i), cs[i]),
{
    assert(cs.take(i + 1).drop_last() == cs.take(i));
    assert(cs.take(i + 1).last() == cs[i]);
    lemma_stays_cached(atoms, cs, cs[i].class, i + 1, j);
}

/// Where no registration fails, any number of creations of a behaviour
/// registers its class at most once: only the first of them can.
pub proof fn lemma_registers_once(atoms: Map<u64, ATOM>, cs: Seq<Creation>, i: int, j: int)
    requires
        0 <= i < j < cs.len(),
        cs[i].class == cs[j].class,
        forall|k: int| 0 <= k < cs.len() ==> (#[trigger] cs[k]).outcome is Ok,
    ensures
        !registers(cache_at(atoms, cs, j), cs[j]),
        cls_id_of(cache_at(atoms, cs, j), cs[j]) == cls_id_of(cache_at(atoms, cs, i), cs[i]),
{
    lemma_class_id_reuse(atoms, cs, i, j);
}

} // verus!
