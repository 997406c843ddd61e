//! The engine's cross-cutting guarantees, each stated and proved over the
//! specification functions that the dispatch contracts use.

use vstd::prelude::*;
use crate::calls::ProcedureView;
use crate::io::{
    RegistryView, call_output_ok, count_outputs, lemma_outputs_ok_len, lookup, outputs_ok,
    resolve, yields_output,
};
use crate::types::{CallView, OutputView};

verus! {

/// A name found in the registry names an entry of the registry, under that
/// very name.
pub proof fn lemma_lookup_in_bounds(reg: RegistryView, name: Seq<char>)
    ensures
        match lookup(reg, name) {
            Option::Some(i) => 0 <= i < reg.len() && reg[i].0 == name,
            Option::None => true,
        },
    decreases reg.len(),
{
    if reg.len() > 0 && !(reg[reg.len() - 1].0 == name) {
        lemma_lookup_in_bounds(reg.drop_last(), name);
    }
}

/// Dispatch never lands on an alias: resolution either reaches an
/// invocable entry or fails.
pub proof fn lemma_resolve_non_alias(reg: RegistryView, name: Seq<char>)
    ensures
        match resolve(reg, name) {
            Option::Some(j) => 0 <= j < reg.len() && !(reg[j].1 is Alias),
            Option::None => true,
        },
{
    lemma_lookup_in_bounds(reg, name);
    match lookup(reg, name) {
        Option::Some(i) => {
            match reg[i].1 {
                ProcedureView::Alias(target) => {
                    lemma_lookup_in_bounds(reg, target);
                },
                _ => {},
            }
        },
        Option::None => {},
    }
}

/// For every well-formed call the engine owes exactly one response entry,
/// and — with an empty middleware chain — that entry echoes the call's id
/// and protocol shape.  (That the entry carries exactly one of result and
/// error is the shape of `OutputView` itself: it is a success form or a
/// failure form, never both.)
pub proof fn lemma_call_entry_echoes_id(reg: RegistryView, c: CallView, r: Option<OutputView>)
    requires
        call_output_ok(reg, true, c, r),
    ensures
        c matches CallView::MethodCall { jsonrpc, id, .. } ==> (r matches Option::Some(o)
            && o.spec_id() == id && o.spec_version() == jsonrpc),
{
    match c {
        CallView::MethodCall { jsonrpc, method, params, id } => {
            lemma_resolve_non_alias(reg, method);
        },
        _ => {},
    }
}

/// A notification never produces a response entry, whatever the registry,
/// the middleware chain, or the capability did.
pub proof fn lemma_notification_silent(
    reg: RegistryView,
    nomid: bool,
    c: CallView,
    r: Option<OutputView>,
)
    requires
        call_output_ok(reg, nomid, c, r),
        c is Notification,
    ensures
        r is None,
{
}

/// Batch entries keep the input order: the envelope at position `i`, if it
/// owes an entry, is answered by the entry whose position equals the number
/// of output-owing envelopes before `i` — whatever order the invocations
/// completed in.
pub proof fn lemma_batch_order(
    reg: RegistryView,
    nomid: bool,
    calls: Seq<CallView>,
    outs: Seq<OutputView>,
    i: int,
)
    requires
        outputs_ok(reg, nomid, calls, outs),
        0 <= i < calls.len(),
        yields_output(calls[i]),
    ensures
        count_outputs(calls.subrange(0, i)) < outs.len(),
        call_output_ok(
            reg,
            nomid,
            calls[i],
            Option::Some(outs[count_outputs(calls.subrange(0, i)) as int]),
        ),
    decreases calls.len(),
{
    let rest = calls.subrange(1, calls.len() as int);
    if i == 0 {
        assert(calls.subrange(0, 0) =~= Seq::<CallView>::empty());
        lemma_outputs_ok_len(reg, nomid, calls, outs);
    } else {
        let pre = calls.subrange(0, i);
        assert(pre[0] == calls[0]);
        assert(pre.subrange(1, pre.len() as int) =~= rest.subrange(0, i - 1));
        assert(rest[i - 1] == calls[i]);
        if yields_output(calls[0]) {
            lemma_batch_order(
                reg,
                nomid,
                rest,
                outs.subrange(1, outs.len() as int),
                i - 1,
            );
            let k = count_outputs(rest.subrange(0, i - 1)) as int;
            assert(outs.subrange(1, outs.len() as int)[k] == outs[k + 1]);
        } else {
            lemma_batch_order(reg, nomid, rest, outs, i - 1);
        }
    }
}

/// An alias behaves exactly like its target: where the target names an
/// invocable entry, a request for the alias dispatches to the entry a
/// request for the target dispatches to.
pub proof fn lemma_alias_transparent(reg: RegistryView, alias: Seq<char>, target: Seq<char>)
    requires
        lookup(reg, alias) matches Option::Some(i) && reg[i].1 == ProcedureView::Alias(target),
        lookup(reg, target) matches Option::Some(j) && !(reg[j].1 is Alias),
    ensures
        resolve(reg, alias) == resolve(reg, target),
        resolve(reg, alias) is Some,
{
}

/// An alias chain that does not reach an invocable entry in one hop — a
/// self-referential alias, a mutually-referential pair, or a dangling
/// target — fails deterministically instead of looping.
pub proof fn lemma_alias_cycle_fails(reg: RegistryView, alias: Seq<char>, target: Seq<char>)
    requires
        lookup(reg, alias) matches Option::Some(i) && reg[i].1 == ProcedureView::Alias(target),
        match lookup(reg, target) {
            Option::Some(j) => reg[j].1 is Alias,
            Option::None => true,
        },
    ensures
        resolve(reg, alias) is None,
{
}

/// The latest registration of a name wins: after registering under `name`,
/// looking `name` up finds that very entry, whatever was registered before.
pub proof fn lemma_register_shadows(reg: RegistryView, name: Seq<char>, p: ProcedureView)
    ensures
        lookup(reg.push((name, p)), name) == Option::Some(reg.len() as int),
        reg.push((name, p))[reg.len() as int].1 == p,
{
    let reg2 = reg.push((name, p));
    assert(reg2[reg2.len() - 1] == (name, p));
}

/// Registering one name touches no other: lookups of every other name are
/// unchanged.
pub proof fn lemma_register_other_names(
    reg: RegistryView,
    name: Seq<char>,
    p: ProcedureView,
    other: Seq<char>,
)
    requires
        other != name,
    ensures
        lookup(reg.push((name, p)), other) == lookup(reg, other),
{
    let reg2 = reg.push((name, p));
    assert(reg2.drop_last() =~= reg);
}

/// Registering the same name twice overwrites deterministically: resolving
/// that name afterwards always uses the latest registration.
pub proof fn lemma_last_registration_wins(
    reg: RegistryView,
    name: Seq<char>,
    p1: ProcedureView,
    p2: ProcedureView,
)
    ensures
        ({
            let reg2 = reg.push((name, p1)).push((name, p2));
            lookup(reg2, name) == Option::Some(reg2.len() - 1) && reg2[reg2.len() - 1].1 == p2
        }),
{
    lemma_register_shadows(reg.push((name, p1)), name, p2);
}

} // verus!
