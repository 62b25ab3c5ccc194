//! What holds of every rewrite: the shape of the rewritten function, the
//! distinctness of the slot names, and how the guarded body behaves.
use vstd::prelude::*;
use crate::model::{param_name, Binding, Expansion, FnDecl, Param, ReturnType, Slot};
use crate::names::{arg_slot_name, flag_slot_name, return_slot_name};
use crate::transform::{expansion_of, test_attr_path};

verus! {

/// The variables in scope after binding `ns[i]` to `vs[i]` in order; a later
/// binding shadows an earlier one of the same name.
pub open spec fn env_of<V>(ns: Seq<Seq<char>>, vs: Seq<V>) -> Map<Seq<char>, V>
    decreases ns.len(),
{
    if ns.len() == 0 {
        Map::empty()
    } else {
        env_of(ns.drop_last(), vs).insert(ns.last(), vs[ns.len() - 1])
    }
}

pub open spec fn slot_names<T, B>(e: Expansion<T, B>) -> Seq<Seq<char>> {
    e.slots@.map_values(|s: Slot<T>| s.name@)
}

pub open spec fn param_names<T>(ps: Seq<Param<T>>) -> Seq<Seq<char>> {
    ps.map_values(|p: Param<T>| param_name(p))
}

/// One run of the rewritten function. `flags` and `store` give what the
/// driver put in the slots, by slot name; `body` is what the original body
/// computes from its variables. The result is the slot written and the value
/// written there, or `None` when the body is skipped and nothing is written.
pub open spec fn run_guard<T, B, V>(
    e: Expansion<T, B>,
    flags: Map<Seq<char>, bool>,
    store: Map<Seq<char>, V>,
    body: spec_fn(Map<Seq<char>, V>) -> V,
) -> Option<(Seq<char>, V)> {
    let names = slot_names(e);
    let g = e.func.guard;
    let bound = g.bindings@.map_values(|b: Binding| b.name@);
    let read = g.bindings@.map_values(|b: Binding| store[names[b.slot as int]]);
    if flags[names[g.flag_slot as int]] {
        Some((names[g.return_slot as int], body(env_of(bound, read))))
    } else {
        None
    }
}

/// Whatever the parameters and result of the original, the rewritten function
/// takes no argument, declares no result and is tagged as a unit test.
pub proof fn rewritten_is_nullary_test<T, B>(decl: FnDecl<T, B>, e: Expansion<T, B>)
    requires
        expansion_of(decl, e),
    ensures
        e.func.params@.len() == 0,
        e.func.ret == ReturnType::<T>::Unit,
        exists|k: int| 0 <= k < e.func.attrs@.len() && (#[trigger] e.func.attrs@[k])@ == test_attr_path(),
{
    assert(e.func.attrs@[0]@ == test_attr_path());
}

/// `_` + `f` + `tail` determines `f` among names with a tail of the same length.
proof fn lemma_prefixed_injective(f: Seq<char>, g: Seq<char>, tf: Seq<char>, tg: Seq<char>)
    requires
        tf.len() == tg.len(),
        seq!['_'] + f + tf == seq!['_'] + g + tg,
    ensures
        f == g,
{
    let a = seq!['_'] + f + tf;
    let b = seq!['_'] + g + tg;
    assert(f.len() == g.len()) by {
        assert(a.len() == f.len() + 1 + tf.len());
        assert(b.len() == g.len() + 1 + tg.len());
    }
    assert forall|i: int| 0 <= i < f.len() implies f[i] == g[i] by {
        assert(a[i + 1] == f[i]);
        assert(b[i + 1] == g[i]);
    }
    assert(f =~= g);
}

/// The flag and return slots of a function are named after it alone: two
/// functions of different names never share one.
pub proof fn flag_and_return_slots_are_per_function(f: Seq<char>, g: Seq<char>)
    requires
        f != g,
    ensures
        flag_slot_name(f) != flag_slot_name(g),
        return_slot_name(f) != return_slot_name(g),
{
    if flag_slot_name(f) == flag_slot_name(g) {
        lemma_prefixed_injective(
            f,
            g,
            seq!['_', '_', 'f', 'l', 'a', 'g', '_'],
            seq!['_', '_', 'f', 'l', 'a', 'g', '_'],
        );
    }
    if return_slot_name(f) == return_slot_name(g) {
        lemma_prefixed_injective(
            f,
            g,
            seq!['_', '_', 'r', 'e', 't', 'u', 'r', 'n', '_'],
            seq!['_', '_', 'r', 'e', 't', 'u', 'r', 'n', '_'],
        );
    }
}

/// The fourth character after the function name tells the slot's role apart.
proof fn lemma_role_chars(f: Seq<char>, a: Seq<char>)
    ensures
        flag_slot_name(f).len() > f.len() + 3,
        return_slot_name(f).len() > f.len() + 3,
        arg_slot_name(f, a).len() > f.len() + 3,
        flag_slot_name(f)[f.len() + 3int] == 'f',
        return_slot_name(f)[f.len() + 3int] == 'r',
        arg_slot_name(f, a)[f.len() + 3int] == 'a',
{
    let p = seq!['_'] + f;
    let ta = seq!['_', '_', 'a', 'r', 'g', '_', '_'];
    assert((p + ta)[f.len() + 3int] == 'a');
    assert((p + ta + a)[f.len() + 3int] == 'a');
}

proof fn lemma_arg_slot_injective(f: Seq<char>, a: Seq<char>, b: Seq<char>)
    requires
        arg_slot_name(f, a) == arg_slot_name(f, b),
    ensures
        a == b,
{
    let p = seq!['_'] + f + seq!['_', '_', 'a', 'r', 'g', '_', '_'];
    let x = arg_slot_name(f, a);
    let y = arg_slot_name(f, b);
    assert(x.len() == p.len() + a.len() + 1);
    assert(y.len() == p.len() + b.len() + 1);
    assert forall|i: int| 0 <= i < a.len() implies a[i] == b[i] by {
        assert(x[p.len() + i] == a[i]);
        assert(y[p.len() + i] == b[i]);
    }
    assert(a =~= b);
}

/// A function with N parameters of distinct names gets exactly N + 2 slots
/// (a flag, a return slot and one per parameter), no two of them named alike.
pub proof fn slot_names_pairwise_distinct<T, B>(decl: FnDecl<T, B>, e: Expansion<T, B>)
    requires
        expansion_of(decl, e),
        forall|i: int, j: int|
            0 <= i < j < decl.params@.len() ==> param_name(#[trigger] decl.params@[i])
                != param_name(#[trigger] decl.params@[j]),
    ensures
        e.slots@.len() == decl.params@.len() + 2,
        forall|i: int, j: int|
            0 <= i < j < e.slots@.len() ==> (#[trigger] e.slots@[i]).name@
                != (#[trigger] e.slots@[j]).name@,
{
    let f = decl.name@;
    let ps = decl.params@;
    assert forall|i: int, j: int| 0 <= i < j < e.slots@.len() implies (
    #[trigger] e.slots@[i]).name@ != (#[trigger] e.slots@[j]).name@ by {
        if j >= 2 {
            let b = param_name(ps[j - 2]);
            assert(e.slots@[(j - 2) + 2].name@ == arg_slot_name(f, b));
            lemma_role_chars(f, b);
            if i >= 2 {
                let a = param_name(ps[i - 2]);
                assert(e.slots@[(i - 2) + 2].name@ == arg_slot_name(f, a));
                if arg_slot_name(f, a) == arg_slot_name(f, b) {
                    lemma_arg_slot_injective(f, a, b);
                }
            }
        } else {
            lemma_role_chars(f, seq![]);
        }
    }
}

/// With its flag slot false, the rewritten function neither runs the original
/// body nor writes any slot.
pub proof fn flag_off_runs_nothing<T, B, V>(
    decl: FnDecl<T, B>,
    e: Expansion<T, B>,
    flags: Map<Seq<char>, bool>,
    store: Map<Seq<char>, V>,
    body: spec_fn(Map<Seq<char>, V>) -> V,
)
    requires
        expansion_of(decl, e),
        !flags[flag_slot_name(decl.name@)],
    ensures
        run_guard(e, flags, store, body) is None,
{
    assert(slot_names(e)[0] == flag_slot_name(decl.name@));
}

/// With its flag slot true and each argument slot holding a value, the
/// rewritten function writes into its return slot what the original body
/// computes when called directly with those values as its arguments.
pub proof fn flag_on_runs_body<T, B, V>(
    decl: FnDecl<T, B>,
    e: Expansion<T, B>,
    flags: Map<Seq<char>, bool>,
    store: Map<Seq<char>, V>,
    body: spec_fn(Map<Seq<char>, V>) -> V,
    vals: Seq<V>,
)
    requires
        expansion_of(decl, e),
        flags[flag_slot_name(decl.name@)],
        vals.len() == decl.params@.len(),
        forall|i: int|
            0 <= i < vals.len() ==> store[arg_slot_name(
                decl.name@,
                param_name(#[trigger] decl.params@[i]),
            )] == vals[i],
    ensures
        run_guard(e, flags, store, body) == Some(
            (return_slot_name(decl.name@), body(env_of(param_names(decl.params@), vals))),
        ),
{
    let f = decl.name@;
    let ps = decl.params@;
    let names = slot_names(e);
    let g = e.func.guard;
    let bound = g.bindings@.map_values(|b: Binding| b.name@);
    let read = g.bindings@.map_values(|b: Binding| store[names[b.slot as int]]);
    assert(names[0] == flag_slot_name(f));
    assert(names[1] == return_slot_name(f));
    assert(bound =~= param_names(ps)) by {
        assert forall|i: int| 0 <= i < ps.len() implies bound[i] == param_names(ps)[i] by {
            assert(g.bindings@[i].name@ == param_name(ps[i]));
        }
    }
    assert(read =~= vals) by {
        assert forall|i: int| 0 <= i < vals.len() implies read[i] == vals[i] by {
            assert(g.bindings@[i].slot == i + 2);
            assert(e.slots@[i + 2].name@ == arg_slot_name(f, param_name(ps[i])));
        }
    }
}

} // verus!
