//! The rewrite of an annotated function into slots and a guarded unit test.
use vstd::prelude::*;
use vstd::string::*;
use crate::args::get_args;
use crate::model::{
    all_supported, first_refusal, param_name, param_type, ArgDescriptor, Binding, Expansion,
    FnDecl, Guard, Param, ReturnType, Rewritten, Slot, SlotValue, TransformError,
};
use crate::names::{
    arg_slot, arg_slot_name, flag_slot, flag_slot_name, return_slot, return_slot_name,
    trap_message, trap_symbol,
};

verus! {

/// The path of the attribute that marks the rewritten function as a unit test.
pub open spec fn test_attr_path() -> Seq<char> {
    seq!['t', 'e', 's', 't']
}

/// The path of the attribute added to the rewritten function.
pub fn create_test_attr() -> (r: String)
    ensures
        r@ == test_attr_path(),
{
    let s = String::from_str("test");
    proof {
        reveal_strlit("test");
    }
    s
}

/// The attribute's own arguments; none are accepted.
pub struct Attributes {}

impl Attributes {
    /// Accepts an empty argument list, given as the texts of its tokens.
    pub fn parse(tokens: &Vec<String>) -> (r: Result<Attributes, TransformError>)
        ensures
            r is Ok <==> tokens@.len() == 0,
            r matches Err(e) ==> e == TransformError::UnexpectedAttribute,
    {
        if tokens.len() != 0 {
            Err(TransformError::UnexpectedAttribute)
        } else {
            Ok(Attributes {  })
        }
    }
}

/// `e` is the rewrite of `decl`: one flag slot, one return slot and one slot
/// per parameter, named after the function; a guard that binds each
/// parameter from its slot around the original body; and a zero-argument
/// test function with no declared result.
pub open spec fn expansion_of<T, B>(decl: FnDecl<T, B>, e: Expansion<T, B>) -> bool {
    let f = decl.name@;
    let ps = decl.params@;
    let g = e.func.guard;
    &&& e.slots@.len() == ps.len() + 2
    &&& e.slots@[0].name@ == flag_slot_name(f)
    &&& e.slots@[0].value == SlotValue::<T>::Flag
    &&& e.slots@[1].name@ == return_slot_name(f)
    &&& e.slots@[1].value == SlotValue::Pointer(decl.ret)
    &&& forall|i: int|
        0 <= i < ps.len() ==> (#[trigger] e.slots@[i + 2]).name@ == arg_slot_name(
            f,
            param_name(ps[i]),
        ) && e.slots@[i + 2].value == SlotValue::Pointer(ReturnType::Of(param_type(ps[i])))
    &&& g.flag_slot == 0
    &&& g.return_slot == 1
    &&& g.bindings@.len() == ps.len()
    &&& forall|i: int|
        0 <= i < ps.len() ==> (#[trigger] g.bindings@[i]).name@ == param_name(ps[i])
            && g.bindings@[i].slot == i + 2
    &&& g.body == decl.body
    &&& g.trap@ == trap_message(f)
    &&& e.func.name@ == f
    &&& e.func.params@.len() == 0
    &&& e.func.ret == ReturnType::<T>::Unit
    &&& e.func.attrs@.len() == 1
    &&& e.func.attrs@[0]@ == test_attr_path()
}

/// Rewrites `input`, or refuses it, with nothing generated, at its first
/// parameter that is not a plain by-value name.
pub fn transform<T, B>(input: FnDecl<T, B>) -> (r: Result<Expansion<T, B>, TransformError>)
    ensures
        r is Ok <==> all_supported(input.params@),
        r matches Ok(e) ==> expansion_of(input, e),
        r matches Err(e) ==> first_refusal(input.params@, e),
{
    let ghost decl = input;
    let FnDecl { name, params, ret, body } = input;
    let args = match get_args(params) {
        Ok(args) => args,
        Err(e) => return Err(e),
    };
    let n: usize = args.len();
    let mut slots: Vec<Slot<T>> = Vec::new();
    slots.push(Slot { name: flag_slot(name.as_str()), value: SlotValue::Flag });
    slots.push(Slot { name: return_slot(name.as_str()), value: SlotValue::Pointer(ret) });
    let mut bindings: Vec<Binding> = Vec::new();
    let ghost ds = args@;
    let mut rest = args;
    let mut i: usize = 0;
    while i < n
        invariant
            n == ds.len(),
            n == decl.params@.len(),
            rest@ == ds.subrange(i as int, n as int),
            i <= n,
            slots@.len() == i + 2,
            bindings@.len() == i,
            slots@[0].name@ == flag_slot_name(decl.name@),
            slots@[0].value == SlotValue::<T>::Flag,
            slots@[1].name@ == return_slot_name(decl.name@),
            slots@[1].value == SlotValue::Pointer(decl.ret),
            name@ == decl.name@,
            forall|j: int|
                0 <= j < n ==> #[trigger] ds[j].name@ == param_name(decl.params@[j]) && ds[j].ty
                    == param_type(decl.params@[j]),
            forall|j: int|
                0 <= j < i ==> (#[trigger] slots@[j + 2]).name@ == arg_slot_name(
                    decl.name@,
                    param_name(decl.params@[j]),
                ) && slots@[j + 2].value == SlotValue::Pointer(
                    ReturnType::Of(param_type(decl.params@[j])),
                ),
            forall|j: int|
                0 <= j < i ==> (#[trigger] bindings@[j]).name@ == param_name(decl.params@[j])
                    && bindings@[j].slot == j + 2,
        decreases n - i,
    {
        let ArgDescriptor { name: arg, ty } = rest.remove(0);
        assert(arg@ == ds[i as int].name@);
        let slot_name = arg_slot(name.as_str(), arg.as_str());
        let at: usize = slots.len();
        slots.push(Slot { name: slot_name, value: SlotValue::Pointer(ReturnType::Of(ty)) });
        bindings.push(Binding { name: arg, slot: at });
        i = i + 1;
    }
    let trap = trap_symbol(name.as_str());
    let guard = Guard { flag_slot: 0, bindings, body, return_slot: 1, trap };
    let mut attrs: Vec<String> = Vec::new();
    attrs.push(create_test_attr());
    let func = Rewritten { name, params: Vec::new(), ret: ReturnType::Unit, attrs, guard };
    Ok(Expansion { slots, func })
}

/// The attribute as a whole: refuses any argument of its own, then rewrites
/// the function it is attached to.
pub fn static_test<T, B>(attr_tokens: &Vec<String>, input: FnDecl<T, B>) -> (r: Result<
    Expansion<T, B>,
    TransformError,
>)
    ensures
        r is Ok <==> attr_tokens@.len() == 0 && all_supported(input.params@),
        r matches Ok(e) ==> expansion_of(input, e),
        attr_tokens@.len() != 0 ==> r == Err::<Expansion<T, B>, _>(
            TransformError::UnexpectedAttribute,
        ),
        attr_tokens@.len() == 0 ==> (r matches Err(e) ==> first_refusal(input.params@, e)),
{
    match Attributes::parse(attr_tokens) {
        Ok(_) => transform(input),
        Err(e) => Err(e),
    }
}

} // verus!
