//! Reduction of a parameter list to (name, type) pairs.
use vstd::prelude::*;
use crate::model::{all_supported, describes, first_refusal, param_name, param_type, supported, ArgDescriptor, Param, Pattern, TransformError};

verus! {

/// Reduces each parameter to its name and type, in declaration order. Fails,
/// all or nothing, on the first parameter that is not a plain by-value name
/// with a type, pinning the error to its position.
pub fn get_args<T>(params: Vec<Param<T>>) -> (r: Result<Vec<ArgDescriptor<T>>, TransformError>)
    ensures
        r is Ok <==> all_supported(params@),
        r matches Ok(ds) ==> describes(params@, ds@),
        r matches Err(e) ==> first_refusal(params@, e),
{
    let ghost ps = params@;
    let total: usize = params.len();
    let mut rest = params;
    let mut args: Vec<ArgDescriptor<T>> = Vec::new();
    let mut i: usize = 0;
    while i < total
        invariant
            ps == params@,
            total == ps.len(),
            i + rest@.len() == ps.len(),
            rest@ == ps.subrange(i as int, ps.len() as int),
            args@.len() == i,
            forall|j: int| 0 <= j < i ==> #[trigger] supported(ps[j]),
            forall|j: int|
                0 <= j < i ==> #[trigger] args@[j].name@ == param_name(ps[j]) && args@[j].ty
                    == param_type(ps[j]),
        decreases total - i,
    {
        let p = rest.remove(0);
        assert(p == ps[i as int]);
        match p {
            Param::Receiver => {
                let e = TransformError::UnsupportedArgument { index: i };
                assert(!supported(ps[i as int]));
                assert(first_refusal(ps, e));
                assert(!all_supported(ps));
                return Err(e);
            },
            Param::Typed { pat, ty } => {
                let plain = match pat {
                    Pattern::Ident { name, by_ref, mutable, has_attrs, has_subpattern } => {
                        if !by_ref && !mutable && !has_attrs && !has_subpattern {
                            args.push(ArgDescriptor { name, ty });
                            true
                        } else {
                            false
                        }
                    },
                    Pattern::Other => false,
                };
                if !plain {
                    let e = TransformError::UnsupportedPattern { index: i };
                    assert(!supported(ps[i as int]));
                    assert(first_refusal(ps, e));
                    assert(!all_supported(ps));
                    return Err(e);
                }
            },
        }
        i = i + 1;
    }
    Ok(args)
}

} // verus!
