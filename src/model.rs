//! The data that the transformation reads and produces. Types and bodies of
//! the annotated function are carried through unchanged, so they are type
//! parameters: `T` for a type, `B` for a block.
use vstd::prelude::*;
use vstd::string::*;

verus! {

/// The binding pattern of a typed parameter.
pub enum Pattern {
    /// `name`, possibly with `ref`, `mut`, attributes or an `@` subpattern.
    Ident { name: String, by_ref: bool, mutable: bool, has_attrs: bool, has_subpattern: bool },
    /// A destructuring, wildcard, reference or any other pattern.
    Other,
}

/// One declared parameter of the annotated function.
pub enum Param<T> {
    /// `self` in any of its forms.
    Receiver,
    /// `pat: ty`.
    Typed { pat: Pattern, ty: T },
}

/// A parameter reduced to the one shape that is accepted: a plain name and
/// its type.
pub struct ArgDescriptor<T> {
    pub name: String,
    pub ty: T,
}

/// The declared result of a function; `Unit` when none is written.
pub enum ReturnType<T> {
    Unit,
    Of(T),
}

/// The annotated function, as far as the transformation reads it.
pub struct FnDecl<T, B> {
    pub name: String,
    pub params: Vec<Param<T>>,
    pub ret: ReturnType<T>,
    pub body: B,
}

/// What a global slot holds.
pub enum SlotValue<T> {
    /// A `bool` that enables the guarded body.
    Flag,
    /// A pointer to a value of the given type.
    Pointer(ReturnType<T>),
}

/// A process-global, externally addressable storage slot.
pub struct Slot<T> {
    pub name: String,
    pub value: SlotValue<T>,
}

/// `let name = read(slots[slot])` at the start of the guarded body.
pub struct Binding {
    pub name: String,
    pub slot: usize,
}

/// The replacement body: if the flag slot is set, bind each argument from its
/// slot, run the original body and write its result into the return slot.
/// `trap` is the symbol that `static_unreachable!()` calls.
pub struct Guard<B> {
    pub flag_slot: usize,
    pub bindings: Vec<Binding>,
    pub body: B,
    pub return_slot: usize,
    pub trap: String,
}

/// The rewritten function. `attrs` holds the paths of the attributes that
/// are appended to the original ones.
pub struct Rewritten<T, B> {
    pub name: String,
    pub params: Vec<Param<T>>,
    pub ret: ReturnType<T>,
    pub attrs: Vec<String>,
    pub guard: Guard<B>,
}

/// The whole output: the slots to declare, then the rewritten function.
pub struct Expansion<T, B> {
    pub slots: Vec<Slot<T>>,
    pub func: Rewritten<T, B>,
}

/// Why a transformation was refused; the index is that of the parameter.
#[derive(PartialEq, Eq, Structural, Debug, Clone, Copy)]
pub enum TransformError {
    UnexpectedAttribute,
    UnsupportedArgument { index: usize },
    UnsupportedPattern { index: usize },
}

pub open spec fn supported<T>(p: Param<T>) -> bool {
    p matches Param::Typed {
        pat: Pattern::Ident { by_ref: false, mutable: false, has_attrs: false, has_subpattern: false, .. },
        ..
    }
}

/// The error that parameter `p`, at position `i`, gives when it is refused.
pub open spec fn param_error<T>(p: Param<T>, i: usize) -> TransformError {
    match p {
        Param::Receiver => TransformError::UnsupportedArgument { index: i },
        Param::Typed { .. } => TransformError::UnsupportedPattern { index: i },
    }
}

pub open spec fn all_supported<T>(ps: Seq<Param<T>>) -> bool {
    forall|i: int| 0 <= i < ps.len() ==> #[trigger] supported(ps[i])
}

/// `e` is the error of the first refused parameter of `ps`.
pub open spec fn first_refusal<T>(ps: Seq<Param<T>>, e: TransformError) -> bool {
    let i = e.position() as int;
    &&& i < ps.len()
    &&& !supported(ps[i])
    &&& forall|j: int| 0 <= j < i ==> #[trigger] supported(ps[j])
    &&& e == param_error(ps[i], e.position())
}

pub open spec fn param_name<T>(p: Param<T>) -> Seq<char> {
    match p {
        Param::Typed { pat: Pattern::Ident { name, .. }, .. } => name@,
        _ => Seq::empty(),
    }
}

/// The type of a typed parameter; of a receiver, an arbitrary value.
pub open spec fn param_type<T>(p: Param<T>) -> T {
    match p {
        Param::Typed { ty, .. } => ty,
        Param::Receiver => arbitrary(),
    }
}

/// The descriptors that accepted parameters `ps` reduce to.
pub open spec fn describes<T>(ps: Seq<Param<T>>, ds: Seq<ArgDescriptor<T>>) -> bool {
    &&& ds.len() == ps.len()
    &&& forall|i: int|
        0 <= i < ps.len() ==> #[trigger] ds[i].name@ == param_name(ps[i]) && ds[i].ty
            == param_type(ps[i])
}

impl TransformError {
    /// The position of the refused parameter; 0 for the attribute.
    pub open spec fn position(self) -> usize {
        match self {
            TransformError::UnexpectedAttribute => 0,
            TransformError::UnsupportedArgument { index } => index,
            TransformError::UnsupportedPattern { index } => index,
        }
    }

    pub open spec fn spec_message(self) -> Seq<char> {
        match self {
            TransformError::UnexpectedAttribute => "unexpected attribute"@,
            TransformError::UnsupportedArgument { .. } => "arguments like this are not supported"@,
            TransformError::UnsupportedPattern { .. } => "patterns like this are not supported"@,
        }
    }

    /// The diagnostic shown at the offending place.
    pub fn message(&self) -> (r: String)
        ensures
            r@ == self.spec_message(),
    {
        match self {
            TransformError::UnexpectedAttribute => String::from_str("unexpected attribute"),
            TransformError::UnsupportedArgument { .. } => String::from_str(
                "arguments like this are not supported",
            ),
            TransformError::UnsupportedPattern { .. } => String::from_str(
                "patterns like this are not supported",
            ),
        }
    }
}

} // verus!
