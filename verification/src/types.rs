//! The small type lattice of the source language, and the unification rule
//! that decides function-instance identity at call sites.

use vstd::prelude::*;

verus! {

#[derive(Clone, Copy, Debug, PartialEq, Eq, Structural)]
pub enum Type {
    /// Character data; also the default return type of a function.
    Text,
    /// Signed integer numbers.
    Num,
    /// Truth values, emitted as 1 and 0.
    Bool,
    /// An unresolved parameter type, fixed per call-site signature.
    Generic,
}

/// The concrete signature a call produces against declared parameter types:
/// a generic parameter takes the observed argument type; a concrete
/// parameter must be matched exactly. `None` when some pair conflicts.
pub open spec fn spec_unify(declared: Seq<Type>, observed: Seq<Type>) -> Option<Seq<Type>>
    recommends
        declared.len() == observed.len(),
{
    if forall|i: int| 0 <= i < declared.len() ==>
        (declared[i] == Type::Generic || declared[i] == observed[i])
    {
        Some(Seq::new(declared.len(), |i: int|
            if declared[i] == Type::Generic { observed[i] } else { declared[i] }))
    } else {
        None
    }
}

/// Unify observed argument types against declared parameter types.
/// Each generic parameter unifies independently of the others.
pub fn unify_signature(declared: &Vec<Type>, observed: &Vec<Type>) -> (r: Option<Vec<Type>>)
    requires
        declared.len() == observed.len(),
    ensures
        match r {
            Some(sig) => spec_unify(declared@, observed@) == Some(sig@),
            None => spec_unify(declared@, observed@) is None,
        },
{
    let mut sig: Vec<Type> = Vec::new();
    let mut i: usize = 0;
    while i < declared.len()
        invariant
            i <= declared.len(),
            declared.len() == observed.len(),
            sig.len() == i,
            forall|j: int| 0 <= j < i ==>
                (declared@[j] == Type::Generic || declared@[j] == observed@[j]),
            forall|j: int| 0 <= j < i ==> sig@[j] ==
                (if declared@[j] == Type::Generic { observed@[j] } else { declared@[j] }),
        decreases declared.len() - i,
    {
        let d = declared[i];
        let o = observed[i];
        if d == Type::Generic {
            sig.push(o);
        } else if d == o {
            sig.push(d);
        } else {
            assert(spec_unify(declared@, observed@) is None);
            return None;
        }
        i = i + 1;
    }
    proof {
        let model = spec_unify(declared@, observed@);
        assert(model is Some);
        assert(sig@ =~= model->0);
    }
    Some(sig)
}

} // verus!
