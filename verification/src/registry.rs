//! The function registry: one record per declared function, holding the
//! deferred body span and an append-only list of instances, one per
//! distinct concrete argument-type signature discovered at call sites.

use vstd::prelude::*;
use crate::types::Type;
use crate::token::Token;
use crate::ast::Block;
use crate::text::{chars_eq, dec_digits, usize_to_chars, copy_chars, push_chars, push_str_chars, lemma_dec_digits_injective};
use crate::error::{CompileError, ErrorKind};

verus! {

/// One concrete, fully parsed specialization of a declared function.
/// Created at most once per distinct signature; never mutated afterwards.
pub struct FunctionInstance {
    pub signature: Vec<Type>,
    pub body: Block,
}

/// The record of one function declaration.
pub struct FunctionDeclaration {
    pub name: Vec<char>,
    pub arg_names: Vec<Vec<char>>,
    pub arg_types: Vec<Type>,
    pub ret_type: Type,
    /// The unparsed token span of the body, recorded at declaration time.
    pub body_span: Vec<Token>,
    pub is_public: bool,
    pub row: usize,
    pub col: usize,
    pub instances: Vec<FunctionInstance>,
}

/// Declared names are unique across the whole unit, not merely per lexical
/// scope: every resolved instance is emitted into the target's one flat
/// function namespace, so two sibling declarations of one name would clash
/// in the emitted text even where source scoping could tell them apart.
pub struct FunctionRegistry {
    pub funs: Vec<FunctionDeclaration>,
}

/// The signatures of a unit's instances, in discovery order.
pub open spec fn instance_sigs(u: FunctionDeclaration) -> Seq<Seq<Type>> {
    u.instances@.map(|i: int, inst: FunctionInstance| inst.signature@)
}

/// The declared function names, in declaration order.
pub open spec fn names_of(r: FunctionRegistry) -> Seq<Seq<char>> {
    r.funs@.map(|i: int, u: FunctionDeclaration| u.name@)
}

/// The first index at which `sig` occurs, if any.
pub open spec fn spec_find_sig(sigs: Seq<Seq<Type>>, sig: Seq<Type>) -> Option<int>
    decreases sigs.len(),
{
    if sigs.len() == 0 {
        None
    } else if sigs[0] == sig {
        Some(0)
    } else {
        match spec_find_sig(sigs.skip(1), sig) {
            Some(i) => Some(i + 1),
            None => None,
        }
    }
}

/// Unfolding helper: what finding in `sigs.push(s)` means in terms of `sigs`.
pub proof fn lemma_find_sig_push(sigs: Seq<Seq<Type>>, s: Seq<Type>, sig: Seq<Type>)
    ensures
        spec_find_sig(sigs, sig) is Some ==>
            spec_find_sig(sigs.push(s), sig) == spec_find_sig(sigs, sig),
        spec_find_sig(sigs, sig) is None && sig == s ==>
            spec_find_sig(sigs.push(s), sig) == Some(sigs.len() as int),
        spec_find_sig(sigs, sig) is None && sig != s ==>
            spec_find_sig(sigs.push(s), sig) is None,
    decreases sigs.len(),
{
    if sigs.len() == 0 {
        assert(sigs.push(s)[0] == s);
        assert(sigs.push(s).skip(1) =~= Seq::<Seq<Type>>::empty());
        if sig != s {
            assert(spec_find_sig(Seq::<Seq<Type>>::empty(), sig) is None);
            assert(spec_find_sig(sigs.push(s), sig) is None);
        }
    } else {
        assert(sigs.push(s)[0] == sigs[0]);
        assert(sigs.push(s).skip(1) =~= sigs.skip(1).push(s));
        lemma_find_sig_push(sigs.skip(1), s, sig);
        if spec_find_sig(sigs, sig) is None && sig != s {
            assert(sigs[0] != sig);
            assert(spec_find_sig(sigs.skip(1), sig) is None);
            assert(spec_find_sig(sigs.skip(1).push(s), sig) is None);
        }
    }
}

/// The monomorphization cache is idempotent: once a signature has been
/// instantiated (appended at the end), looking the same signature up again
/// finds that instance, so no second instance is ever created for it.
pub proof fn lemma_instance_reuse(sigs: Seq<Seq<Type>>, sig: Seq<Type>)
    requires
        spec_find_sig(sigs, sig) is None,
    ensures
        spec_find_sig(sigs.push(sig), sig) == Some(sigs.len() as int),
{
    lemma_find_sig_push(sigs, sig, sig);
}

/// Two structurally different signatures instantiate two distinct
/// instances: after both are discovered, each resolves to its own index.
pub proof fn lemma_distinct_signatures(sigs: Seq<Seq<Type>>, sig1: Seq<Type>, sig2: Seq<Type>)
    requires
        sig1 != sig2,
        spec_find_sig(sigs, sig1) is None,
        spec_find_sig(sigs.push(sig1), sig2) is None,
    ensures
        spec_find_sig(sigs.push(sig1).push(sig2), sig1) == Some(sigs.len() as int),
        spec_find_sig(sigs.push(sig1).push(sig2), sig2) == Some(sigs.len() + 1 as int),
{
    lemma_instance_reuse(sigs, sig1);
    lemma_find_sig_push(sigs.push(sig1), sig2, sig1);
    lemma_instance_reuse(sigs.push(sig1), sig2);
}

/// The emitted name of instance `idx` of a function: index 0 alone keeps
/// the declared name; later instances carry a reserved disambiguator.
pub open spec fn spec_instance_name(name: Seq<char>, idx: nat) -> Seq<char> {
    if idx == 0 {
        name
    } else {
        "__"@ + dec_digits(idx) + "_"@ + name
    }
}

proof fn lemma_strlit_facts()
    ensures
        "__"@.len() == 2,
        "_"@.len() == 1,
        "__"@[0] == '_',
        "__"@[1] == '_',
{
    reveal_strlit("__");
    reveal_strlit("_");
}

/// Emitted instance names never collide within one declaration: distinct
/// instance indices yield distinct names.
pub proof fn lemma_instance_names_distinct(name: Seq<char>, j: nat, k: nat)
    requires
        j != k,
    ensures
        spec_instance_name(name, j) != spec_instance_name(name, k),
{
    lemma_strlit_facts();
    if j == 0 || k == 0 {
        let m = if j == 0 { k } else { j };
        assert(spec_instance_name(name, m).len() ==
            2 + dec_digits(m).len() + 1 + name.len());
        assert(dec_digits(m).len() >= 1) by {
            if m >= 10 {
                assert(dec_digits(m).len() == dec_digits(m / 10).len() + 1);
            }
        }
    } else {
        if spec_instance_name(name, j) == spec_instance_name(name, k) {
            let a = dec_digits(j);
            let b = dec_digits(k);
            assert(a.len() == b.len()) by {
                assert(spec_instance_name(name, j).len() == 2 + a.len() + 1 + name.len());
                assert(spec_instance_name(name, k).len() == 2 + b.len() + 1 + name.len());
            }
            assert(a =~= b) by {
                assert forall|i: int| 0 <= i < a.len() implies a[i] == b[i] by {
                    assert(spec_instance_name(name, j)[2 + i] == a[i]);
                    assert(spec_instance_name(name, k)[2 + i] == b[i]);
                }
            }
            lemma_dec_digits_injective(j, k);
            assert(false);
        }
    }
}

/// The reserved form prevents collisions with user identifiers: any name
/// that does not begin with the two reserved underscores differs from every
/// disambiguated instance name.
pub proof fn lemma_instance_name_reserved(name: Seq<char>, user: Seq<char>, k: nat)
    requires
        k > 0,
        user.len() < 2 || user[0] != '_' || user[1] != '_',
    ensures
        spec_instance_name(name, k) != user,
{
    lemma_strlit_facts();
    let n = spec_instance_name(name, k);
    assert(dec_digits(k).len() >= 1) by {
        if k >= 10 {
            assert(dec_digits(k).len() == dec_digits(k / 10).len() + 1);
        }
    }
    assert(n.len() >= 4);
    assert(n[0] == '_');
    assert(n[1] == '_');
}

/// Build the emitted name of instance `idx` of `name`.
pub fn instance_name(name: &Vec<char>, idx: usize) -> (r: Vec<char>)
    ensures
        r@ == spec_instance_name(name@, idx as nat),
{
    if idx == 0 {
        copy_chars(name)
    } else {
        let mut r: Vec<char> = Vec::new();
        push_str_chars(&mut r, "__");
        let digits = usize_to_chars(idx);
        push_chars(&mut r, &digits);
        push_str_chars(&mut r, "_");
        push_chars(&mut r, name);
        r
    }
}

impl FunctionRegistry {
    pub fn new() -> (r: FunctionRegistry)
        ensures
            names_of(r) =~= Seq::<Seq<char>>::empty(),
    {
        FunctionRegistry { funs: Vec::new() }
    }

    /// Whether some declared function carries this name.
    pub fn has_name(&self, name: &Vec<char>) -> (r: bool)
        ensures
            r == exists|i: int| 0 <= i < names_of(*self).len()
                && names_of(*self)[i] == name@,
    {
        let mut i: usize = 0;
        while i < self.funs.len()
            invariant
                i <= self.funs.len(),
                forall|j: int| 0 <= j < i ==> names_of(*self)[j] != name@,
            decreases self.funs.len() - i,
        {
            if chars_eq(&self.funs[i].name, name) {
                assert(names_of(*self)[i as int] == name@);
                return true;
            }
            i = i + 1;
        }
        false
    }

    /// The registry id of the function carrying this name, if any.
    pub fn find_name(&self, name: &Vec<char>) -> (r: Option<usize>)
        ensures
            match r {
                Some(id) => id < names_of(*self).len() && names_of(*self)[id as int] == name@,
                None => forall|i: int| 0 <= i < names_of(*self).len()
                    ==> names_of(*self)[i] != name@,
            },
    {
        let mut i: usize = 0;
        while i < self.funs.len()
            invariant
                i <= self.funs.len(),
                forall|j: int| 0 <= j < i ==> names_of(*self)[j] != name@,
            decreases self.funs.len() - i,
        {
            if chars_eq(&self.funs[i].name, name) {
                assert(names_of(*self)[i as int] == name@);
                return Some(i);
            }
            i = i + 1;
        }
        None
    }

    /// Record a declaration. Fails with `DuplicateFunction` exactly when the
    /// name is already registered; otherwise appends the record (with no
    /// instances yet) and hands back its id.
    pub fn add_function(&mut self, unit: FunctionDeclaration) -> (r: Result<usize, CompileError>)
        ensures
            match r {
                Ok(id) => {
                    &&& !(exists|i: int| 0 <= i < names_of(*old(self)).len()
                        && names_of(*old(self))[i] == unit.name@)
                    &&& id == old(self).funs@.len()
                    &&& final(self).funs@ == old(self).funs@.push(unit)
                },
                Err(e) => {
                    &&& exists|i: int| 0 <= i < names_of(*old(self)).len()
                        && names_of(*old(self))[i] == unit.name@
                    &&& e.kind == ErrorKind::DuplicateFunction
                    &&& *final(self) == *old(self)
                },
            },
    {
        if self.has_name(&unit.name) {
            let mut msg: Vec<char> = Vec::new();
            push_str_chars(&mut msg, "Function '");
            push_chars(&mut msg, &unit.name);
            push_str_chars(&mut msg, "' is already defined");
            return Err(CompileError::new(ErrorKind::DuplicateFunction, unit.row, unit.col, &msg));
        }
        let id = self.funs.len();
        self.funs.push(unit);
        Ok(id)
    }

    /// Look a signature up in a declaration's instance list: the index of
    /// the first (and, by construction, only) instance with that signature.
    pub fn find_instance(&self, id: usize, sig: &Vec<Type>) -> (r: Option<usize>)
        requires
            id < self.funs@.len(),
        ensures
            match r {
                Some(k) => spec_find_sig(instance_sigs(self.funs@[id as int]), sig@)
                    == Some(k as int),
                None => spec_find_sig(instance_sigs(self.funs@[id as int]), sig@) is None,
            },
    {
        let u = &self.funs[id];
        let ghost sigs = instance_sigs(*u);
        let mut i: usize = 0;
        proof {
            assert(sigs.skip(0) =~= sigs);
        }
        while i < u.instances.len()
            invariant
                i <= u.instances.len(),
                sigs == instance_sigs(*u),
                sigs.len() == u.instances@.len(),
                u == &self.funs@[id as int],
                id < self.funs@.len(),
                forall|j: int| 0 <= j < i ==> sigs[j] != sig@,
            decreases u.instances.len() - i,
        {
            proof {
                lemma_find_sig_skip(sigs, sig@, i as int);
            }
            let mut eq = u.instances[i].signature.len() == sig.len();
            if eq {
                let mut m: usize = 0;
                while m < sig.len()
                    invariant
                        m <= sig.len(),
                        u.instances@[i as int].signature@.len() == sig@.len(),
                        i < u.instances@.len(),
                        u == &self.funs@[id as int],
                        id < self.funs@.len(),
                        eq == (forall|j: int| 0 <= j < m ==>
                            u.instances@[i as int].signature@[j] == sig@[j]),
                    decreases sig.len() - m,
                {
                    if self.funs[id].instances[i].signature[m] != sig[m] {
                        eq = false;
                    }
                    m = m + 1;
                }
                if eq {
                    proof {
                        assert(u.instances@[i as int].signature@ =~= sig@);
                        assert(sigs[i as int] == sig@);
                        lemma_find_sig_first(sigs, sig@, i as int);
                    }
                    return Some(i);
                }
                proof {
                    assert(sigs[i as int] != sig@);
                }
            } else {
                proof {
                    assert(sigs[i as int] != sig@);
                }
            }
            i = i + 1;
        }
        proof {
            if spec_find_sig(sigs, sig@) is Some {
                let n = spec_find_sig(sigs, sig@)->0;
                lemma_find_sig_some(sigs, sig@);
                assert(false);
            }
        }
        None
    }

    /// Append a freshly created instance: instances are append-only and
    /// created at most once per signature.
    pub fn push_instance(&mut self, id: usize, inst: FunctionInstance)
        requires
            id < old(self).funs@.len(),
            spec_find_sig(instance_sigs(old(self).funs@[id as int]), inst.signature@) is None,
        ensures
            final(self).funs@.len() == old(self).funs@.len(),
            forall|j: int| 0 <= j < old(self).funs@.len() && j != id
                ==> final(self).funs@[j] == old(self).funs@[j],
            final(self).funs@[id as int].instances@ ==
                old(self).funs@[id as int].instances@.push(inst),
            instance_sigs(final(self).funs@[id as int]) =~=
                instance_sigs(old(self).funs@[id as int]).push(inst.signature@),
            final(self).funs@[id as int].name@ == old(self).funs@[id as int].name@,
            spec_find_sig(instance_sigs(final(self).funs@[id as int]), inst.signature@)
                == Some(old(self).funs@[id as int].instances@.len() as int),
    {
        let mut u = self.funs.remove(id);
        let ghost old_u = u;
        u.instances.push(inst);
        self.funs.insert(id, u);
        proof {
            assert(self.funs@ =~= old(self).funs@.update(id as int, u));
            assert(self.funs@[id as int] == u);
            assert(u.instances@ == old_u.instances@.push(inst));
            assert(instance_sigs(self.funs@[id as int]) =~=
                instance_sigs(old(self).funs@[id as int]).push(inst.signature@));
            lemma_instance_reuse(instance_sigs(old(self).funs@[id as int]), inst.signature@);
        }
    }
}

proof fn lemma_find_sig_skip(sigs: Seq<Seq<Type>>, sig: Seq<Type>, i: int)
    requires
        0 <= i < sigs.len(),
        forall|j: int| 0 <= j < i ==> sigs[j] != sig,
    ensures
        sigs[i] == sig ==> spec_find_sig(sigs, sig) == Some(i),
    decreases i,
{
    if i == 0 {
    } else {
        assert(sigs[0] != sig);
        assert(sigs.skip(1)[i - 1] == sigs[i]);
        assert(forall|j: int| 0 <= j < i - 1 ==> sigs.skip(1)[j] == sigs[j + 1]);
        lemma_find_sig_skip(sigs.skip(1), sig, i - 1);
    }
}

proof fn lemma_find_sig_first(sigs: Seq<Seq<Type>>, sig: Seq<Type>, i: int)
    requires
        0 <= i < sigs.len(),
        sigs[i] == sig,
        forall|j: int| 0 <= j < i ==> sigs[j] != sig,
    ensures
        spec_find_sig(sigs, sig) == Some(i),
    decreases i,
{
    lemma_find_sig_skip(sigs, sig, i);
}

proof fn lemma_find_sig_some(sigs: Seq<Seq<Type>>, sig: Seq<Type>)
    requires
        spec_find_sig(sigs, sig) is Some,
    ensures
        ({
            let n = spec_find_sig(sigs, sig)->0;
            0 <= n < sigs.len() && sigs[n] == sig
        }),
    decreases sigs.len(),
{
    if sigs.len() > 0 && sigs[0] != sig {
        lemma_find_sig_some(sigs.skip(1), sig);
        assert(sigs.skip(1)[spec_find_sig(sigs.skip(1), sig)->0] ==
            sigs[spec_find_sig(sigs.skip(1), sig)->0 + 1]);
    }
}

} // verus!
