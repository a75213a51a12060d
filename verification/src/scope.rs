//! Nested lexical scopes. Frames are pushed on block entry and popped on
//! block exit in strict LIFO order; lookup walks frames innermost to
//! outermost. Declaring twice in one frame, assigning to an absent name,
//! and assigning an incompatible type are the three failures.

use vstd::prelude::*;
use crate::types::Type;
use crate::text::{chars_eq, copy_chars};
use crate::error::{CompileError, ErrorKind, undefined_variable_error, undefined_variable_message};

verus! {

#[derive(Debug)]
pub struct Binding {
    pub name: Vec<char>,
    pub kind: Type,
}

#[derive(Debug)]
pub struct SymbolTable {
    pub frames: Vec<Vec<Binding>>,
}

/// A frame as a mathematical sequence of (name, type) pairs.
pub open spec fn frame_view(f: Seq<Binding>) -> Seq<(Seq<char>, Type)> {
    f.map(|i: int, b: Binding| (b.name@, b.kind))
}

/// The table as a stack of frame views, outermost first.
pub open spec fn view_of(t: SymbolTable) -> Seq<Seq<(Seq<char>, Type)>> {
    t.frames@.map(|i: int, f: Vec<Binding>| frame_view(f@))
}

/// The first binding of `name` in one frame, scanned front to back.
pub open spec fn spec_find_in_frame(frame: Seq<(Seq<char>, Type)>, name: Seq<char>)
    -> Option<Type>
    decreases frame.len(),
{
    if frame.len() == 0 {
        None
    } else if frame[0].0 == name {
        Some(frame[0].1)
    } else {
        spec_find_in_frame(frame.skip(1), name)
    }
}

/// Lookup over a stack of frames, innermost (last) first.
pub open spec fn spec_lookup(frames: Seq<Seq<(Seq<char>, Type)>>, name: Seq<char>)
    -> Option<Type>
    decreases frames.len(),
{
    if frames.len() == 0 {
        None
    } else {
        match spec_find_in_frame(frames.last(), name) {
            Some(t) => Some(t),
            None => spec_lookup(frames.drop_last(), name),
        }
    }
}

fn find_in_frame(frame: &Vec<Binding>, name: &Vec<char>) -> (r: Option<Type>)
    ensures
        r == spec_find_in_frame(frame_view(frame@), name@),
{
    let ghost fv = frame_view(frame@);
    let mut i: usize = 0;
    proof {
        assert(fv.skip(0) =~= fv);
    }
    while i < frame.len()
        invariant
            i <= frame.len(),
            fv == frame_view(frame@),
            fv.len() == frame@.len(),
            spec_find_in_frame(fv, name@) == spec_find_in_frame(fv.skip(i as int), name@),
        decreases frame.len() - i,
    {
        proof {
            assert(fv.skip(i as int)[0] == fv[i as int]);
            assert(fv.skip(i as int).skip(1) =~= fv.skip(i as int + 1));
            assert(fv[i as int] == (frame@[i as int].name@, frame@[i as int].kind));
        }
        if chars_eq(&frame[i].name, name) {
            return Some(frame[i].kind);
        }
        i = i + 1;
    }
    proof {
        assert(fv.skip(i as int).len() == 0);
    }
    None
}

impl SymbolTable {
    /// An empty stack of scopes.
    pub fn new() -> (r: SymbolTable)
        ensures
            view_of(r) =~= Seq::<Seq<(Seq<char>, Type)>>::empty(),
    {
        SymbolTable { frames: Vec::new() }
    }

    /// Enter a block: push an empty innermost frame.
    pub fn push_scope(&mut self)
        ensures
            view_of(*final(self)) =~= view_of(*old(self)).push(
                Seq::<(Seq<char>, Type)>::empty()),
    {
        self.frames.push(Vec::new());
        proof {
            assert(frame_view(Seq::<Binding>::empty()) =~= Seq::<(Seq<char>, Type)>::empty());
            assert(view_of(*self) =~= view_of(*old(self)).push(
                Seq::<(Seq<char>, Type)>::empty()));
        }
    }

    /// Leave a block: the innermost frame never outlives it.
    pub fn pop_scope(&mut self)
        ensures
            old(self).frames@.len() == 0 ==> view_of(*final(self)) =~= view_of(*old(self)),
            old(self).frames@.len() > 0 ==> view_of(*final(self)) =~= view_of(*old(self)).drop_last(),
    {
        if self.frames.len() > 0 {
            self.frames.pop();
            proof {
                assert(view_of(*self) =~= view_of(*old(self)).drop_last());
            }
        }
    }

    /// The innermost-to-outermost lookup of a name's type.
    pub fn lookup(&self, name: &Vec<char>) -> (r: Option<Type>)
        ensures
            r == spec_lookup(view_of(*self), name@),
    {
        let ghost frames = view_of(*self);
        let mut k: usize = self.frames.len();
        proof {
            assert(frames.take(frames.len() as int) =~= frames);
        }
        while k > 0
            invariant
                k <= self.frames.len(),
                frames == view_of(*self),
                frames.len() == self.frames@.len(),
                spec_lookup(frames, name@) == spec_lookup(frames.take(k as int), name@),
            decreases k,
        {
            proof {
                assert(frames.take(k as int).last() == frames[k - 1]);
                assert(frames.take(k as int).drop_last() =~= frames.take(k as int - 1));
                assert(frames[k - 1] == frame_view(self.frames@[k - 1]@));
            }
            let found = find_in_frame(&self.frames[k - 1], name);
            if found.is_some() {
                return found;
            }
            k = k - 1;
        }
        proof {
            assert(frames.take(0).len() == 0);
        }
        None
    }

    /// Declare a fresh binding in the innermost frame. Fails with
    /// `DuplicateBinding` exactly when the name is already bound in the
    /// innermost frame (outer frames may shadow freely).
    pub fn declare(&mut self, name: &Vec<char>, kind: Type, row: usize, col: usize)
        -> (r: Result<(), CompileError>)
        requires
            old(self).frames@.len() > 0,
        ensures
            match r {
                Ok(()) => {
                    &&& spec_find_in_frame(view_of(*old(self)).last(), name@) is None
                    &&& view_of(*final(self)) =~~= view_of(*old(self)).drop_last().push(
                        view_of(*old(self)).last().push((name@, kind)))
                },
                Err(e) => {
                    &&& spec_find_in_frame(view_of(*old(self)).last(), name@) is Some
                    &&& e.kind == ErrorKind::DuplicateBinding
                    &&& *final(self) == *old(self)
                },
            },
    {
        let top = self.frames.len() - 1;
        proof {
            assert(view_of(*self).last() == frame_view(self.frames@[top as int]@));
        }
        if find_in_frame(&self.frames[top], name).is_some() {
            let mut msg: Vec<char> = Vec::new();
            crate::text::push_str_chars(&mut msg, "Variable '");
            crate::text::push_chars(&mut msg, name);
            crate::text::push_str_chars(&mut msg, "' is already declared in this scope");
            return Err(CompileError::new(ErrorKind::DuplicateBinding, row, col, &msg));
        }
        let b = Binding { name: copy_chars(name), kind };
        let mut frame = self.frames.pop().unwrap();
        frame.push(b);
        self.frames.push(frame);
        proof {
            assert(frame_view(frame@) =~= frame_view(old(self).frames@[top as int]@).push(
                (name@, kind)));
            assert(view_of(*self) =~~= view_of(*old(self)).drop_last().push(
                view_of(*old(self)).last().push((name@, kind))));
        }
        Ok(())
    }

    /// Assign to an existing binding. Fails with `UndefinedVariable` (and
    /// the diagnostic naming the identifier) exactly when no frame binds the
    /// name, and with `TypeMismatch` exactly when the binding's type differs
    /// from the assigned one. Never changes the table.
    pub fn assign(&self, name: &Vec<char>, kind: Type, row: usize, col: usize)
        -> (r: Result<(), CompileError>)
        ensures
            match r {
                Ok(()) => spec_lookup(view_of(*self), name@) == Some(kind),
                Err(e) => {
                    &&& (e.kind == ErrorKind::UndefinedVariable
                        || e.kind == ErrorKind::TypeMismatch)
                    &&& (e.kind == ErrorKind::UndefinedVariable <==>
                        spec_lookup(view_of(*self), name@) is None)
                    &&& (e.kind == ErrorKind::TypeMismatch ==>
                        spec_lookup(view_of(*self), name@) is Some
                        && spec_lookup(view_of(*self), name@) != Some(kind))
                    &&& (e.kind == ErrorKind::UndefinedVariable ==>
                        e.message is Some && e.message->0@ == undefined_variable_message(name@))
                },
            },
    {
        match self.lookup(name) {
            None => Err(undefined_variable_error(name, row, col)),
            Some(t) => {
                if t == kind {
                    Ok(())
                } else {
                    let mut msg: Vec<char> = Vec::new();
                    crate::text::push_str_chars(&mut msg, "Variable '");
                    crate::text::push_chars(&mut msg, name);
                    crate::text::push_str_chars(&mut msg, "' cannot change its type");
                    Err(CompileError::new(ErrorKind::TypeMismatch, row, col, &msg))
                }
            }
        }
    }
}

} // verus!
