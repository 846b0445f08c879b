//! Zero-initialised globals.

use vstd::prelude::*;
use crate::builder::ProgramBuilder;
use crate::error::ErrorKind;
use crate::program::{global_by_name, global_place, Global, GlobalName, PlaceExpr};
use crate::types::{TypeConv, PTR_SIZE};

verus! {

impl ProgramBuilder {
    /// Declares a global of zero bytes with the size and alignment of the
    /// type that `T` stands for, and returns its place, taken to hold a
    /// `T`. Reading a global made so never meets an uninitialised byte.
    /// Refused once the program is frozen.
    pub fn declare_global_zero_initialized<T: TypeConv>(&mut self) -> (declared: Result<
        PlaceExpr,
        ErrorKind,
    >)
        ensures
            match declared {
                Ok(place) => {
                    &&& !old(self).finished()
                    &&& place == global_place(
                        GlobalName(old(self).globals().len() as usize),
                        T::type_of(),
                    )
                    &&& final(self).globals().len() == old(self).globals().len() + 1
                    &&& final(self).globals().drop_last() == old(self).globals()
                    &&& final(self).globals().last().is_zeroed(
                        T::type_of().size(),
                        T::type_of().align(),
                    )
                    &&& final(self).functions() == old(self).functions()
                    &&& !final(self).finished()
                },
                Err(kind) => {
                    &&& old(self).finished()
                    &&& kind == ErrorKind::BuilderMisuse
                    &&& *final(self) == *old(self)
                },
            },
    {
        let global = global_int::<T>();
        match self.declare_global(global) {
            Ok(name) => {
                Ok(global_by_name::<T>(name))
            },
            Err(kind) => Err(kind),
        }
    }
}

/// A global of zero bytes with the size and alignment of the type that `T`
/// stands for.
pub fn global_int<T: TypeConv>() -> (global: Global)
    ensures
        global.is_zeroed(T::type_of().size(), T::type_of().align()),
{
    let ty = T::get_type();
    Global::zeroed(ty.get_size(), ty.get_align())
}

/// A global of zero bytes with the size and alignment of a pointer,
/// whatever `T` it points to.
pub fn global_ptr<T: TypeConv + ?Sized>() -> (global: Global)
    ensures
        global.is_zeroed(PTR_SIZE as nat, PTR_SIZE as nat),
{
    Global::zeroed(PTR_SIZE, PTR_SIZE)
}

} // verus!
