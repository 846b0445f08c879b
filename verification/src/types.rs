//! The catalogue of types: size, alignment and printed name of each.

use vstd::prelude::*;
use vstd::string::*;

verus! {

/// Number of bytes that a pointer value occupies in memory.
pub const PTR_SIZE: usize = 8;

/// Whether a reference permits writes through it.
#[derive(Clone, Copy, PartialEq, Eq, Structural, Debug)]
pub enum Mutability {
    Immutable,
    Mutable,
}

/// The width of a fixed-width integer, named by its number of bits.
#[derive(Clone, Copy, PartialEq, Eq, Structural, Debug)]
pub enum IntWidth {
    W8,
    W16,
    W32,
    W64,
    W128,
}

impl IntWidth {
    /// Number of bytes of an integer of this width.
    pub open spec fn size(self) -> nat {
        match self {
            IntWidth::W8 => 1,
            IntWidth::W16 => 2,
            IntWidth::W32 => 4,
            IntWidth::W64 => 8,
            IntWidth::W128 => 16,
        }
    }

    /// Number of bit patterns of this width: 256 to the power of `size()`.
    pub open spec fn modulus(self) -> nat {
        match self {
            IntWidth::W8 => 0x100,
            IntWidth::W16 => 0x1_0000,
            IntWidth::W32 => 0x1_0000_0000,
            IntWidth::W64 => 0x1_0000_0000_0000_0000,
            IntWidth::W128 => 0x1_0000_0000_0000_0000_0000_0000_0000_0000nat,
        }
    }

    pub fn get_size(self) -> (n: usize)
        ensures
            n == self.size(),
    {
        match self {
            IntWidth::W8 => 1,
            IntWidth::W16 => 2,
            IntWidth::W32 => 4,
            IntWidth::W64 => 8,
            IntWidth::W128 => 16,
        }
    }
}

/// A fixed-width integer type.
#[derive(Clone, Copy, PartialEq, Eq, Structural, Debug)]
pub struct IntType {
    pub signed: bool,
    pub width: IntWidth,
}

impl IntType {
    /// The integer that the bit pattern `bits` stands for at this type: the
    /// pattern itself where the type is unsigned, its two's complement
    /// reading where it is signed.
    pub open spec fn value(self, bits: u128) -> int {
        if self.signed && 2 * bits >= self.width.modulus() {
            bits - self.width.modulus()
        } else {
            bits as int
        }
    }

    /// The printed name of the type, as Rust writes it.
    pub open spec fn name(self) -> Seq<char> {
        match (self.signed, self.width) {
            (false, IntWidth::W8) => "u8"@,
            (false, IntWidth::W16) => "u16"@,
            (false, IntWidth::W32) => "u32"@,
            (false, IntWidth::W64) => "u64"@,
            (false, IntWidth::W128) => "u128"@,
            (true, IntWidth::W8) => "i8"@,
            (true, IntWidth::W16) => "i16"@,
            (true, IntWidth::W32) => "i32"@,
            (true, IntWidth::W64) => "i64"@,
            (true, IntWidth::W128) => "i128"@,
        }
    }

    pub fn get_name(self) -> (s: &'static str)
        ensures
            s@ == self.name(),
    {
        match (self.signed, self.width) {
            (false, IntWidth::W8) => "u8",
            (false, IntWidth::W16) => "u16",
            (false, IntWidth::W32) => "u32",
            (false, IntWidth::W64) => "u64",
            (false, IntWidth::W128) => "u128",
            (true, IntWidth::W8) => "i8",
            (true, IntWidth::W16) => "i16",
            (true, IntWidth::W32) => "i32",
            (true, IntWidth::W64) => "i64",
            (true, IntWidth::W128) => "i128",
        }
    }
}

/// A type at which memory can be read.
///
/// The validity invariant of each variant is stated where memory is read:
/// every initialised bit pattern is an integer, a boolean is the byte 0 or 1,
/// and a reference is a pointer to a live allocation of non-zero size,
/// whatever the pointee's type.
#[derive(PartialEq, Eq, Debug)]
pub enum Type {
    Int(IntType),
    Bool,
    Ref { pointee: Box<Type>, mutability: Mutability },
}

impl Clone for Type {
    fn clone(&self) -> (copy: Self)
        ensures
            copy == *self,
        decreases *self,
    {
        match self {
            Type::Int(int_type) => Type::Int(*int_type),
            Type::Bool => Type::Bool,
            Type::Ref { pointee, mutability } => Type::Ref {
                pointee: Box::new((**pointee).clone()),
                mutability: *mutability,
            },
        }
    }
}

impl Type {
    /// Number of bytes that a value of this type occupies.
    pub open spec fn size(self) -> nat {
        match self {
            Type::Int(int_type) => int_type.width.size(),
            Type::Bool => 1,
            Type::Ref { .. } => PTR_SIZE as nat,
        }
    }

    /// Alignment of this type, in bytes. Every type is aligned to its size.
    pub open spec fn align(self) -> nat {
        self.size()
    }

    /// The printed name of the type.
    pub open spec fn name(self) -> Seq<char>
        decreases self,
    {
        match self {
            Type::Int(int_type) => int_type.name(),
            Type::Bool => "Bool"@,
            Type::Ref { pointee, mutability: Mutability::Immutable } => "&"@ + pointee.name(),
            Type::Ref { pointee, mutability: Mutability::Mutable } => "&mut "@ + pointee.name(),
        }
    }

    pub fn get_size(&self) -> (n: usize)
        ensures
            n == self.size(),
            1 <= n <= 16,
    {
        match self {
            Type::Int(int_type) => int_type.width.get_size(),
            Type::Bool => 1,
            Type::Ref { .. } => PTR_SIZE,
        }
    }

    pub fn get_align(&self) -> (n: usize)
        ensures
            n == self.align(),
    {
        self.get_size()
    }

    pub fn get_name(&self) -> (s: String)
        ensures
            s@ == self.name(),
        decreases *self,
    {
        match self {
            Type::Int(int_type) => String::from_str(int_type.get_name()),
            Type::Bool => String::from_str("Bool"),
            Type::Ref { pointee, mutability } => {
                let inner = pointee.get_name();
                match mutability {
                    Mutability::Immutable => String::from_str("&").concat(inner.as_str()),
                    Mutability::Mutable => String::from_str("&mut ").concat(inner.as_str()),
                }
            },
        }
    }
}

/// A Rust type that stands for a type of the machine.
pub trait TypeConv {
    /// The machine type that `Self` stands for.
    spec fn type_of() -> Type;

    fn get_type() -> (ty: Type)
        ensures
            ty == Self::type_of(),
    ;
}

impl TypeConv for bool {
    open spec fn type_of() -> Type {
        Type::Bool
    }

    fn get_type() -> (ty: Type) {
        Type::Bool
    }
}

impl<'a, T: TypeConv> TypeConv for &'a T {
    open spec fn type_of() -> Type {
        Type::Ref { pointee: Box::new(T::type_of()), mutability: Mutability::Immutable }
    }

    fn get_type() -> (ty: Type) {
        Type::Ref { pointee: Box::new(T::get_type()), mutability: Mutability::Immutable }
    }
}

impl<'a, T: TypeConv> TypeConv for &'a mut T {
    open spec fn type_of() -> Type {
        Type::Ref { pointee: Box::new(T::type_of()), mutability: Mutability::Mutable }
    }

    fn get_type() -> (ty: Type) {
        Type::Ref { pointee: Box::new(T::get_type()), mutability: Mutability::Mutable }
    }
}

} // verus!
