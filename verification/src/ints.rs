//! Rust's integer types as types and constants of the machine.

use vstd::prelude::*;
use crate::types::{IntType, IntWidth, Type, TypeConv};

verus! {

/// A Rust integer type whose values can be written as constants of the
/// machine.
pub trait IntConv: TypeConv + Sized {
    /// The machine's integer type for `Self`.
    spec fn int_type() -> IntType;

    /// The integer that `self` is.
    spec fn value_of(self) -> int;

    /// The bit pattern of `self`: the value itself where it is not negative,
    /// its two's complement at the type's width where it is.
    spec fn bits_of(self) -> u128;

    fn to_bits(self) -> (bits: u128)
        ensures
            bits == self.bits_of(),
    ;

    /// The bit pattern fits the type's width and stands for the value.
    proof fn bits_represent_value(self)
        ensures
            Self::type_of() == Type::Int(Self::int_type()),
            self.bits_of() < Self::int_type().width.modulus(),
            Self::int_type().value(self.bits_of()) == self.value_of(),
    ;
}

impl TypeConv for u8 {
    open spec fn type_of() -> Type {
        Type::Int(IntType { signed: false, width: IntWidth::W8 })
    }

    fn get_type() -> (ty: Type) {
        Type::Int(IntType { signed: false, width: IntWidth::W8 })
    }
}

impl IntConv for u8 {
    open spec fn int_type() -> IntType {
        IntType { signed: false, width: IntWidth::W8 }
    }

    open spec fn value_of(self) -> int {
        self as int
    }

    open spec fn bits_of(self) -> u128 {
        self as u128
    }

    fn to_bits(self) -> (bits: u128) {
        self as u128
    }

    proof fn bits_represent_value(self) {
    }
}

impl TypeConv for u16 {
    open spec fn type_of() -> Type {
        Type::Int(IntType { signed: false, width: IntWidth::W16 })
    }

    fn get_type() -> (ty: Type) {
        Type::Int(IntType { signed: false, width: IntWidth::W16 })
    }
}

impl IntConv for u16 {
    open spec fn int_type() -> IntType {
        IntType { signed: false, width: IntWidth::W16 }
    }

    open spec fn value_of(self) -> int {
        self as int
    }

    open spec fn bits_of(self) -> u128 {
        self as u128
    }

    fn to_bits(self) -> (bits: u128) {
        self as u128
    }

    proof fn bits_represent_value(self) {
    }
}

impl TypeConv for u32 {
    open spec fn type_of() -> Type {
        Type::Int(IntType { signed: false, width: IntWidth::W32 })
    }

    fn get_type() -> (ty: Type) {
        Type::Int(IntType { signed: false, width: IntWidth::W32 })
    }
}

impl IntConv for u32 {
    open spec fn int_type() -> IntType {
        IntType { signed: false, width: IntWidth::W32 }
    }

    open spec fn value_of(self) -> int {
        self as int
    }

    open spec fn bits_of(self) -> u128 {
        self as u128
    }

    fn to_bits(self) -> (bits: u128) {
        self as u128
    }

    proof fn bits_represent_value(self) {
    }
}

impl TypeConv for u64 {
    open spec fn type_of() -> Type {
        Type::Int(IntType { signed: false, width: IntWidth::W64 })
    }

    fn get_type() -> (ty: Type) {
        Type::Int(IntType { signed: false, width: IntWidth::W64 })
    }
}

impl IntConv for u64 {
    open spec fn int_type() -> IntType {
        IntType { signed: false, width: IntWidth::W64 }
    }

    open spec fn value_of(self) -> int {
        self as int
    }

    open spec fn bits_of(self) -> u128 {
        self as u128
    }

    fn to_bits(self) -> (bits: u128) {
        self as u128
    }

    proof fn bits_represent_value(self) {
    }
}

impl TypeConv for u128 {
    open spec fn type_of() -> Type {
        Type::Int(IntType { signed: false, width: IntWidth::W128 })
    }

    fn get_type() -> (ty: Type) {
        Type::Int(IntType { signed: false, width: IntWidth::W128 })
    }
}

impl IntConv for u128 {
    open spec fn int_type() -> IntType {
        IntType { signed: false, width: IntWidth::W128 }
    }

    open spec fn value_of(self) -> int {
        self as int
    }

    open spec fn bits_of(self) -> u128 {
        self as u128
    }

    fn to_bits(self) -> (bits: u128) {
        self as u128
    }

    proof fn bits_represent_value(self) {
    }
}

impl TypeConv for usize {
    open spec fn type_of() -> Type {
        Type::Int(IntType { signed: false, width: IntWidth::W64 })
    }

    fn get_type() -> (ty: Type) {
        Type::Int(IntType { signed: false, width: IntWidth::W64 })
    }
}

impl IntConv for usize {
    open spec fn int_type() -> IntType {
        IntType { signed: false, width: IntWidth::W64 }
    }

    open spec fn value_of(self) -> int {
        self as int
    }

    open spec fn bits_of(self) -> u128 {
        self as u128
    }

    fn to_bits(self) -> (bits: u128) {
        self as u128
    }

    proof fn bits_represent_value(self) {
    }
}

impl TypeConv for i8 {
    open spec fn type_of() -> Type {
        Type::Int(IntType { signed: true, width: IntWidth::W8 })
    }

    fn get_type() -> (ty: Type) {
        Type::Int(IntType { signed: true, width: IntWidth::W8 })
    }
}

impl IntConv for i8 {
    open spec fn int_type() -> IntType {
        IntType { signed: true, width: IntWidth::W8 }
    }

    open spec fn value_of(self) -> int {
        self as int
    }

    open spec fn bits_of(self) -> u128 {
        if self >= 0 {
            self as u128
        } else {
            (0x100int + self) as u128
        }
    }

    fn to_bits(self) -> (bits: u128) {
        if self >= 0 {
            self as u128
        } else {
            let below: i8 = -(self + 1);
            0xffu128 - (below as u128)
        }
    }

    proof fn bits_represent_value(self) {
    }
}

impl TypeConv for i16 {
    open spec fn type_of() -> Type {
        Type::Int(IntType { signed: true, width: IntWidth::W16 })
    }

    fn get_type() -> (ty: Type) {
        Type::Int(IntType { signed: true, width: IntWidth::W16 })
    }
}

impl IntConv for i16 {
    open spec fn int_type() -> IntType {
        IntType { signed: true, width: IntWidth::W16 }
    }

    open spec fn value_of(self) -> int {
        self as int
    }

    open spec fn bits_of(self) -> u128 {
        if self >= 0 {
            self as u128
        } else {
            (0x1_0000int + self) as u128
        }
    }

    fn to_bits(self) -> (bits: u128) {
        if self >= 0 {
            self as u128
        } else {
            let below: i16 = -(self + 1);
            0xffffu128 - (below as u128)
        }
    }

    proof fn bits_represent_value(self) {
    }
}

impl TypeConv for i32 {
    open spec fn type_of() -> Type {
        Type::Int(IntType { signed: true, width: IntWidth::W32 })
    }

    fn get_type() -> (ty: Type) {
        Type::Int(IntType { signed: true, width: IntWidth::W32 })
    }
}

impl IntConv for i32 {
    open spec fn int_type() -> IntType {
        IntType { signed: true, width: IntWidth::W32 }
    }

    open spec fn value_of(self) -> int {
        self as int
    }

    open spec fn bits_of(self) -> u128 {
        if self >= 0 {
            self as u128
        } else {
            (0x1_0000_0000int + self) as u128
        }
    }

    fn to_bits(self) -> (bits: u128) {
        if self >= 0 {
            self as u128
        } else {
            let below: i32 = -(self + 1);
            0xffff_ffffu128 - (below as u128)
        }
    }

    proof fn bits_represent_value(self) {
    }
}

impl TypeConv for i64 {
    open spec fn type_of() -> Type {
        Type::Int(IntType { signed: true, width: IntWidth::W64 })
    }

    fn get_type() -> (ty: Type) {
        Type::Int(IntType { signed: true, width: IntWidth::W64 })
    }
}

impl IntConv for i64 {
    open spec fn int_type() -> IntType {
        IntType { signed: true, width: IntWidth::W64 }
    }

    open spec fn value_of(self) -> int {
        self as int
    }

    open spec fn bits_of(self) -> u128 {
        if self >= 0 {
            self as u128
        } else {
            (0x1_0000_0000_0000_0000int + self) as u128
        }
    }

    fn to_bits(self) -> (bits: u128) {
        if self >= 0 {
            self as u128
        } else {
            let below: i64 = -(self + 1);
            0xffff_ffff_ffff_ffffu128 - (below as u128)
        }
    }

    proof fn bits_represent_value(self) {
    }
}

impl TypeConv for i128 {
    open spec fn type_of() -> Type {
        Type::Int(IntType { signed: true, width: IntWidth::W128 })
    }

    fn get_type() -> (ty: Type) {
        Type::Int(IntType { signed: true, width: IntWidth::W128 })
    }
}

impl IntConv for i128 {
    open spec fn int_type() -> IntType {
        IntType { signed: true, width: IntWidth::W128 }
    }

    open spec fn value_of(self) -> int {
        self as int
    }

    open spec fn bits_of(self) -> u128 {
        if self >= 0 {
            self as u128
        } else {
            (0x1_0000_0000_0000_0000_0000_0000_0000_0000int + self) as u128
        }
    }

    fn to_bits(self) -> (bits: u128) {
        if self >= 0 {
            self as u128
        } else {
            let below: i128 = -(self + 1);
            0xffff_ffff_ffff_ffff_ffff_ffff_ffff_ffffu128 - (below as u128)
        }
    }

    proof fn bits_represent_value(self) {
    }
}

impl TypeConv for isize {
    open spec fn type_of() -> Type {
        Type::Int(IntType { signed: true, width: IntWidth::W64 })
    }

    fn get_type() -> (ty: Type) {
        Type::Int(IntType { signed: true, width: IntWidth::W64 })
    }
}

impl IntConv for isize {
    open spec fn int_type() -> IntType {
        IntType { signed: true, width: IntWidth::W64 }
    }

    open spec fn value_of(self) -> int {
        self as int
    }

    open spec fn bits_of(self) -> u128 {
        if self >= 0 {
            self as u128
        } else {
            (0x1_0000_0000_0000_0000int + self) as u128
        }
    }

    fn to_bits(self) -> (bits: u128) {
        if self >= 0 {
            self as u128
        } else {
            let below: isize = -(self + 1);
            0xffff_ffff_ffff_ffffu128 - (below as u128)
        }
    }

    proof fn bits_represent_value(self) {
    }
}

} // verus!
