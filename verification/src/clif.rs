//! The boundary to Cranelift's function builder: the integer constants and
//! the arithmetic, comparison, address and store instructions that the
//! handlers insert.
use vstd::prelude::*;
use cranelift::prelude::{types, FunctionBuilder, InstBuilder, MemFlags, Type, Value};
use crate::infix::{InfixInst, IntCond};

verus! {

#[verifier::external_type_specification]
#[verifier::external_body]
pub struct ExFunctionBuilder<'a>(FunctionBuilder<'a>);

#[verifier::external_type_specification]
#[verifier::external_body]
pub struct ExValue(Value);

#[verifier::external_type_specification]
#[verifier::external_body]
pub struct ExType(Type);

#[verifier::external_type_specification]
#[verifier::external_body]
pub struct ExIntCC(cranelift::prelude::IntCC);

/// Cranelift's scalar integer types.
#[derive(Clone, Copy, Debug, PartialEq, Eq, Structural)]
pub enum ClifInt {
    I8,
    I16,
    I32,
    I64,
}

/// The number of values of an integer type narrower than 64 bits.
pub open spec fn clif_modulus(t: ClifInt) -> int {
    match t {
        ClifInt::I8 => 0x100,
        ClifInt::I16 => 0x1_0000,
        ClifInt::I32 => 0x1_0000_0000,
        ClifInt::I64 => 0x1_0000_0000_0000_0000,
    }
}

/// The immediate that `iconst` stores for `imm` at type `t`: below 64 bits
/// it keeps only the low bits of `imm`.
pub open spec fn masked_imm(t: ClifInt, imm: i64) -> i64 {
    match t {
        ClifInt::I64 => imm,
        _ => (imm as int % clif_modulus(t)) as i64,
    }
}

impl ClifInt {
    /// Converts to the Cranelift `Type` of the same name.
    #[verifier::external_body]
    fn to_type(self) -> Type {
        match self {
            ClifInt::I8 => types::I8,
            ClifInt::I16 => types::I16,
            ClifInt::I32 => types::I32,
            ClifInt::I64 => types::I64,
        }
    }
}

/// Converts to Cranelift's condition code of the same name.
#[verifier::external_body]
fn to_condition(cc: IntCond) -> cranelift::prelude::IntCC {
    match cc {
        IntCond::SignedGreaterThan => cranelift::prelude::IntCC::SignedGreaterThan,
        IntCond::SignedLessThan => cranelift::prelude::IntCC::SignedLessThan,
        IntCond::Equal => cranelift::prelude::IntCC::Equal,
        IntCond::NotEqual => cranelift::prelude::IntCC::NotEqual,
    }
}

/// Whether the builder has a current block that instructions can be appended
/// to: one that was switched to and is not yet ended by a terminator.
pub uninterp spec fn builder_positioned(b: FunctionBuilder<'_>) -> bool;

/// Whether `v` is a value of the function being built.
pub uninterp spec fn builder_defines(b: FunctionBuilder<'_>, v: Value) -> bool;

/// The `iconst` instructions of the function being built, in the order they
/// were created: their type, stored immediate and result.
pub uninterp spec fn builder_iconsts(b: FunctionBuilder<'_>) -> Seq<(ClifInt, i64, Value)>;

/// A two-operand instruction of the function being built: what it computes,
/// its operands and its result.
pub struct ClifBinary {
    pub inst: InfixInst,
    pub x: Value,
    pub y: Value,
    pub result: Value,
}

/// The two-operand instructions of the kinds in `InfixInst` of the function
/// being built, in the order they were created.
pub uninterp spec fn builder_binaries(b: FunctionBuilder<'_>) -> Seq<ClifBinary>;

/// The `iadd_imm` instructions of the function being built, in the order they
/// were created: their operand, immediate and result.
pub uninterp spec fn builder_imm_adds(b: FunctionBuilder<'_>) -> Seq<(Value, i64, Value)>;

/// The `store` instructions of the function being built, in the order they
/// were created: the value stored and the address it is stored at (default
/// flags, no offset).
pub uninterp spec fn builder_stores(b: FunctionBuilder<'_>) -> Seq<(Value, Value)>;

/// An instruction was appended to the current block, which stays current, and
/// its result `v` is a new value; the values already there stay.
pub open spec fn appended(before: FunctionBuilder<'_>, after: FunctionBuilder<'_>, v: Value) -> bool {
    &&& builder_positioned(after)
    &&& builder_defines(after, v)
    &&& forall|w: Value| builder_defines(before, w) ==> #[trigger] builder_defines(after, w)
}

/// The values of `before` are values of `after`.
pub open spec fn keeps_values(before: FunctionBuilder<'_>, after: FunctionBuilder<'_>) -> bool {
    forall|w: Value| builder_defines(before, w) ==> #[trigger] builder_defines(after, w)
}

/// The address and store instructions of `before` are still those that
/// `after` starts with.
pub open spec fn extends_records(before: FunctionBuilder<'_>, after: FunctionBuilder<'_>) -> bool {
    &&& builder_stores(before).len() <= builder_stores(after).len()
    &&& forall|k: int|
        0 <= k < builder_stores(before).len() ==> #[trigger] builder_stores(after)[k] == builder_stores(
            before,
        )[k]
    &&& builder_imm_adds(before).len() <= builder_imm_adds(after).len()
    &&& forall|k: int|
        0 <= k < builder_imm_adds(before).len() ==> #[trigger] builder_imm_adds(after)[k]
            == builder_imm_adds(before)[k]
}

/// `after` is `before` with the instruction `inst` on `x` and `y` appended,
/// whose result is `v`.
pub open spec fn binary_appended(
    before: FunctionBuilder<'_>,
    after: FunctionBuilder<'_>,
    inst: InfixInst,
    x: Value,
    y: Value,
    v: Value,
) -> bool {
    &&& appended(before, after, v)
    &&& builder_iconsts(after) == builder_iconsts(before)
    &&& builder_binaries(after) == builder_binaries(before).push(
        ClifBinary { inst, x, y, result: v },
    )
}

/// What an instruction on `x` and `y` needs: a current block, and `x` and `y`
/// values of the function (the builder panics otherwise).
pub open spec fn binary_ready(b: FunctionBuilder<'_>, x: Value, y: Value) -> bool {
    &&& builder_positioned(b)
    &&& builder_defines(b, x)
    &&& builder_defines(b, y)
}

/// `FunctionBuilder::ins().iconst(ty, imm)`: appends an integer constant to
/// the current block and returns its value. Inserting needs a current block
/// (the builder panics otherwise); the current block stays the same.
#[verifier::external_body]
pub(crate) fn builder_iconst(b: &mut FunctionBuilder<'_>, ty: ClifInt, imm: i64) -> (v: Value)
    requires
        builder_positioned(*old(b)),
    ensures
        builder_positioned(*final(b)),
        builder_defines(*final(b), v),
        forall|w: Value| builder_defines(*old(b), w) ==> #[trigger] builder_defines(*final(b), w),
        builder_iconsts(*final(b)) == builder_iconsts(*old(b)).push((ty, masked_imm(ty, imm), v)),
        builder_binaries(*final(b)) == builder_binaries(*old(b)),
        builder_imm_adds(*final(b)) == builder_imm_adds(*old(b)),
        builder_stores(*final(b)) == builder_stores(*old(b)),
{
    b.ins().iconst(ty.to_type(), imm)
}

/// `FunctionBuilder::ins().iadd(x, y)`: appends a wrapping integer addition
/// of `x` and `y` to the current block and returns its result.
#[verifier::external_body]
pub(crate) fn builder_iadd(b: &mut FunctionBuilder<'_>, x: Value, y: Value) -> (v: Value)
    requires
        builder_positioned(*old(b)),
        builder_defines(*old(b), x),
        builder_defines(*old(b), y),
    ensures
        builder_positioned(*final(b)),
        builder_defines(*final(b), v),
        forall|w: Value| builder_defines(*old(b), w) ==> #[trigger] builder_defines(*final(b), w),
        builder_iconsts(*final(b)) == builder_iconsts(*old(b)),
        builder_binaries(*final(b)) == builder_binaries(*old(b)).push(
            (ClifBinary { inst: InfixInst::Iadd, x, y, result: v }),
        ),
        builder_imm_adds(*final(b)) == builder_imm_adds(*old(b)),
        builder_stores(*final(b)) == builder_stores(*old(b)),
{
    b.ins().iadd(x, y)
}

/// `FunctionBuilder::ins().isub(x, y)`: appends a wrapping integer
/// subtraction of `y` from `x` to the current block and returns its result.
#[verifier::external_body]
pub(crate) fn builder_isub(b: &mut FunctionBuilder<'_>, x: Value, y: Value) -> (v: Value)
    requires
        builder_positioned(*old(b)),
        builder_defines(*old(b), x),
        builder_defines(*old(b), y),
    ensures
        builder_positioned(*final(b)),
        builder_defines(*final(b), v),
        forall|w: Value| builder_defines(*old(b), w) ==> #[trigger] builder_defines(*final(b), w),
        builder_iconsts(*final(b)) == builder_iconsts(*old(b)),
        builder_binaries(*final(b)) == builder_binaries(*old(b)).push(
            (ClifBinary { inst: InfixInst::Isub, x, y, result: v }),
        ),
        builder_imm_adds(*final(b)) == builder_imm_adds(*old(b)),
        builder_stores(*final(b)) == builder_stores(*old(b)),
{
    b.ins().isub(x, y)
}

/// `FunctionBuilder::ins().imul(x, y)`: appends a wrapping integer
/// multiplication of `x` and `y` to the current block and returns its result.
#[verifier::external_body]
pub(crate) fn builder_imul(b: &mut FunctionBuilder<'_>, x: Value, y: Value) -> (v: Value)
    requires
        builder_positioned(*old(b)),
        builder_defines(*old(b), x),
        builder_defines(*old(b), y),
    ensures
        builder_positioned(*final(b)),
        builder_defines(*final(b), v),
        forall|w: Value| builder_defines(*old(b), w) ==> #[trigger] builder_defines(*final(b), w),
        builder_iconsts(*final(b)) == builder_iconsts(*old(b)),
        builder_binaries(*final(b)) == builder_binaries(*old(b)).push(
            (ClifBinary { inst: InfixInst::Imul, x, y, result: v }),
        ),
        builder_imm_adds(*final(b)) == builder_imm_adds(*old(b)),
        builder_stores(*final(b)) == builder_stores(*old(b)),
{
    b.ins().imul(x, y)
}

/// `FunctionBuilder::ins().fdiv(x, y)`: appends a floating-point division of
/// `x` by `y` to the current block and returns its result. The builder does
/// not check operand types; Cranelift's verifier does, later.
#[verifier::external_body]
pub(crate) fn builder_fdiv(b: &mut FunctionBuilder<'_>, x: Value, y: Value) -> (v: Value)
    requires
        builder_positioned(*old(b)),
        builder_defines(*old(b), x),
        builder_defines(*old(b), y),
    ensures
        builder_positioned(*final(b)),
        builder_defines(*final(b), v),
        forall|w: Value| builder_defines(*old(b), w) ==> #[trigger] builder_defines(*final(b), w),
        builder_iconsts(*final(b)) == builder_iconsts(*old(b)),
        builder_binaries(*final(b)) == builder_binaries(*old(b)).push(
            (ClifBinary { inst: InfixInst::Fdiv, x, y, result: v }),
        ),
        builder_imm_adds(*final(b)) == builder_imm_adds(*old(b)),
        builder_stores(*final(b)) == builder_stores(*old(b)),
{
    b.ins().fdiv(x, y)
}

/// `FunctionBuilder::ins().icmp(cc, x, y)`: appends an integer comparison of
/// `x` and `y` under the condition `cc` to the current block and returns its
/// result.
#[verifier::external_body]
pub(crate) fn builder_compare(b: &mut FunctionBuilder<'_>, cc: IntCond, x: Value, y: Value) -> (v: Value)
    requires
        builder_positioned(*old(b)),
        builder_defines(*old(b), x),
        builder_defines(*old(b), y),
    ensures
        builder_positioned(*final(b)),
        builder_defines(*final(b), v),
        forall|w: Value| builder_defines(*old(b), w) ==> #[trigger] builder_defines(*final(b), w),
        builder_iconsts(*final(b)) == builder_iconsts(*old(b)),
        builder_binaries(*final(b)) == builder_binaries(*old(b)).push(
            (ClifBinary { inst: InfixInst::Icmp(cc), x, y, result: v }),
        ),
        builder_imm_adds(*final(b)) == builder_imm_adds(*old(b)),
        builder_stores(*final(b)) == builder_stores(*old(b)),
{
    b.ins().icmp(to_condition(cc), x, y)
}

/// `FunctionBuilder::ins().iadd_imm(x, imm)`: appends the addition of the
/// immediate `imm` to `x` to the current block and returns its result.
#[verifier::external_body]
pub(crate) fn builder_iadd_imm(b: &mut FunctionBuilder<'_>, x: Value, imm: i64) -> (v: Value)
    requires
        builder_positioned(*old(b)),
        builder_defines(*old(b), x),
    ensures
        builder_positioned(*final(b)),
        builder_defines(*final(b), v),
        forall|w: Value| builder_defines(*old(b), w) ==> #[trigger] builder_defines(*final(b), w),
        builder_iconsts(*final(b)) == builder_iconsts(*old(b)),
        builder_binaries(*final(b)) == builder_binaries(*old(b)),
        builder_imm_adds(*final(b)) == builder_imm_adds(*old(b)).push((x, imm, v)),
        builder_stores(*final(b)) == builder_stores(*old(b)),
{
    b.ins().iadd_imm(x, imm)
}

/// `FunctionBuilder::ins().store(MemFlags::new(), x, p, 0)`: appends a store
/// of `x` at the address `p` to the current block.
#[verifier::external_body]
pub(crate) fn builder_store(b: &mut FunctionBuilder<'_>, x: Value, p: Value)
    requires
        builder_positioned(*old(b)),
        builder_defines(*old(b), x),
        builder_defines(*old(b), p),
    ensures
        builder_positioned(*final(b)),
        forall|w: Value| builder_defines(*old(b), w) ==> #[trigger] builder_defines(*final(b), w),
        builder_iconsts(*final(b)) == builder_iconsts(*old(b)),
        builder_binaries(*final(b)) == builder_binaries(*old(b)),
        builder_imm_adds(*final(b)) == builder_imm_adds(*old(b)),
        builder_stores(*final(b)) == builder_stores(*old(b)).push((x, p)),
{
    b.ins().store(MemFlags::new(), x, p, 0);
}

} // verus!
