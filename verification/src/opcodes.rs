//! The opcode catalog: every defined opcode, its numeric byte value, and the
//! lookup in both directions.

use vstd::prelude::*;
use vstd::std_specs::convert::TryFromSpec;

verus! {

/// Why a byte, or a stream of bytes, could not be decoded.
#[derive(Debug, Clone, Copy, PartialEq, Eq, Structural)]
pub enum Error {
    /// The byte names no opcode.
    UnknownOpcode(u8),
    /// Fewer bytes remain than the instruction needs.
    TruncatedInstruction,
    /// A jump table whose low bound exceeds its high bound.
    InvalidSwitchRange,
    /// A wide prefix that is not followed by an opcode it can widen.
    MisplacedWidePrefix,
}

/// An opcode of the JVM: the identity of an instruction, without its operands.
///
/// The variants stand in the order of their numeric values.
#[derive(Debug, Clone, Copy, PartialEq, Eq, Structural)]
pub enum Opcode {
    /// `nop` (0x00): do nothing.
    Nop,
    /// `aconst_null` (0x01): push `null`.
    AConstNull,
    /// `iconst_m1` (0x02): push the `int` constant -1.
    IConstM1,
    /// `iconst_0` (0x03): push the `int` constant 0.
    IConst0,
    /// `iconst_1` (0x04): push the `int` constant 1.
    IConst1,
    /// `iconst_2` (0x05): push the `int` constant 2.
    IConst2,
    /// `iconst_3` (0x06): push the `int` constant 3.
    IConst3,
    /// `iconst_4` (0x07): push the `int` constant 4.
    IConst4,
    /// `iconst_5` (0x08): push the `int` constant 5.
    IConst5,
    /// `lconst_0` (0x09): push the `long` constant 0.
    LConst0,
    /// `lconst_1` (0x0a): push the `long` constant 1.
    LConst1,
    /// `fconst_0` (0x0b): push the `float` constant 0.
    FConst0,
    /// `fconst_1` (0x0c): push the `float` constant 1.
    FConst1,
    /// `fconst_2` (0x0d): push the `float` constant 2.
    FConst2,
    /// `dconst_0` (0x0e): push the `double` constant 0.
    DConst0,
    /// `dconst_1` (0x0f): push the `double` constant 1.
    DConst1,
    /// `bipush` (0x10): push a signed byte, sign-extended to `int`.
    BIPush,
    /// `sipush` (0x11): push a signed short, sign-extended to `int`.
    SIPush,
    /// `ldc` (0x12): push an item of the constant pool, by a one-byte index.
    Ldc,
    /// `ldc_w` (0x13): push an item of the constant pool, by a two-byte index.
    LdcW,
    /// `ldc2_w` (0x14): push a `long` or `double` of the constant pool.
    Ldc2W,
    /// `iload` (0x15): load `int` from a local variable.
    ILoad,
    /// `lload` (0x16): load `long` from a local variable.
    LLoad,
    /// `fload` (0x17): load `float` from a local variable.
    FLoad,
    /// `dload` (0x18): load `double` from a local variable.
    DLoad,
    /// `aload` (0x19): load `reference` from a local variable.
    ALoad,
    /// `iload_0` (0x1a): load `int` from local variable 0.
    ILoad0,
    /// `iload_1` (0x1b): load `int` from local variable 1.
    ILoad1,
    /// `iload_2` (0x1c): load `int` from local variable 2.
    ILoad2,
    /// `iload_3` (0x1d): load `int` from local variable 3.
    ILoad3,
    /// `lload_0` (0x1e): load `long` from local variable 0.
    LLoad0,
    /// `lload_1` (0x1f): load `long` from local variable 1.
    LLoad1,
    /// `lload_2` (0x20): load `long` from local variable 2.
    LLoad2,
    /// `lload_3` (0x21): load `long` from local variable 3.
    LLoad3,
    /// `fload_0` (0x22): load `float` from local variable 0.
    FLoad0,
    /// `fload_1` (0x23): load `float` from local variable 1.
    FLoad1,
    /// `fload_2` (0x24): load `float` from local variable 2.
    FLoad2,
    /// `fload_3` (0x25): load `float` from local variable 3.
    FLoad3,
    /// `dload_0` (0x26): load `double` from local variable 0.
    DLoad0,
    /// `dload_1` (0x27): load `double` from local variable 1.
    DLoad1,
    /// `dload_2` (0x28): load `double` from local variable 2.
    DLoad2,
    /// `dload_3` (0x29): load `double` from local variable 3.
    DLoad3,
    /// `aload_0` (0x2a): load `reference` from local variable 0.
    ALoad0,
    /// `aload_1` (0x2b): load `reference` from local variable 1.
    ALoad1,
    /// `aload_2` (0x2c): load `reference` from local variable 2.
    ALoad2,
    /// `aload_3` (0x2d): load `reference` from local variable 3.
    ALoad3,
    /// `iaload` (0x2e): load `int` from an array.
    IALoad,
    /// `laload` (0x2f): load `long` from an array.
    LALoad,
    /// `faload` (0x30): load `float` from an array.
    FALoad,
    /// `daload` (0x31): load `double` from an array.
    DALoad,
    /// `aaload` (0x32): load `reference` from an array.
    AALoad,
    /// `baload` (0x33): load `byte` or `boolean` from an array.
    BALoad,
    /// `caload` (0x34): load `char` from an array.
    CALoad,
    /// `saload` (0x35): load `short` from an array.
    SALoad,
    /// `istore` (0x36): store `int` into a local variable.
    IStore,
    /// `lstore` (0x37): store `long` into a local variable.
    LStore,
    /// `fstore` (0x38): store `float` into a local variable.
    FStore,
    /// `dstore` (0x39): store `double` into a local variable.
    DStore,
    /// `astore` (0x3a): store `reference` into a local variable.
    AStore,
    /// `istore_0` (0x3b): store `int` into local variable 0.
    IStore0,
    /// `istore_1` (0x3c): store `int` into local variable 1.
    IStore1,
    /// `istore_2` (0x3d): store `int` into local variable 2.
    IStore2,
    /// `istore_3` (0x3e): store `int` into local variable 3.
    IStore3,
    /// `lstore_0` (0x3f): store `long` into local variable 0.
    LStore0,
    /// `lstore_1` (0x40): store `long` into local variable 1.
    LStore1,
    /// `lstore_2` (0x41): store `long` into local variable 2.
    LStore2,
    /// `lstore_3` (0x42): store `long` into local variable 3.
    LStore3,
    /// `fstore_0` (0x43): store `float` into local variable 0.
    FStore0,
    /// `fstore_1` (0x44): store `float` into local variable 1.
    FStore1,
    /// `fstore_2` (0x45): store `float` into local variable 2.
    FStore2,
    /// `fstore_3` (0x46): store `float` into local variable 3.
    FStore3,
    /// `dstore_0` (0x47): store `double` into local variable 0.
    DStore0,
    /// `dstore_1` (0x48): store `double` into local variable 1.
    DStore1,
    /// `dstore_2` (0x49): store `double` into local variable 2.
    DStore2,
    /// `dstore_3` (0x4a): store `double` into local variable 3.
    DStore3,
    /// `astore_0` (0x4b): store `reference` into local variable 0.
    AStore0,
    /// `astore_1` (0x4c): store `reference` into local variable 1.
    AStore1,
    /// `astore_2` (0x4d): store `reference` into local variable 2.
    AStore2,
    /// `astore_3` (0x4e): store `reference` into local variable 3.
    AStore3,
    /// `iastore` (0x4f): store `int` into an array.
    IAStore,
    /// `lastore` (0x50): store `long` into an array.
    LAStore,
    /// `fastore` (0x51): store `float` into an array.
    FAStore,
    /// `dastore` (0x52): store `double` into an array.
    DAStore,
    /// `aastore` (0x53): store `reference` into an array.
    AAStore,
    /// `bastore` (0x54): store `byte` or `boolean` into an array.
    BAStore,
    /// `castore` (0x55): store `char` into an array.
    CAStore,
    /// `sastore` (0x56): store `short` into an array.
    SAStore,
    /// `pop` (0x57): pop the top operand stack value.
    Pop,
    /// `pop2` (0x58): pop the top one or two operand stack values.
    Pop2,
    /// `dup` (0x59): duplicate the top operand stack value.
    Dup,
    /// `dup_x1` (0x5a): duplicate the top value, two values down.
    DupX1,
    /// `dup_x2` (0x5b): duplicate the top value, two or three values down.
    DupX2,
    /// `dup2` (0x5c): duplicate the top one or two operand stack values.
    Dup2,
    /// `dup2_x1` (0x5d): duplicate the top one or two values, two or three values down.
    Dup2X1,
    /// `dup2_x2` (0x5e): duplicate the top one or two values, two to four values down.
    Dup2X2,
    /// `swap` (0x5f): swap the two top operand stack values.
    Swap,
    /// `iadd` (0x60): add `int`.
    IAdd,
    /// `ladd` (0x61): add `long`.
    LAdd,
    /// `fadd` (0x62): add `float`.
    FAdd,
    /// `dadd` (0x63): add `double`.
    DAdd,
    /// `isub` (0x64): subtract `int`.
    ISub,
    /// `lsub` (0x65): subtract `long`.
    LSub,
    /// `fsub` (0x66): subtract `float`.
    FSub,
    /// `dsub` (0x67): subtract `double`.
    DSub,
    /// `imul` (0x68): multiply `int`.
    IMul,
    /// `lmul` (0x69): multiply `long`.
    LMul,
    /// `fmul` (0x6a): multiply `float`.
    FMul,
    /// `dmul` (0x6b): multiply `double`.
    DMul,
    /// `idiv` (0x6c): divide `int`.
    IDiv,
    /// `ldiv` (0x6d): divide `long`.
    LDiv,
    /// `fdiv` (0x6e): divide `float`.
    FDiv,
    /// `ddiv` (0x6f): divide `double`.
    DDiv,
    /// `irem` (0x70): remainder of `int`.
    IRem,
    /// `lrem` (0x71): remainder of `long`.
    LRem,
    /// `frem` (0x72): remainder of `float`.
    FRem,
    /// `drem` (0x73): remainder of `double`.
    DRem,
    /// `ineg` (0x74): negate `int`.
    INeg,
    /// `lneg` (0x75): negate `long`.
    LNeg,
    /// `fneg` (0x76): negate `float`.
    FNeg,
    /// `dneg` (0x77): negate `double`.
    DNeg,
    /// `ishl` (0x78): shift left `int`.
    IShl,
    /// `lshl` (0x79): shift left `long`.
    LShl,
    /// `ishr` (0x7a): arithmetic shift right `int`.
    IShr,
    /// `lshr` (0x7b): arithmetic shift right `long`.
    LShr,
    /// `iushr` (0x7c): logical shift right `int`.
    IUShr,
    /// `lushr` (0x7d): logical shift right `long`.
    LUShr,
    /// `iand` (0x7e): bitwise and of `int`.
    IAnd,
    /// `land` (0x7f): bitwise and of `long`.
    LAnd,
    /// `ior` (0x80): bitwise or of `int`.
    IOr,
    /// `lor` (0x81): bitwise or of `long`.
    LOr,
    /// `ixor` (0x82): bitwise exclusive or of `int`.
    IXor,
    /// `lxor` (0x83): bitwise exclusive or of `long`.
    LXor,
    /// `iinc` (0x84): increment a local variable by a constant.
    IInc,
    /// `i2l` (0x85): convert `int` to `long`.
    I2l,
    /// `i2f` (0x86): convert `int` to `float`.
    I2f,
    /// `i2d` (0x87): convert `int` to `double`.
    I2d,
    /// `l2i` (0x88): convert `long` to `int`.
    L2i,
    /// `l2f` (0x89): convert `long` to `float`.
    L2f,
    /// `l2d` (0x8a): convert `long` to `double`.
    L2d,
    /// `f2i` (0x8b): convert `float` to `int`.
    F2i,
    /// `f2l` (0x8c): convert `float` to `long`.
    F2l,
    /// `f2d` (0x8d): convert `float` to `double`.
    F2d,
    /// `d2i` (0x8e): convert `double` to `int`.
    D2i,
    /// `d2l` (0x8f): convert `double` to `long`.
    D2l,
    /// `d2f` (0x90): convert `double` to `float`.
    D2f,
    /// `i2b` (0x91): convert `int` to `byte`.
    I2b,
    /// `i2c` (0x92): convert `int` to `char`.
    I2c,
    /// `i2s` (0x93): convert `int` to `short`.
    I2s,
    /// `lcmp` (0x94): compare `long`.
    LCmp,
    /// `fcmpl` (0x95): compare `float`; -1 on NaN.
    FCmpL,
    /// `fcmpg` (0x96): compare `float`; 1 on NaN.
    FCmpG,
    /// `dcmpl` (0x97): compare `double`; -1 on NaN.
    DCmpL,
    /// `dcmpg` (0x98): compare `double`; 1 on NaN.
    DCmpG,
    /// `ifeq` (0x99): branch if the `int` equals zero.
    IfEq,
    /// `ifne` (0x9a): branch if the `int` differs from zero.
    IfNe,
    /// `iflt` (0x9b): branch if the `int` is less than zero.
    IfLt,
    /// `ifge` (0x9c): branch if the `int` is at least zero.
    IfGe,
    /// `ifgt` (0x9d): branch if the `int` is greater than zero.
    IfGt,
    /// `ifle` (0x9e): branch if the `int` is at most zero.
    IfLe,
    /// `if_icmpeq` (0x9f): branch if the first `int` equals the second.
    IfICmpEq,
    /// `if_icmpne` (0xa0): branch if the first `int` differs from the second.
    IfICmpNe,
    /// `if_icmplt` (0xa1): branch if the first `int` is less than the second.
    IfICmpLt,
    /// `if_icmpge` (0xa2): branch if the first `int` is at least the second.
    IfICmpGe,
    /// `if_icmpgt` (0xa3): branch if the first `int` is greater than the second.
    IfICmpGt,
    /// `if_icmple` (0xa4): branch if the first `int` is at most the second.
    IfICmpLe,
    /// `if_acmpeq` (0xa5): branch if the two references are equal.
    IfACmpEq,
    /// `if_acmpne` (0xa6): branch if the two references differ.
    IfACmpNe,
    /// `goto` (0xa7): branch always.
    Goto,
    /// `jsr` (0xa8): jump to a subroutine.
    Jsr,
    /// `ret` (0xa9): return from a subroutine.
    Ret,
    /// `tableswitch` (0xaa): jump through a table indexed by a range of keys.
    TableSwitch,
    /// `lookupswitch` (0xab): jump through a list of key and offset pairs.
    LookupSwitch,
    /// `ireturn` (0xac): return `int` from the method.
    IReturn,
    /// `lreturn` (0xad): return `long` from the method.
    LReturn,
    /// `freturn` (0xae): return `float` from the method.
    FReturn,
    /// `dreturn` (0xaf): return `double` from the method.
    DReturn,
    /// `areturn` (0xb0): return `reference` from the method.
    AReturn,
    /// `return` (0xb1): return `void` from the method.
    Return,
    /// `getstatic` (0xb2): get a static field of a class.
    GetStatic,
    /// `putstatic` (0xb3): set a static field of a class.
    PutStatic,
    /// `getfield` (0xb4): get a field of an object.
    GetField,
    /// `putfield` (0xb5): set a field of an object.
    PutField,
    /// `invokevirtual` (0xb6): invoke an instance method, dispatching on the class.
    InvokeVirtual,
    /// `invokespecial` (0xb7): invoke an instance method without dispatch.
    InvokeSpecial,
    /// `invokestatic` (0xb8): invoke a static method.
    InvokeStatic,
    /// `invokeinterface` (0xb9): invoke an interface method.
    InvokeInterface,
    /// `invokedynamic` (0xba): invoke a dynamically computed call site.
    InvokeDynamic,
    /// `new` (0xbb): create a new object.
    New,
    /// `newarray` (0xbc): create a new array of a primitive type.
    NewArray,
    /// `anewarray` (0xbd): create a new array of references.
    ANewArray,
    /// `arraylength` (0xbe): get the length of an array.
    ArrayLength,
    /// `athrow` (0xbf): throw an exception or error.
    AThrow,
    /// `checkcast` (0xc0): check that an object is of a given type.
    CheckCast,
    /// `instanceof` (0xc1): determine whether an object is of a given type.
    InstanceOf,
    /// `monitorenter` (0xc2): enter the monitor of an object.
    MonitorEnter,
    /// `monitorexit` (0xc3): exit the monitor of an object.
    MonitorExit,
    /// `wide` (0xc4): prefix that widens the operand of the next instruction.
    Wide,
    /// `multianewarray` (0xc5): create a new multidimensional array.
    MultiANewArray,
    /// `ifnull` (0xc6): branch if the reference is `null`.
    IfNull,
    /// `ifnonnull` (0xc7): branch if the reference is not `null`.
    IfNonNull,
    /// `goto_w` (0xc8): branch always, with a four-byte offset.
    GotoW,
    /// `jsr_w` (0xc9): jump to a subroutine, with a four-byte offset.
    JsrW,
    /// `breakpoint` (0xca): reserved for debuggers.
    Breakpoint,
    /// `impdep1` (0xfe): reserved for implementation-dependent use.
    ImpDep1,
    /// `impdep2` (0xff): reserved for implementation-dependent use.
    ImpDep2,
}

/// The lowest byte value that names no opcode.
pub const RESERVED_FIRST: u8 = 0xcb;

/// The highest byte value that names no opcode.
pub const RESERVED_LAST: u8 = 0xfd;

/// Whether `byte` lies in the range of values that name no opcode.
pub open spec fn is_reserved(byte: u8) -> bool {
    RESERVED_FIRST <= byte <= RESERVED_LAST
}

/// The opcode that `byte` names, if it names one.
pub open spec fn opcode_of(byte: u8) -> Option<Opcode> {
    match byte {
        0x00 => Some(Opcode::Nop),
        0x01 => Some(Opcode::AConstNull),
        0x02 => Some(Opcode::IConstM1),
        0x03 => Some(Opcode::IConst0),
        0x04 => Some(Opcode::IConst1),
        0x05 => Some(Opcode::IConst2),
        0x06 => Some(Opcode::IConst3),
        0x07 => Some(Opcode::IConst4),
        0x08 => Some(Opcode::IConst5),
        0x09 => Some(Opcode::LConst0),
        0x0a => Some(Opcode::LConst1),
        0x0b => Some(Opcode::FConst0),
        0x0c => Some(Opcode::FConst1),
        0x0d => Some(Opcode::FConst2),
        0x0e => Some(Opcode::DConst0),
        0x0f => Some(Opcode::DConst1),
        0x10 => Some(Opcode::BIPush),
        0x11 => Some(Opcode::SIPush),
        0x12 => Some(Opcode::Ldc),
        0x13 => Some(Opcode::LdcW),
        0x14 => Some(Opcode::Ldc2W),
        0x15 => Some(Opcode::ILoad),
        0x16 => Some(Opcode::LLoad),
        0x17 => Some(Opcode::FLoad),
        0x18 => Some(Opcode::DLoad),
        0x19 => Some(Opcode::ALoad),
        0x1a => Some(Opcode::ILoad0),
        0x1b => Some(Opcode::ILoad1),
        0x1c => Some(Opcode::ILoad2),
        0x1d => Some(Opcode::ILoad3),
        0x1e => Some(Opcode::LLoad0),
        0x1f => Some(Opcode::LLoad1),
        0x20 => Some(Opcode::LLoad2),
        0x21 => Some(Opcode::LLoad3),
        0x22 => Some(Opcode::FLoad0),
        0x23 => Some(Opcode::FLoad1),
        0x24 => Some(Opcode::FLoad2),
        0x25 => Some(Opcode::FLoad3),
        0x26 => Some(Opcode::DLoad0),
        0x27 => Some(Opcode::DLoad1),
        0x28 => Some(Opcode::DLoad2),
        0x29 => Some(Opcode::DLoad3),
        0x2a => Some(Opcode::ALoad0),
        0x2b => Some(Opcode::ALoad1),
        0x2c => Some(Opcode::ALoad2),
        0x2d => Some(Opcode::ALoad3),
        0x2e => Some(Opcode::IALoad),
        0x2f => Some(Opcode::LALoad),
        0x30 => Some(Opcode::FALoad),
        0x31 => Some(Opcode::DALoad),
        0x32 => Some(Opcode::AALoad),
        0x33 => Some(Opcode::BALoad),
        0x34 => Some(Opcode::CALoad),
        0x35 => Some(Opcode::SALoad),
        0x36 => Some(Opcode::IStore),
        0x37 => Some(Opcode::LStore),
        0x38 => Some(Opcode::FStore),
        0x39 => Some(Opcode::DStore),
        0x3a => Some(Opcode::AStore),
        0x3b => Some(Opcode::IStore0),
        0x3c => Some(Opcode::IStore1),
        0x3d => Some(Opcode::IStore2),
        0x3e => Some(Opcode::IStore3),
        0x3f => Some(Opcode::LStore0),
        0x40 => Some(Opcode::LStore1),
        0x41 => Some(Opcode::LStore2),
        0x42 => Some(Opcode::LStore3),
        0x43 => Some(Opcode::FStore0),
        0x44 => Some(Opcode::FStore1),
        0x45 => Some(Opcode::FStore2),
        0x46 => Some(Opcode::FStore3),
        0x47 => Some(Opcode::DStore0),
        0x48 => Some(Opcode::DStore1),
        0x49 => Some(Opcode::DStore2),
        0x4a => Some(Opcode::DStore3),
        0x4b => Some(Opcode::AStore0),
        0x4c => Some(Opcode::AStore1),
        0x4d => Some(Opcode::AStore2),
        0x4e => Some(Opcode::AStore3),
        0x4f => Some(Opcode::IAStore),
        0x50 => Some(Opcode::LAStore),
        0x51 => Some(Opcode::FAStore),
        0x52 => Some(Opcode::DAStore),
        0x53 => Some(Opcode::AAStore),
        0x54 => Some(Opcode::BAStore),
        0x55 => Some(Opcode::CAStore),
        0x56 => Some(Opcode::SAStore),
        0x57 => Some(Opcode::Pop),
        0x58 => Some(Opcode::Pop2),
        0x59 => Some(Opcode::Dup),
        0x5a => Some(Opcode::DupX1),
        0x5b => Some(Opcode::DupX2),
        0x5c => Some(Opcode::Dup2),
        0x5d => Some(Opcode::Dup2X1),
        0x5e => Some(Opcode::Dup2X2),
        0x5f => Some(Opcode::Swap),
        0x60 => Some(Opcode::IAdd),
        0x61 => Some(Opcode::LAdd),
        0x62 => Some(Opcode::FAdd),
        0x63 => Some(Opcode::DAdd),
        0x64 => Some(Opcode::ISub),
        0x65 => Some(Opcode::LSub),
        0x66 => Some(Opcode::FSub),
        0x67 => Some(Opcode::DSub),
        0x68 => Some(Opcode::IMul),
        0x69 => Some(Opcode::LMul),
        0x6a => Some(Opcode::FMul),
        0x6b => Some(Opcode::DMul),
        0x6c => Some(Opcode::IDiv),
        0x6d => Some(Opcode::LDiv),
        0x6e => Some(Opcode::FDiv),
        0x6f => Some(Opcode::DDiv),
        0x70 => Some(Opcode::IRem),
        0x71 => Some(Opcode::LRem),
        0x72 => Some(Opcode::FRem),
        0x73 => Some(Opcode::DRem),
        0x74 => Some(Opcode::INeg),
        0x75 => Some(Opcode::LNeg),
        0x76 => Some(Opcode::FNeg),
        0x77 => Some(Opcode::DNeg),
        0x78 => Some(Opcode::IShl),
        0x79 => Some(Opcode::LShl),
        0x7a => Some(Opcode::IShr),
        0x7b => Some(Opcode::LShr),
        0x7c => Some(Opcode::IUShr),
        0x7d => Some(Opcode::LUShr),
        0x7e => Some(Opcode::IAnd),
        0x7f => Some(Opcode::LAnd),
        0x80 => Some(Opcode::IOr),
        0x81 => Some(Opcode::LOr),
        0x82 => Some(Opcode::IXor),
        0x83 => Some(Opcode::LXor),
        0x84 => Some(Opcode::IInc),
        0x85 => Some(Opcode::I2l),
        0x86 => Some(Opcode::I2f),
        0x87 => Some(Opcode::I2d),
        0x88 => Some(Opcode::L2i),
        0x89 => Some(Opcode::L2f),
        0x8a => Some(Opcode::L2d),
        0x8b => Some(Opcode::F2i),
        0x8c => Some(Opcode::F2l),
        0x8d => Some(Opcode::F2d),
        0x8e => Some(Opcode::D2i),
        0x8f => Some(Opcode::D2l),
        0x90 => Some(Opcode::D2f),
        0x91 => Some(Opcode::I2b),
        0x92 => Some(Opcode::I2c),
        0x93 => Some(Opcode::I2s),
        0x94 => Some(Opcode::LCmp),
        0x95 => Some(Opcode::FCmpL),
        0x96 => Some(Opcode::FCmpG),
        0x97 => Some(Opcode::DCmpL),
        0x98 => Some(Opcode::DCmpG),
        0x99 => Some(Opcode::IfEq),
        0x9a => Some(Opcode::IfNe),
        0x9b => Some(Opcode::IfLt),
        0x9c => Some(Opcode::IfGe),
        0x9d => Some(Opcode::IfGt),
        0x9e => Some(Opcode::IfLe),
        0x9f => Some(Opcode::IfICmpEq),
        0xa0 => Some(Opcode::IfICmpNe),
        0xa1 => Some(Opcode::IfICmpLt),
        0xa2 => Some(Opcode::IfICmpGe),
        0xa3 => Some(Opcode::IfICmpGt),
        0xa4 => Some(Opcode::IfICmpLe),
        0xa5 => Some(Opcode::IfACmpEq),
        0xa6 => Some(Opcode::IfACmpNe),
        0xa7 => Some(Opcode::Goto),
        0xa8 => Some(Opcode::Jsr),
        0xa9 => Some(Opcode::Ret),
        0xaa => Some(Opcode::TableSwitch),
        0xab => Some(Opcode::LookupSwitch),
        0xac => Some(Opcode::IReturn),
        0xad => Some(Opcode::LReturn),
        0xae => Some(Opcode::FReturn),
        0xaf => Some(Opcode::DReturn),
        0xb0 => Some(Opcode::AReturn),
        0xb1 => Some(Opcode::Return),
        0xb2 => Some(Opcode::GetStatic),
        0xb3 => Some(Opcode::PutStatic),
        0xb4 => Some(Opcode::GetField),
        0xb5 => Some(Opcode::PutField),
        0xb6 => Some(Opcode::InvokeVirtual),
        0xb7 => Some(Opcode::InvokeSpecial),
        0xb8 => Some(Opcode::InvokeStatic),
        0xb9 => Some(Opcode::InvokeInterface),
        0xba => Some(Opcode::InvokeDynamic),
        0xbb => Some(Opcode::New),
        0xbc => Some(Opcode::NewArray),
        0xbd => Some(Opcode::ANewArray),
        0xbe => Some(Opcode::ArrayLength),
        0xbf => Some(Opcode::AThrow),
        0xc0 => Some(Opcode::CheckCast),
        0xc1 => Some(Opcode::InstanceOf),
        0xc2 => Some(Opcode::MonitorEnter),
        0xc3 => Some(Opcode::MonitorExit),
        0xc4 => Some(Opcode::Wide),
        0xc5 => Some(Opcode::MultiANewArray),
        0xc6 => Some(Opcode::IfNull),
        0xc7 => Some(Opcode::IfNonNull),
        0xc8 => Some(Opcode::GotoW),
        0xc9 => Some(Opcode::JsrW),
        0xca => Some(Opcode::Breakpoint),
        0xfe => Some(Opcode::ImpDep1),
        0xff => Some(Opcode::ImpDep2),
        _ => None,
    }
}

impl Opcode {
    /// The byte that encodes this opcode.
    pub open spec fn spec_numeric_value(self) -> u8 {
        match self {
            Opcode::Nop => 0x00,
            Opcode::AConstNull => 0x01,
            Opcode::IConstM1 => 0x02,
            Opcode::IConst0 => 0x03,
            Opcode::IConst1 => 0x04,
            Opcode::IConst2 => 0x05,
            Opcode::IConst3 => 0x06,
            Opcode::IConst4 => 0x07,
            Opcode::IConst5 => 0x08,
            Opcode::LConst0 => 0x09,
            Opcode::LConst1 => 0x0a,
            Opcode::FConst0 => 0x0b,
            Opcode::FConst1 => 0x0c,
            Opcode::FConst2 => 0x0d,
            Opcode::DConst0 => 0x0e,
            Opcode::DConst1 => 0x0f,
            Opcode::BIPush => 0x10,
            Opcode::SIPush => 0x11,
            Opcode::Ldc => 0x12,
            Opcode::LdcW => 0x13,
            Opcode::Ldc2W => 0x14,
            Opcode::ILoad => 0x15,
            Opcode::LLoad => 0x16,
            Opcode::FLoad => 0x17,
            Opcode::DLoad => 0x18,
            Opcode::ALoad => 0x19,
            Opcode::ILoad0 => 0x1a,
            Opcode::ILoad1 => 0x1b,
            Opcode::ILoad2 => 0x1c,
            Opcode::ILoad3 => 0x1d,
            Opcode::LLoad0 => 0x1e,
            Opcode::LLoad1 => 0x1f,
            Opcode::LLoad2 => 0x20,
            Opcode::LLoad3 => 0x21,
            Opcode::FLoad0 => 0x22,
            Opcode::FLoad1 => 0x23,
            Opcode::FLoad2 => 0x24,
            Opcode::FLoad3 => 0x25,
            Opcode::DLoad0 => 0x26,
            Opcode::DLoad1 => 0x27,
            Opcode::DLoad2 => 0x28,
            Opcode::DLoad3 => 0x29,
            Opcode::ALoad0 => 0x2a,
            Opcode::ALoad1 => 0x2b,
            Opcode::ALoad2 => 0x2c,
            Opcode::ALoad3 => 0x2d,
            Opcode::IALoad => 0x2e,
            Opcode::LALoad => 0x2f,
            Opcode::FALoad => 0x30,
            Opcode::DALoad => 0x31,
            Opcode::AALoad => 0x32,
            Opcode::BALoad => 0x33,
            Opcode::CALoad => 0x34,
            Opcode::SALoad => 0x35,
            Opcode::IStore => 0x36,
            Opcode::LStore => 0x37,
            Opcode::FStore => 0x38,
            Opcode::DStore => 0x39,
            Opcode::AStore => 0x3a,
            Opcode::IStore0 => 0x3b,
            Opcode::IStore1 => 0x3c,
            Opcode::IStore2 => 0x3d,
            Opcode::IStore3 => 0x3e,
            Opcode::LStore0 => 0x3f,
            Opcode::LStore1 => 0x40,
            Opcode::LStore2 => 0x41,
            Opcode::LStore3 => 0x42,
            Opcode::FStore0 => 0x43,
            Opcode::FStore1 => 0x44,
            Opcode::FStore2 => 0x45,
            Opcode::FStore3 => 0x46,
            Opcode::DStore0 => 0x47,
            Opcode::DStore1 => 0x48,
            Opcode::DStore2 => 0x49,
            Opcode::DStore3 => 0x4a,
            Opcode::AStore0 => 0x4b,
            Opcode::AStore1 => 0x4c,
            Opcode::AStore2 => 0x4d,
            Opcode::AStore3 => 0x4e,
            Opcode::IAStore => 0x4f,
            Opcode::LAStore => 0x50,
            Opcode::FAStore => 0x51,
            Opcode::DAStore => 0x52,
            Opcode::AAStore => 0x53,
            Opcode::BAStore => 0x54,
            Opcode::CAStore => 0x55,
            Opcode::SAStore => 0x56,
            Opcode::Pop => 0x57,
            Opcode::Pop2 => 0x58,
            Opcode::Dup => 0x59,
            Opcode::DupX1 => 0x5a,
            Opcode::DupX2 => 0x5b,
            Opcode::Dup2 => 0x5c,
            Opcode::Dup2X1 => 0x5d,
            Opcode::Dup2X2 => 0x5e,
            Opcode::Swap => 0x5f,
            Opcode::IAdd => 0x60,
            Opcode::LAdd => 0x61,
            Opcode::FAdd => 0x62,
            Opcode::DAdd => 0x63,
            Opcode::ISub => 0x64,
            Opcode::LSub => 0x65,
            Opcode::FSub => 0x66,
            Opcode::DSub => 0x67,
            Opcode::IMul => 0x68,
            Opcode::LMul => 0x69,
            Opcode::FMul => 0x6a,
            Opcode::DMul => 0x6b,
            Opcode::IDiv => 0x6c,
            Opcode::LDiv => 0x6d,
            Opcode::FDiv => 0x6e,
            Opcode::DDiv => 0x6f,
            Opcode::IRem => 0x70,
            Opcode::LRem => 0x71,
            Opcode::FRem => 0x72,
            Opcode::DRem => 0x73,
            Opcode::INeg => 0x74,
            Opcode::LNeg => 0x75,
            Opcode::FNeg => 0x76,
            Opcode::DNeg => 0x77,
            Opcode::IShl => 0x78,
            Opcode::LShl => 0x79,
            Opcode::IShr => 0x7a,
            Opcode::LShr => 0x7b,
            Opcode::IUShr => 0x7c,
            Opcode::LUShr => 0x7d,
            Opcode::IAnd => 0x7e,
            Opcode::LAnd => 0x7f,
            Opcode::IOr => 0x80,
            Opcode::LOr => 0x81,
            Opcode::IXor => 0x82,
            Opcode::LXor => 0x83,
            Opcode::IInc => 0x84,
            Opcode::I2l => 0x85,
            Opcode::I2f => 0x86,
            Opcode::I2d => 0x87,
            Opcode::L2i => 0x88,
            Opcode::L2f => 0x89,
            Opcode::L2d => 0x8a,
            Opcode::F2i => 0x8b,
            Opcode::F2l => 0x8c,
            Opcode::F2d => 0x8d,
            Opcode::D2i => 0x8e,
            Opcode::D2l => 0x8f,
            Opcode::D2f => 0x90,
            Opcode::I2b => 0x91,
            Opcode::I2c => 0x92,
            Opcode::I2s => 0x93,
            Opcode::LCmp => 0x94,
            Opcode::FCmpL => 0x95,
            Opcode::FCmpG => 0x96,
            Opcode::DCmpL => 0x97,
            Opcode::DCmpG => 0x98,
            Opcode::IfEq => 0x99,
            Opcode::IfNe => 0x9a,
            Opcode::IfLt => 0x9b,
            Opcode::IfGe => 0x9c,
            Opcode::IfGt => 0x9d,
            Opcode::IfLe => 0x9e,
            Opcode::IfICmpEq => 0x9f,
            Opcode::IfICmpNe => 0xa0,
            Opcode::IfICmpLt => 0xa1,
            Opcode::IfICmpGe => 0xa2,
            Opcode::IfICmpGt => 0xa3,
            Opcode::IfICmpLe => 0xa4,
            Opcode::IfACmpEq => 0xa5,
            Opcode::IfACmpNe => 0xa6,
            Opcode::Goto => 0xa7,
            Opcode::Jsr => 0xa8,
            Opcode::Ret => 0xa9,
            Opcode::TableSwitch => 0xaa,
            Opcode::LookupSwitch => 0xab,
            Opcode::IReturn => 0xac,
            Opcode::LReturn => 0xad,
            Opcode::FReturn => 0xae,
            Opcode::DReturn => 0xaf,
            Opcode::AReturn => 0xb0,
            Opcode::Return => 0xb1,
            Opcode::GetStatic => 0xb2,
            Opcode::PutStatic => 0xb3,
            Opcode::GetField => 0xb4,
            Opcode::PutField => 0xb5,
            Opcode::InvokeVirtual => 0xb6,
            Opcode::InvokeSpecial => 0xb7,
            Opcode::InvokeStatic => 0xb8,
            Opcode::InvokeInterface => 0xb9,
            Opcode::InvokeDynamic => 0xba,
            Opcode::New => 0xbb,
            Opcode::NewArray => 0xbc,
            Opcode::ANewArray => 0xbd,
            Opcode::ArrayLength => 0xbe,
            Opcode::AThrow => 0xbf,
            Opcode::CheckCast => 0xc0,
            Opcode::InstanceOf => 0xc1,
            Opcode::MonitorEnter => 0xc2,
            Opcode::MonitorExit => 0xc3,
            Opcode::Wide => 0xc4,
            Opcode::MultiANewArray => 0xc5,
            Opcode::IfNull => 0xc6,
            Opcode::IfNonNull => 0xc7,
            Opcode::GotoW => 0xc8,
            Opcode::JsrW => 0xc9,
            Opcode::Breakpoint => 0xca,
            Opcode::ImpDep1 => 0xfe,
            Opcode::ImpDep2 => 0xff,
        }
    }

    /// The byte that encodes this opcode.
    #[verifier::when_used_as_spec(spec_numeric_value)]
    pub fn numeric_value(self) -> (byte: u8)
        ensures
            byte == self.spec_numeric_value(),
            !is_reserved(byte),
            opcode_of(byte) == Some(self),
    {
        match self {
            Opcode::Nop => 0x00,
            Opcode::AConstNull => 0x01,
            Opcode::IConstM1 => 0x02,
            Opcode::IConst0 => 0x03,
            Opcode::IConst1 => 0x04,
            Opcode::IConst2 => 0x05,
            Opcode::IConst3 => 0x06,
            Opcode::IConst4 => 0x07,
            Opcode::IConst5 => 0x08,
            Opcode::LConst0 => 0x09,
            Opcode::LConst1 => 0x0a,
            Opcode::FConst0 => 0x0b,
            Opcode::FConst1 => 0x0c,
            Opcode::FConst2 => 0x0d,
            Opcode::DConst0 => 0x0e,
            Opcode::DConst1 => 0x0f,
            Opcode::BIPush => 0x10,
            Opcode::SIPush => 0x11,
            Opcode::Ldc => 0x12,
            Opcode::LdcW => 0x13,
            Opcode::Ldc2W => 0x14,
            Opcode::ILoad => 0x15,
            Opcode::LLoad => 0x16,
            Opcode::FLoad => 0x17,
            Opcode::DLoad => 0x18,
            Opcode::ALoad => 0x19,
            Opcode::ILoad0 => 0x1a,
            Opcode::ILoad1 => 0x1b,
            Opcode::ILoad2 => 0x1c,
            Opcode::ILoad3 => 0x1d,
            Opcode::LLoad0 => 0x1e,
            Opcode::LLoad1 => 0x1f,
            Opcode::LLoad2 => 0x20,
            Opcode::LLoad3 => 0x21,
            Opcode::FLoad0 => 0x22,
            Opcode::FLoad1 => 0x23,
            Opcode::FLoad2 => 0x24,
            Opcode::FLoad3 => 0x25,
            Opcode::DLoad0 => 0x26,
            Opcode::DLoad1 => 0x27,
            Opcode::DLoad2 => 0x28,
            Opcode::DLoad3 => 0x29,
            Opcode::ALoad0 => 0x2a,
            Opcode::ALoad1 => 0x2b,
            Opcode::ALoad2 => 0x2c,
            Opcode::ALoad3 => 0x2d,
            Opcode::IALoad => 0x2e,
            Opcode::LALoad => 0x2f,
            Opcode::FALoad => 0x30,
            Opcode::DALoad => 0x31,
            Opcode::AALoad => 0x32,
            Opcode::BALoad => 0x33,
            Opcode::CALoad => 0x34,
            Opcode::SALoad => 0x35,
            Opcode::IStore => 0x36,
            Opcode::LStore => 0x37,
            Opcode::FStore => 0x38,
            Opcode::DStore => 0x39,
            Opcode::AStore => 0x3a,
            Opcode::IStore0 => 0x3b,
            Opcode::IStore1 => 0x3c,
            Opcode::IStore2 => 0x3d,
            Opcode::IStore3 => 0x3e,
            Opcode::LStore0 => 0x3f,
            Opcode::LStore1 => 0x40,
            Opcode::LStore2 => 0x41,
            Opcode::LStore3 => 0x42,
            Opcode::FStore0 => 0x43,
            Opcode::FStore1 => 0x44,
            Opcode::FStore2 => 0x45,
            Opcode::FStore3 => 0x46,
            Opcode::DStore0 => 0x47,
            Opcode::DStore1 => 0x48,
            Opcode::DStore2 => 0x49,
            Opcode::DStore3 => 0x4a,
            Opcode::AStore0 => 0x4b,
            Opcode::AStore1 => 0x4c,
            Opcode::AStore2 => 0x4d,
            Opcode::AStore3 => 0x4e,
            Opcode::IAStore => 0x4f,
            Opcode::LAStore => 0x50,
            Opcode::FAStore => 0x51,
            Opcode::DAStore => 0x52,
            Opcode::AAStore => 0x53,
            Opcode::BAStore => 0x54,
            Opcode::CAStore => 0x55,
            Opcode::SAStore => 0x56,
            Opcode::Pop => 0x57,
            Opcode::Pop2 => 0x58,
            Opcode::Dup => 0x59,
            Opcode::DupX1 => 0x5a,
            Opcode::DupX2 => 0x5b,
            Opcode::Dup2 => 0x5c,
            Opcode::Dup2X1 => 0x5d,
            Opcode::Dup2X2 => 0x5e,
            Opcode::Swap => 0x5f,
            Opcode::IAdd => 0x60,
            Opcode::LAdd => 0x61,
            Opcode::FAdd => 0x62,
            Opcode::DAdd => 0x63,
            Opcode::ISub => 0x64,
            Opcode::LSub => 0x65,
            Opcode::FSub => 0x66,
            Opcode::DSub => 0x67,
            Opcode::IMul => 0x68,
            Opcode::LMul => 0x69,
            Opcode::FMul => 0x6a,
            Opcode::DMul => 0x6b,
            Opcode::IDiv => 0x6c,
            Opcode::LDiv => 0x6d,
            Opcode::FDiv => 0x6e,
            Opcode::DDiv => 0x6f,
            Opcode::IRem => 0x70,
            Opcode::LRem => 0x71,
            Opcode::FRem => 0x72,
            Opcode::DRem => 0x73,
            Opcode::INeg => 0x74,
            Opcode::LNeg => 0x75,
            Opcode::FNeg => 0x76,
            Opcode::DNeg => 0x77,
            Opcode::IShl => 0x78,
            Opcode::LShl => 0x79,
            Opcode::IShr => 0x7a,
            Opcode::LShr => 0x7b,
            Opcode::IUShr => 0x7c,
            Opcode::LUShr => 0x7d,
            Opcode::IAnd => 0x7e,
            Opcode::LAnd => 0x7f,
            Opcode::IOr => 0x80,
            Opcode::LOr => 0x81,
            Opcode::IXor => 0x82,
            Opcode::LXor => 0x83,
            Opcode::IInc => 0x84,
            Opcode::I2l => 0x85,
            Opcode::I2f => 0x86,
            Opcode::I2d => 0x87,
            Opcode::L2i => 0x88,
            Opcode::L2f => 0x89,
            Opcode::L2d => 0x8a,
            Opcode::F2i => 0x8b,
            Opcode::F2l => 0x8c,
            Opcode::F2d => 0x8d,
            Opcode::D2i => 0x8e,
            Opcode::D2l => 0x8f,
            Opcode::D2f => 0x90,
            Opcode::I2b => 0x91,
            Opcode::I2c => 0x92,
            Opcode::I2s => 0x93,
            Opcode::LCmp => 0x94,
            Opcode::FCmpL => 0x95,
            Opcode::FCmpG => 0x96,
            Opcode::DCmpL => 0x97,
            Opcode::DCmpG => 0x98,
            Opcode::IfEq => 0x99,
            Opcode::IfNe => 0x9a,
            Opcode::IfLt => 0x9b,
            Opcode::IfGe => 0x9c,
            Opcode::IfGt => 0x9d,
            Opcode::IfLe => 0x9e,
            Opcode::IfICmpEq => 0x9f,
            Opcode::IfICmpNe => 0xa0,
            Opcode::IfICmpLt => 0xa1,
            Opcode::IfICmpGe => 0xa2,
            Opcode::IfICmpGt => 0xa3,
            Opcode::IfICmpLe => 0xa4,
            Opcode::IfACmpEq => 0xa5,
            Opcode::IfACmpNe => 0xa6,
            Opcode::Goto => 0xa7,
            Opcode::Jsr => 0xa8,
            Opcode::Ret => 0xa9,
            Opcode::TableSwitch => 0xaa,
            Opcode::LookupSwitch => 0xab,
            Opcode::IReturn => 0xac,
            Opcode::LReturn => 0xad,
            Opcode::FReturn => 0xae,
            Opcode::DReturn => 0xaf,
            Opcode::AReturn => 0xb0,
            Opcode::Return => 0xb1,
            Opcode::GetStatic => 0xb2,
            Opcode::PutStatic => 0xb3,
            Opcode::GetField => 0xb4,
            Opcode::PutField => 0xb5,
            Opcode::InvokeVirtual => 0xb6,
            Opcode::InvokeSpecial => 0xb7,
            Opcode::InvokeStatic => 0xb8,
            Opcode::InvokeInterface => 0xb9,
            Opcode::InvokeDynamic => 0xba,
            Opcode::New => 0xbb,
            Opcode::NewArray => 0xbc,
            Opcode::ANewArray => 0xbd,
            Opcode::ArrayLength => 0xbe,
            Opcode::AThrow => 0xbf,
            Opcode::CheckCast => 0xc0,
            Opcode::InstanceOf => 0xc1,
            Opcode::MonitorEnter => 0xc2,
            Opcode::MonitorExit => 0xc3,
            Opcode::Wide => 0xc4,
            Opcode::MultiANewArray => 0xc5,
            Opcode::IfNull => 0xc6,
            Opcode::IfNonNull => 0xc7,
            Opcode::GotoW => 0xc8,
            Opcode::JsrW => 0xc9,
            Opcode::Breakpoint => 0xca,
            Opcode::ImpDep1 => 0xfe,
            Opcode::ImpDep2 => 0xff,
        }
    }
}

impl TryFrom<u8> for Opcode {
    type Error = Error;

    /// Looks `value` up in the catalog. Every value outside the reserved range
    /// names exactly one opcode, whose numeric value it is; a value inside it
    /// is handed back in the error.
    fn try_from(value: u8) -> (result: Result<Opcode, Error>)
        ensures
            result is Err <==> is_reserved(value),
            result matches Ok(opcode) ==> opcode.numeric_value() == value && opcode_of(value)
                == Some(opcode),
            result matches Err(error) ==> error == Error::UnknownOpcode(value),
    {
        match value {
            0x00 => Ok(Opcode::Nop),
            0x01 => Ok(Opcode::AConstNull),
            0x02 => Ok(Opcode::IConstM1),
            0x03 => Ok(Opcode::IConst0),
            0x04 => Ok(Opcode::IConst1),
            0x05 => Ok(Opcode::IConst2),
            0x06 => Ok(Opcode::IConst3),
            0x07 => Ok(Opcode::IConst4),
            0x08 => Ok(Opcode::IConst5),
            0x09 => Ok(Opcode::LConst0),
            0x0a => Ok(Opcode::LConst1),
            0x0b => Ok(Opcode::FConst0),
            0x0c => Ok(Opcode::FConst1),
            0x0d => Ok(Opcode::FConst2),
            0x0e => Ok(Opcode::DConst0),
            0x0f => Ok(Opcode::DConst1),
            0x10 => Ok(Opcode::BIPush),
            0x11 => Ok(Opcode::SIPush),
            0x12 => Ok(Opcode::Ldc),
            0x13 => Ok(Opcode::LdcW),
            0x14 => Ok(Opcode::Ldc2W),
            0x15 => Ok(Opcode::ILoad),
            0x16 => Ok(Opcode::LLoad),
            0x17 => Ok(Opcode::FLoad),
            0x18 => Ok(Opcode::DLoad),
            0x19 => Ok(Opcode::ALoad),
            0x1a => Ok(Opcode::ILoad0),
            0x1b => Ok(Opcode::ILoad1),
            0x1c => Ok(Opcode::ILoad2),
            0x1d => Ok(Opcode::ILoad3),
            0x1e => Ok(Opcode::LLoad0),
            0x1f => Ok(Opcode::LLoad1),
            0x20 => Ok(Opcode::LLoad2),
            0x21 => Ok(Opcode::LLoad3),
            0x22 => Ok(Opcode::FLoad0),
            0x23 => Ok(Opcode::FLoad1),
            0x24 => Ok(Opcode::FLoad2),
            0x25 => Ok(Opcode::FLoad3),
            0x26 => Ok(Opcode::DLoad0),
            0x27 => Ok(Opcode::DLoad1),
            0x28 => Ok(Opcode::DLoad2),
            0x29 => Ok(Opcode::DLoad3),
            0x2a => Ok(Opcode::ALoad0),
            0x2b => Ok(Opcode::ALoad1),
            0x2c => Ok(Opcode::ALoad2),
            0x2d => Ok(Opcode::ALoad3),
            0x2e => Ok(Opcode::IALoad),
            0x2f => Ok(Opcode::LALoad),
            0x30 => Ok(Opcode::FALoad),
            0x31 => Ok(Opcode::DALoad),
            0x32 => Ok(Opcode::AALoad),
            0x33 => Ok(Opcode::BALoad),
            0x34 => Ok(Opcode::CALoad),
            0x35 => Ok(Opcode::SALoad),
            0x36 => Ok(Opcode::IStore),
            0x37 => Ok(Opcode::LStore),
            0x38 => Ok(Opcode::FStore),
            0x39 => Ok(Opcode::DStore),
            0x3a => Ok(Opcode::AStore),
            0x3b => Ok(Opcode::IStore0),
            0x3c => Ok(Opcode::IStore1),
            0x3d => Ok(Opcode::IStore2),
            0x3e => Ok(Opcode::IStore3),
            0x3f => Ok(Opcode::LStore0),
            0x40 => Ok(Opcode::LStore1),
            0x41 => Ok(Opcode::LStore2),
            0x42 => Ok(Opcode::LStore3),
            0x43 => Ok(Opcode::FStore0),
            0x44 => Ok(Opcode::FStore1),
            0x45 => Ok(Opcode::FStore2),
            0x46 => Ok(Opcode::FStore3),
            0x47 => Ok(Opcode::DStore0),
            0x48 => Ok(Opcode::DStore1),
            0x49 => Ok(Opcode::DStore2),
            0x4a => Ok(Opcode::DStore3),
            0x4b => Ok(Opcode::AStore0),
            0x4c => Ok(Opcode::AStore1),
            0x4d => Ok(Opcode::AStore2),
            0x4e => Ok(Opcode::AStore3),
            0x4f => Ok(Opcode::IAStore),
            0x50 => Ok(Opcode::LAStore),
            0x51 => Ok(Opcode::FAStore),
            0x52 => Ok(Opcode::DAStore),
            0x53 => Ok(Opcode::AAStore),
            0x54 => Ok(Opcode::BAStore),
            0x55 => Ok(Opcode::CAStore),
            0x56 => Ok(Opcode::SAStore),
            0x57 => Ok(Opcode::Pop),
            0x58 => Ok(Opcode::Pop2),
            0x59 => Ok(Opcode::Dup),
            0x5a => Ok(Opcode::DupX1),
            0x5b => Ok(Opcode::DupX2),
            0x5c => Ok(Opcode::Dup2),
            0x5d => Ok(Opcode::Dup2X1),
            0x5e => Ok(Opcode::Dup2X2),
            0x5f => Ok(Opcode::Swap),
            0x60 => Ok(Opcode::IAdd),
            0x61 => Ok(Opcode::LAdd),
            0x62 => Ok(Opcode::FAdd),
            0x63 => Ok(Opcode::DAdd),
            0x64 => Ok(Opcode::ISub),
            0x65 => Ok(Opcode::LSub),
            0x66 => Ok(Opcode::FSub),
            0x67 => Ok(Opcode::DSub),
            0x68 => Ok(Opcode::IMul),
            0x69 => Ok(Opcode::LMul),
            0x6a => Ok(Opcode::FMul),
            0x6b => Ok(Opcode::DMul),
            0x6c => Ok(Opcode::IDiv),
            0x6d => Ok(Opcode::LDiv),
            0x6e => Ok(Opcode::FDiv),
            0x6f => Ok(Opcode::DDiv),
            0x70 => Ok(Opcode::IRem),
            0x71 => Ok(Opcode::LRem),
            0x72 => Ok(Opcode::FRem),
            0x73 => Ok(Opcode::DRem),
            0x74 => Ok(Opcode::INeg),
            0x75 => Ok(Opcode::LNeg),
            0x76 => Ok(Opcode::FNeg),
            0x77 => Ok(Opcode::DNeg),
            0x78 => Ok(Opcode::IShl),
            0x79 => Ok(Opcode::LShl),
            0x7a => Ok(Opcode::IShr),
            0x7b => Ok(Opcode::LShr),
            0x7c => Ok(Opcode::IUShr),
            0x7d => Ok(Opcode::LUShr),
            0x7e => Ok(Opcode::IAnd),
            0x7f => Ok(Opcode::LAnd),
            0x80 => Ok(Opcode::IOr),
            0x81 => Ok(Opcode::LOr),
            0x82 => Ok(Opcode::IXor),
            0x83 => Ok(Opcode::LXor),
            0x84 => Ok(Opcode::IInc),
            0x85 => Ok(Opcode::I2l),
            0x86 => Ok(Opcode::I2f),
            0x87 => Ok(Opcode::I2d),
            0x88 => Ok(Opcode::L2i),
            0x89 => Ok(Opcode::L2f),
            0x8a => Ok(Opcode::L2d),
            0x8b => Ok(Opcode::F2i),
            0x8c => Ok(Opcode::F2l),
            0x8d => Ok(Opcode::F2d),
            0x8e => Ok(Opcode::D2i),
            0x8f => Ok(Opcode::D2l),
            0x90 => Ok(Opcode::D2f),
            0x91 => Ok(Opcode::I2b),
            0x92 => Ok(Opcode::I2c),
            0x93 => Ok(Opcode::I2s),
            0x94 => Ok(Opcode::LCmp),
            0x95 => Ok(Opcode::FCmpL),
            0x96 => Ok(Opcode::FCmpG),
            0x97 => Ok(Opcode::DCmpL),
            0x98 => Ok(Opcode::DCmpG),
            0x99 => Ok(Opcode::IfEq),
            0x9a => Ok(Opcode::IfNe),
            0x9b => Ok(Opcode::IfLt),
            0x9c => Ok(Opcode::IfGe),
            0x9d => Ok(Opcode::IfGt),
            0x9e => Ok(Opcode::IfLe),
            0x9f => Ok(Opcode::IfICmpEq),
            0xa0 => Ok(Opcode::IfICmpNe),
            0xa1 => Ok(Opcode::IfICmpLt),
            0xa2 => Ok(Opcode::IfICmpGe),
            0xa3 => Ok(Opcode::IfICmpGt),
            0xa4 => Ok(Opcode::IfICmpLe),
            0xa5 => Ok(Opcode::IfACmpEq),
            0xa6 => Ok(Opcode::IfACmpNe),
            0xa7 => Ok(Opcode::Goto),
            0xa8 => Ok(Opcode::Jsr),
            0xa9 => Ok(Opcode::Ret),
            0xaa => Ok(Opcode::TableSwitch),
            0xab => Ok(Opcode::LookupSwitch),
            0xac => Ok(Opcode::IReturn),
            0xad => Ok(Opcode::LReturn),
            0xae => Ok(Opcode::FReturn),
            0xaf => Ok(Opcode::DReturn),
            0xb0 => Ok(Opcode::AReturn),
            0xb1 => Ok(Opcode::Return),
            0xb2 => Ok(Opcode::GetStatic),
            0xb3 => Ok(Opcode::PutStatic),
            0xb4 => Ok(Opcode::GetField),
            0xb5 => Ok(Opcode::PutField),
            0xb6 => Ok(Opcode::InvokeVirtual),
            0xb7 => Ok(Opcode::InvokeSpecial),
            0xb8 => Ok(Opcode::InvokeStatic),
            0xb9 => Ok(Opcode::InvokeInterface),
            0xba => Ok(Opcode::InvokeDynamic),
            0xbb => Ok(Opcode::New),
            0xbc => Ok(Opcode::NewArray),
            0xbd => Ok(Opcode::ANewArray),
            0xbe => Ok(Opcode::ArrayLength),
            0xbf => Ok(Opcode::AThrow),
            0xc0 => Ok(Opcode::CheckCast),
            0xc1 => Ok(Opcode::InstanceOf),
            0xc2 => Ok(Opcode::MonitorEnter),
            0xc3 => Ok(Opcode::MonitorExit),
            0xc4 => Ok(Opcode::Wide),
            0xc5 => Ok(Opcode::MultiANewArray),
            0xc6 => Ok(Opcode::IfNull),
            0xc7 => Ok(Opcode::IfNonNull),
            0xc8 => Ok(Opcode::GotoW),
            0xc9 => Ok(Opcode::JsrW),
            0xca => Ok(Opcode::Breakpoint),
            0xfe => Ok(Opcode::ImpDep1),
            0xff => Ok(Opcode::ImpDep2),
            _ => Err(Error::UnknownOpcode(value)),
        }
    }
}

impl vstd::std_specs::convert::TryFromSpecImpl<u8> for Opcode {
    open spec fn obeys_try_from_spec() -> bool {
        true
    }

    open spec fn try_from_spec(value: u8) -> Result<Opcode, Error> {
        match opcode_of(value) {
            Some(opcode) => Ok(opcode),
            None => Err(Error::UnknownOpcode(value)),
        }
    }
}

/// Looking up the numeric value of an opcode gives that opcode back: no two
/// opcodes share a byte.
pub proof fn lemma_opcode_of_numeric_value(opcode: Opcode)
    ensures
        opcode_of(opcode.numeric_value()) == Some(opcode),
        !is_reserved(opcode.numeric_value()),
{
}

/// A byte that names an opcode is the numeric value of that opcode: the
/// lookup and the numeric value undo each other.
pub proof fn lemma_numeric_value_of_opcode(byte: u8)
    ensures
        opcode_of(byte) matches Some(opcode) ==> opcode.numeric_value() == byte,
        Opcode::try_from_spec(byte) matches Ok(opcode) ==> opcode.numeric_value() == byte,
{
}

/// Exactly the bytes of the reserved range name no opcode, and the lookup of
/// such a byte fails with that byte.
pub proof fn lemma_reserved_is_undefined(byte: u8)
    ensures
        opcode_of(byte) is None <==> is_reserved(byte),
        is_reserved(byte) ==> Opcode::try_from_spec(byte) == Err::<Opcode, Error>(
            Error::UnknownOpcode(byte),
        ),
        !is_reserved(byte) ==> Opcode::try_from_spec(byte) is Ok,
{
}

/// Two opcodes with the same numeric value are the same opcode.
pub proof fn lemma_numeric_value_injective(a: Opcode, b: Opcode)
    requires
        a.numeric_value() == b.numeric_value(),
    ensures
        a == b,
{
    lemma_opcode_of_numeric_value(a);
    lemma_opcode_of_numeric_value(b);
}

} // verus!
