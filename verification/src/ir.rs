//! The parts of a function's description that calling conventions read:
//! value types, parameter attributes, signatures and compilation flags.

use vstd::prelude::*;

verus! {

/// The type of a value.
#[derive(Clone, Copy, Debug, PartialEq, Eq, Structural)]
pub enum Type {
    I8,
    I16,
    I32,
    I64,
    I128,
    F32,
    F64,
    /// Any 128-bit vector.
    V128,
}

impl Type {
    /// The width of a value of this type, in bits.
    pub open spec fn spec_bits(self) -> u32 {
        match self {
            Type::I8 => 8,
            Type::I16 => 16,
            Type::I32 => 32,
            Type::I64 => 64,
            Type::I128 => 128,
            Type::F32 => 32,
            Type::F64 => 64,
            Type::V128 => 128,
        }
    }

    /// The width of a value of this type, in bytes.
    pub open spec fn spec_bytes(self) -> u32 {
        (self.spec_bits() / 8) as u32
    }

    /// The width of the type in bits.
    #[verifier::when_used_as_spec(spec_bits)]
    pub fn bits(self) -> (b: u32)
        ensures
            b == self.spec_bits(),
    {
        match self {
            Type::I8 => 8,
            Type::I16 => 16,
            Type::I32 => 32,
            Type::I64 => 64,
            Type::I128 => 128,
            Type::F32 => 32,
            Type::F64 => 64,
            Type::V128 => 128,
        }
    }

    /// The width of the type in bytes.
    #[verifier::when_used_as_spec(spec_bytes)]
    pub fn bytes(self) -> (b: u32)
        ensures
            b == self.spec_bytes(),
    {
        self.bits() / 8
    }

    /// Is this one of the integer types?
    pub open spec fn spec_is_int(self) -> bool {
        self is I8 || self is I16 || self is I32 || self is I64 || self is I128
    }

    /// Is this an integer type?
    #[verifier::when_used_as_spec(spec_is_int)]
    pub fn is_int(self) -> (b: bool)
        ensures
            b == self.spec_is_int(),
    {
        match self {
            Type::I8 | Type::I16 | Type::I32 | Type::I64 | Type::I128 => true,
            _ => false,
        }
    }
}

/// How a narrow integer argument is widened to a full register.
#[derive(Clone, Copy, Debug, PartialEq, Eq, Structural)]
pub enum ArgumentExtension {
    /// No widening; the high bits are unspecified.
    NoExt,
    /// Zero-extended.
    Uext,
    /// Sign-extended.
    Sext,
}

/// What an argument or return value is for.
#[derive(Clone, Copy, Debug, PartialEq, Eq, Structural)]
pub enum ArgumentPurpose {
    /// An ordinary value.
    Normal,
    /// A structure passed by value, of the given size in bytes.
    StructArgument(u32),
    /// The pointer to the memory that receives a returned structure.
    StructReturn,
    /// The pointer to the VM context.
    VMContext,
}

/// One parameter or return value of a signature.
#[derive(Clone, Copy, Debug, PartialEq, Eq, Structural)]
pub struct AbiParam {
    pub value_type: Type,
    pub purpose: ArgumentPurpose,
    pub extension: ArgumentExtension,
}

impl AbiParam {
    /// An ordinary parameter of the given type.
    pub fn new(value_type: Type) -> (p: AbiParam)
        ensures
            p == (AbiParam {
                value_type,
                purpose: ArgumentPurpose::Normal,
                extension: ArgumentExtension::NoExt,
            }),
    {
        AbiParam { value_type, purpose: ArgumentPurpose::Normal, extension: ArgumentExtension::NoExt }
    }

    /// A parameter of the given type with a special purpose.
    pub fn special(value_type: Type, purpose: ArgumentPurpose) -> (p: AbiParam)
        ensures
            p == (AbiParam { value_type, purpose, extension: ArgumentExtension::NoExt }),
    {
        AbiParam { value_type, purpose, extension: ArgumentExtension::NoExt }
    }
}

/// A calling convention.
#[derive(Clone, Copy, Debug, PartialEq, Eq, Structural)]
pub enum CallConv {
    Fast,
    Cold,
    Tail,
    SystemV,
    WindowsFastcall,
    AppleAarch64,
    Probestack,
    Winch,
}

impl CallConv {
    /// The convention for calls into runtime library routines: the one the
    /// flags ask for, or `default_call_conv` when they ask for none.
    pub open spec fn spec_for_libcall(flags: &Flags, default_call_conv: CallConv) -> CallConv {
        match flags.libcall_call_conv {
            Some(cc) => cc,
            None => default_call_conv,
        }
    }

    /// The convention for calls into runtime library routines: the one the
    /// flags ask for, or `default_call_conv` when they ask for none.
    pub fn for_libcall(flags: &Flags, default_call_conv: CallConv) -> (cc: CallConv)
        ensures
            cc == Self::spec_for_libcall(flags, default_call_conv),
    {
        match flags.libcall_call_conv {
            Some(cc) => cc,
            None => default_call_conv,
        }
    }
}

/// How stack probes are emitted.
#[derive(Clone, Copy, Debug, PartialEq, Eq, Structural)]
pub enum ProbestackStrategy {
    /// A call to a probing routine.
    Outline,
    /// Probing code in the prologue itself.
    Inline,
}

/// The settings that control one compilation.
#[derive(Clone, Copy, Debug, PartialEq, Eq, Structural)]
pub struct Flags {
    pub enable_multi_ret_implicit_sret: bool,
    pub enable_probestack: bool,
    pub probestack_size_log2: u8,
    pub probestack_strategy: ProbestackStrategy,
    pub libcall_call_conv: Option<CallConv>,
}

impl Flags {
    /// May several return values go through an implicit return area?
    pub fn enable_multi_ret_implicit_sret(&self) -> (b: bool)
        ensures
            b == self.enable_multi_ret_implicit_sret,
    {
        self.enable_multi_ret_implicit_sret
    }

    /// Are stack probes emitted?
    pub fn enable_probestack(&self) -> (b: bool)
        ensures
            b == self.enable_probestack,
    {
        self.enable_probestack
    }

    /// The logarithm to base two of the distance between stack probes.
    pub fn probestack_size_log2(&self) -> (n: u8)
        ensures
            n == self.probestack_size_log2,
    {
        self.probestack_size_log2
    }

    /// How the stack is probed.
    pub fn probestack_strategy(&self) -> (s: ProbestackStrategy)
        ensures
            s == self.probestack_strategy,
    {
        self.probestack_strategy
    }
}

/// Why a compilation failed.
#[derive(Clone, Copy, Debug, PartialEq, Eq, Structural)]
pub enum CodegenError {
    /// A limit of the implementation was exceeded.
    ImplLimitExceeded,
    /// The function needs more virtual registers than can be numbered.
    CodeTooLarge,
    /// The input uses something the target does not support.
    Unsupported,
}

/// An ordered list of parameters, an ordered list of return values and a
/// calling convention.
#[derive(Debug)]
pub struct Signature {
    pub params: Vec<AbiParam>,
    pub returns: Vec<AbiParam>,
    pub call_conv: CallConv,
}

/// The last index in `list` whose entry has the given purpose.
pub open spec fn last_with_purpose(list: Seq<AbiParam>, purpose: ArgumentPurpose) -> Option<int>
    decreases list.len(),
{
    if list.len() == 0 {
        None
    } else if list.last().purpose == purpose {
        Some(list.len() - 1)
    } else {
        last_with_purpose(list.drop_last(), purpose)
    }
}

/// `last_with_purpose` finds an entry with the purpose, and none follows it.
pub proof fn lemma_last_with_purpose(list: Seq<AbiParam>, purpose: ArgumentPurpose)
    ensures
        match last_with_purpose(list, purpose) {
            Some(i) => 0 <= i < list.len() && list[i].purpose == purpose && forall|j: int|
                i < j < list.len() ==> (#[trigger] list[j]).purpose != purpose,
            None => forall|j: int| 0 <= j < list.len() ==> (#[trigger] list[j]).purpose != purpose,
        },
    decreases list.len(),
{
    if list.len() > 0 && list.last().purpose != purpose {
        let shorter = list.drop_last();
        lemma_last_with_purpose(shorter, purpose);
        assert forall|j: int| 0 <= j < shorter.len() implies shorter[j] == list[j] by {}
        match last_with_purpose(shorter, purpose) {
            Some(i) => {
                assert forall|j: int| i < j < list.len() implies (#[trigger] list[j]).purpose
                    != purpose by {
                    if j < shorter.len() {
                        assert(shorter[j] == list[j]);
                    }
                }
            },
            None => {
                assert forall|j: int| 0 <= j < list.len() implies (#[trigger] list[j]).purpose
                    != purpose by {
                    if j < shorter.len() {
                        assert(shorter[j] == list[j]);
                    }
                }
            },
        }
    }
}

fn find_last_with_purpose(list: &Vec<AbiParam>, purpose: ArgumentPurpose) -> (r: Option<usize>)
    ensures
        match r {
            Some(i) => last_with_purpose(list@, purpose) == Some(i as int),
            None => last_with_purpose(list@, purpose) is None,
        },
{
    let mut i: usize = list.len();
    proof {
        assert(list@.take(list@.len() as int) =~= list@);
    }
    while i > 0
        invariant
            i <= list.len(),
            last_with_purpose(list@, purpose) == last_with_purpose(list@.take(i as int), purpose),
        decreases i,
    {
        proof {
            assert(list@.take(i as int).drop_last() =~= list@.take(i - 1));
        }
        if list[i - 1].purpose == purpose {
            return Some(i - 1);
        }
        i -= 1;
    }
    None
}

impl Clone for Signature {
    fn clone(&self) -> (s: Self)
        ensures
            s.params@ == self.params@,
            s.returns@ == self.returns@,
            s.call_conv == self.call_conv,
    {
        Signature {
            params: copy_params(&self.params),
            returns: copy_params(&self.returns),
            call_conv: self.call_conv,
        }
    }
}

fn copy_params(list: &Vec<AbiParam>) -> (r: Vec<AbiParam>)
    ensures
        r@ == list@,
{
    let mut r: Vec<AbiParam> = Vec::new();
    let mut i: usize = 0;
    while i < list.len()
        invariant
            i <= list@.len(),
            r@ == list@.take(i as int),
        decreases list@.len() - i,
    {
        r.push(list[i]);
        proof {
            assert(list@.take(i as int).push(list@[i as int]) =~= list@.take(i + 1));
        }
        i += 1;
    }
    proof {
        assert(list@.take(list@.len() as int) =~= list@);
    }
    r
}

impl Signature {
    /// An empty signature with the given calling convention.
    pub fn new(call_conv: CallConv) -> (s: Signature)
        ensures
            s.params@ == Seq::<AbiParam>::empty(),
            s.returns@ == Seq::<AbiParam>::empty(),
            s.call_conv == call_conv,
    {
        Signature { params: Vec::new(), returns: Vec::new(), call_conv }
    }

    /// The index of the last parameter with the given purpose.
    pub fn special_param_index(&self, purpose: ArgumentPurpose) -> (r: Option<usize>)
        ensures
            match r {
                Some(i) => last_with_purpose(self.params@, purpose) == Some(i as int),
                None => last_with_purpose(self.params@, purpose) is None,
            },
    {
        find_last_with_purpose(&self.params, purpose)
    }

    /// The index of the last return value with the given purpose.
    pub fn special_return_index(&self, purpose: ArgumentPurpose) -> (r: Option<usize>)
        ensures
            match r {
                Some(i) => last_with_purpose(self.returns@, purpose) == Some(i as int),
                None => last_with_purpose(self.returns@, purpose) is None,
            },
    {
        find_last_with_purpose(&self.returns, purpose)
    }

    /// Does a parameter have the given purpose?
    pub fn uses_special_param(&self, purpose: ArgumentPurpose) -> (b: bool)
        ensures
            b == last_with_purpose(self.params@, purpose).is_some(),
    {
        self.special_param_index(purpose).is_some()
    }

    /// Does a return value have the given purpose?
    pub fn uses_special_return(&self, purpose: ArgumentPurpose) -> (b: bool)
        ensures
            b == last_with_purpose(self.returns@, purpose).is_some(),
    {
        self.special_return_index(purpose).is_some()
    }
}

/// A stack slot of fixed size.
#[derive(Clone, Copy, Debug, PartialEq, Eq, Structural)]
pub struct StackSlotData {
    /// The size in bytes.
    pub size: u32,
    /// The alignment, as the power of two with this exponent.
    pub align_shift: u8,
}

/// A stack slot whose size depends on a dynamic vector type.
#[derive(Clone, Copy, Debug, PartialEq, Eq, Structural)]
pub struct DynamicStackSlotData {
    /// The number of the dynamic type.
    pub dyn_ty: usize,
}

/// How a global value is computed.
#[derive(Clone, Copy, Debug, PartialEq, Eq, Structural)]
pub enum GlobalValueData {
    /// The VM context pointer itself.
    VMContext,
    /// A word loaded from `offset` bytes behind global value `base`.
    Load { base: usize, offset: i32 },
    /// Any other kind.
    Other,
}

/// What the calling-convention engine reads of a function.
pub struct Function {
    pub signature: Signature,
    pub sized_stack_slots: Vec<StackSlotData>,
    pub dynamic_stack_slots: Vec<DynamicStackSlotData>,
    /// The concrete type of each dynamic vector type, if it has one.
    pub dynamic_types: Vec<Option<Type>>,
    pub global_values: Vec<GlobalValueData>,
    /// The global value that holds the stack limit, if the function
    /// checks one.
    pub stack_limit: Option<usize>,
    /// Does the function call no other function?
    pub is_leaf: bool,
}

} // verus!
