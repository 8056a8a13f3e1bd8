//! The catalog of signatures and their locations.
//!
//! All locations of all signatures stand in one shared list. A signature
//! owns two neighbouring runs of it: its return values first, then its
//! arguments. Entries are appended and never changed.

use crate::abi::{arg_views, ABIArg, ABIArgView, ABIMachineSpec, ArgsAccumulator, ArgsOrRets};
use crate::ir::{last_with_purpose, AbiParam, ArgumentPurpose, CallConv, CodegenError, Flags, Signature};
use vstd::prelude::*;

verus! {

/// The identifier of a signature in a `SigSet`.
#[derive(Copy, Clone, Debug, PartialEq, Eq, Structural)]
pub struct Sig(pub u32);

impl Sig {
    /// The identifier handed out just before this one.
    pub fn prev(self) -> (p: Option<Sig>)
        ensures
            p == (if self.0 == 0 {
                None
            } else {
                Some(Sig((self.0 - 1) as u32))
            }),
    {
        if self.0 == 0 {
            None
        } else {
            Some(Sig(self.0 - 1))
        }
    }

    /// The position of the signature in the catalog.
    pub fn index(self) -> (i: usize)
        ensures
            i == self.0,
    {
        self.0 as usize
    }
}

/// A signature with its locations resolved: where its runs of the shared
/// list end, how much stack space its arguments and its return values
/// take, and which argument carries the pointer to the return area.
#[derive(Clone, Copy, Debug, PartialEq, Eq, Structural)]
pub struct SigData {
    /// The end of the arguments in the shared list.
    pub args_end: u32,
    /// The end of the return values in the shared list, where the
    /// arguments begin.
    pub rets_end: u32,
    /// The stack space that the arguments take.
    pub sized_stack_arg_space: u32,
    /// The stack space that the return values take.
    pub sized_stack_ret_space: u32,
    /// The index, among the arguments, of the pointer to the return area.
    pub stack_ret_arg: Option<u16>,
    /// The calling convention.
    pub call_conv: CallConv,
}

impl SigData {
    /// The stack space that the arguments take.
    pub fn sized_stack_arg_space(&self) -> (n: u32)
        ensures
            n == self.sized_stack_arg_space,
    {
        self.sized_stack_arg_space
    }

    /// The stack space that the return values take.
    pub fn sized_stack_ret_space(&self) -> (n: u32)
        ensures
            n == self.sized_stack_ret_space,
    {
        self.sized_stack_ret_space
    }

    /// The calling convention.
    pub fn call_conv(&self) -> (cc: CallConv)
        ensures
            cc == self.call_conv,
    {
        self.call_conv
    }

    /// The index of the argument that carries the pointer to the return
    /// area, if there is one.
    pub fn stack_ret_arg(&self) -> (i: Option<u16>)
        ensures
            i == self.stack_ret_arg,
    {
        self.stack_ret_arg
    }
}

/// The return values as locations are assigned to them: the parameter
/// that points to a returned structure, where there is one, else the
/// declared return values.
pub open spec fn spec_lowered_returns(sig: &Signature) -> Seq<AbiParam> {
    match last_with_purpose(sig.params@, ArgumentPurpose::StructReturn) {
        Some(i) => seq![sig.params@[i]],
        None => sig.returns@,
    }
}

/// What resolving a signature appends to the shared list and returns.
pub ghost struct Resolved {
    /// The locations appended.
    pub appended: Seq<ABIArgView>,
    /// The resolved signature, or why there is none.
    pub result: Result<SigData, CodegenError>,
}

/// Resolves `sig` behind `base` locations: return values first, then the
/// arguments, with one more argument at the end if the return values
/// take stack space.
pub open spec fn spec_resolve<M: ABIMachineSpec>(sig: &Signature, flags: Flags, base: nat) -> Resolved {
    let limit = M::spec_stack_arg_ret_size_limit();
    let rets = M::arg_locs(
        sig.call_conv,
        flags,
        spec_lowered_returns(sig),
        ArgsOrRets::Rets,
        false,
    );
    match rets.result {
        Err(e) => Resolved { appended: rets.args, result: Err(e) },
        Ok((ret_space, _)) => {
            if ret_space > limit {
                Resolved { appended: rets.args, result: Err(CodegenError::ImplLimitExceeded) }
            } else {
                let args = M::arg_locs(
                    sig.call_conv,
                    flags,
                    sig.params@,
                    ArgsOrRets::Args,
                    ret_space > 0,
                );
                let appended = rets.args + args.args;
                match args.result {
                    Err(e) => Resolved { appended, result: Err(e) },
                    Ok((arg_space, ret_arg)) => {
                        if arg_space > limit {
                            Resolved { appended, result: Err(CodegenError::ImplLimitExceeded) }
                        } else {
                            Resolved {
                                appended,
                                result: Ok(
                                    SigData {
                                        args_end: (base + appended.len()) as u32,
                                        rets_end: (base + rets.args.len()) as u32,
                                        sized_stack_arg_space: arg_space,
                                        sized_stack_ret_space: ret_space,
                                        stack_ret_arg: match ret_arg {
                                            Some(i) => Some(i as u16),
                                            None => None,
                                        },
                                        call_conv: sig.call_conv,
                                    },
                                ),
                            }
                        }
                    },
                }
            }
        },
    }
}

/// The signatures that can be resolved without a fatal error: a returned
/// structure is announced by a parameter alone, and then nothing else is
/// returned and the pointer to it comes back in a register; and return
/// values take stack space only where the flags allow it.
pub open spec fn spec_resolvable<M: ABIMachineSpec>(sig: &Signature, flags: Flags) -> bool {
    &&& last_with_purpose(sig.returns@, ArgumentPurpose::StructReturn) is None
    &&& !flags.enable_multi_ret_implicit_sret ==> match M::arg_locs(
        sig.call_conv,
        flags,
        spec_lowered_returns(sig),
        ArgsOrRets::Rets,
        false,
    ).result {
        Ok((ret_space, _)) => ret_space == 0,
        Err(_) => true,
    }
    &&& last_with_purpose(sig.params@, ArgumentPurpose::StructReturn) is Some ==> {
        &&& sig.returns@.len() == 0
        &&& match M::arg_locs(
            sig.call_conv,
            flags,
            spec_lowered_returns(sig),
            ArgsOrRets::Rets,
            false,
        ).result {
            Ok((ret_space, _)) => ret_space == 0,
            Err(_) => true,
        }
    }
    &&& sig.params@.len() < u16::MAX
}

/// Tests `spec_resolvable`: can the signature be resolved without a
/// fatal error?
pub fn resolvable<M: ABIMachineSpec>(sig: &Signature, flags: &Flags) -> (b: bool)
    ensures
        b == spec_resolvable::<M>(sig, *flags),
{
    proof {
        crate::ir::lemma_last_with_purpose(sig.params@, ArgumentPurpose::StructReturn);
    }
    let tmp: Vec<AbiParam>;
    let lowered: &Vec<AbiParam> = match sig.special_param_index(ArgumentPurpose::StructReturn) {
        Some(struct_ret_index) => {
            tmp = vec![sig.params[struct_ret_index]];
            &tmp
        },
        None => &sig.returns,
    };
    proof {
        assert(lowered@ =~= spec_lowered_returns(sig));
    }
    let mut scratch = ArgsAccumulator::new(Vec::new());
    let rets = M::compute_arg_locs(
        sig.call_conv,
        flags,
        lowered,
        ArgsOrRets::Rets,
        false,
        &mut scratch,
    );
    let no_stack_rets = match rets {
        Ok((space, _)) => space == 0,
        Err(_) => true,
    };
    let plain_returns = !sig.uses_special_return(ArgumentPurpose::StructReturn);
    let rets_allowed = flags.enable_multi_ret_implicit_sret() || no_stack_rets;
    let structure_alone = !sig.uses_special_param(ArgumentPurpose::StructReturn) || (
    sig.returns.len() == 0 && no_stack_rets);
    plain_returns && rets_allowed && structure_alone && sig.params.len() < 0xffff
}

/// Are two signatures the same?
pub open spec fn spec_same_signature(a: &Signature, b: &Signature) -> bool {
    a.params@ == b.params@ && a.returns@ == b.returns@ && a.call_conv == b.call_conv
}

fn same_params(a: &Vec<AbiParam>, b: &Vec<AbiParam>) -> (r: bool)
    ensures
        r == (a@ == b@),
{
    if a.len() != b.len() {
        return false;
    }
    let mut i: usize = 0;
    while i < a.len()
        invariant
            a@.len() == b@.len(),
            i <= a@.len(),
            a@.take(i as int) == b@.take(i as int),
        decreases a@.len() - i,
    {
        if a[i] != b[i] {
            return false;
        }
        proof {
            assert(a@.take(i + 1) =~= a@.take(i as int).push(a@[i as int]));
            assert(b@.take(i + 1) =~= b@.take(i as int).push(b@[i as int]));
        }
        i += 1;
    }
    proof {
        assert(a@.take(a@.len() as int) =~= a@);
        assert(b@.take(b@.len() as int) =~= b@);
    }
    true
}

/// Compares two signatures.
pub fn same_signature(a: &Signature, b: &Signature) -> (r: bool)
    ensures
        r == spec_same_signature(a, b),
{
    a.call_conv == b.call_conv && same_params(&a.params, &b.params) && same_params(
        &a.returns,
        &b.returns,
    )
}

/// A catalog of resolved signatures.
///
/// A signature is entered under the signature itself, or under the
/// number of a signature reference; the two ways are kept apart.
pub struct SigSet {
    /// The signatures entered by value, each with its identifier.
    ir_signature_to_abi_sig: Vec<(Signature, Sig)>,
    /// The identifier of each signature reference that was entered.
    ir_sig_ref_to_abi_sig: Vec<Option<Sig>>,
    /// The locations of all signatures.
    abi_args: Vec<ABIArg>,
    /// The resolved signatures, by identifier.
    sigs: Vec<SigData>,
}

impl SigSet {
    /// The shared list of locations.
    pub closed spec fn spec_abi_args(&self) -> Seq<ABIArg> {
        self.abi_args@
    }

    /// The resolved signatures, by identifier.
    pub closed spec fn spec_sigs(&self) -> Seq<SigData> {
        self.sigs@
    }

    /// The signatures entered by value, oldest first.
    pub closed spec fn spec_by_signature(&self) -> Seq<(Signature, Sig)> {
        self.ir_signature_to_abi_sig@
    }

    /// The identifiers of the signature references, by number.
    pub closed spec fn spec_by_sig_ref(&self) -> Seq<Option<Sig>> {
        self.ir_sig_ref_to_abi_sig@
    }

    /// Where the return values of signature `i` begin.
    pub open spec fn spec_rets_start(&self, i: int) -> int {
        if i == 0 {
            0
        } else {
            self.spec_sigs()[i - 1].args_end as int
        }
    }

    /// The arguments of a signature.
    pub open spec fn spec_args(&self, sig: Sig) -> Seq<ABIArg> {
        let data = self.spec_sigs()[sig.0 as int];
        self.spec_abi_args().subrange(data.rets_end as int, data.args_end as int)
    }

    /// The return values of a signature.
    pub open spec fn spec_rets(&self, sig: Sig) -> Seq<ABIArg> {
        let data = self.spec_sigs()[sig.0 as int];
        self.spec_abi_args().subrange(self.spec_rets_start(sig.0 as int), data.rets_end as int)
    }

    /// The number of arguments that the signature declares.
    pub open spec fn spec_num_args(&self, sig: Sig) -> int {
        if self.spec_sigs()[sig.0 as int].stack_ret_arg is Some {
            self.spec_args(sig).len() - 1
        } else {
            self.spec_args(sig).len() as int
        }
    }

    /// The argument that carries the pointer to the return area.
    pub open spec fn spec_get_ret_arg(&self, sig: Sig) -> Option<ABIArgView> {
        match self.spec_sigs()[sig.0 as int].stack_ret_arg {
            Some(i) => Some(self.spec_args(sig)[i as int]@),
            None => None,
        }
    }

    /// Is `sig` the identifier of a signature of this catalog?
    pub open spec fn has(&self, sig: Sig) -> bool {
        sig.0 < self.spec_sigs().len()
    }

    /// Signature `i` owns two neighbouring runs of the shared list, and its
    /// pointer to the return area, present exactly if its return values
    /// take stack space, is the last of its arguments, in one slot.
    pub open spec fn entry_wf(&self, i: int) -> bool {
        let data = self.spec_sigs()[i];
        &&& self.spec_rets_start(i) <= data.rets_end <= data.args_end <= self.spec_abi_args().len()
        &&& data.stack_ret_arg is Some <==> data.sized_stack_ret_space > 0
        &&& match data.stack_ret_arg {
            Some(k) => {
                &&& k + 1 == data.args_end - data.rets_end
                &&& self.spec_abi_args()[data.rets_end + k] is Slots
                &&& self.spec_abi_args()[data.rets_end + k]@->Slots_slots.len() == 1
            },
            None => true,
        }
    }

    /// The entry for a signature entered by value counts as many arguments
    /// and return values as the signature declares.
    pub open spec fn by_signature_wf(&self, j: int) -> bool {
        let (signature, sig) = self.spec_by_signature()[j];
        &&& self.has(sig)
        &&& self.spec_num_args(sig) == signature.params@.len()
        &&& self.spec_rets(sig).len() == spec_lowered_returns(&signature).len()
        &&& forall|k: int|
            0 <= k < self.spec_by_signature().len() && k != j ==> !spec_same_signature(
                &(#[trigger] self.spec_by_signature()[k]).0,
                &signature,
            )
    }

    /// Every location that is in slots has at least one slot.
    pub open spec fn args_wf(&self) -> bool {
        forall|k: int| 0 <= k < self.spec_abi_args().len() ==> (#[trigger] self.spec_abi_args()[k])@.wf()
    }

    /// The catalog's invariant.
    pub open spec fn wf(&self) -> bool {
        &&& self.spec_sigs().len() <= u32::MAX
        &&& self.spec_abi_args().len() <= u32::MAX
        &&& self.args_wf()
        &&& forall|i: int| 0 <= i < self.spec_sigs().len() ==> #[trigger] self.entry_wf(i)
        &&& self.spec_abi_args().len() == self.spec_rets_start(self.spec_sigs().len() as int)
        &&& forall|j: int| 0 <= j < self.spec_by_signature().len() ==> #[trigger] self.by_signature_wf(
            j,
        )
        &&& forall|r: int|
            0 <= r < self.spec_by_sig_ref().len() ==> match #[trigger] self.spec_by_sig_ref()[r] {
                Some(sig) => self.has(sig),
                None => true,
            }
    }

    /// An empty catalog.
    pub fn empty() -> (set: SigSet)
        ensures
            set.wf(),
            set.spec_sigs().len() == 0,
            set.spec_abi_args().len() == 0,
            set.spec_by_signature().len() == 0,
            set.spec_by_sig_ref().len() == 0,
    {
        SigSet {
            ir_signature_to_abi_sig: Vec::new(),
            ir_sig_ref_to_abi_sig: Vec::new(),
            abi_args: Vec::new(),
            sigs: Vec::new(),
        }
    }

    /// The position of `signature` among the signatures entered by value.
    pub open spec fn spec_position(&self, signature: &Signature) -> Option<int> {
        if exists|j: int|
            0 <= j < self.spec_by_signature().len() && spec_same_signature(
                &(#[trigger] self.spec_by_signature()[j]).0,
                signature,
            ) {
            Some(
                choose|j: int|
                    0 <= j < self.spec_by_signature().len() && spec_same_signature(
                        &(#[trigger] self.spec_by_signature()[j]).0,
                        signature,
                    ),
            )
        } else {
            None
        }
    }

    fn position(&self, signature: &Signature) -> (r: Option<usize>)
        ensures
            match r {
                Some(j) => j < self.spec_by_signature().len() && spec_same_signature(
                    &self.spec_by_signature()[j as int].0,
                    signature,
                ),
                None => forall|j: int|
                    0 <= j < self.spec_by_signature().len() ==> !spec_same_signature(
                        &(#[trigger] self.spec_by_signature()[j]).0,
                        signature,
                    ),
            },
    {
        let mut j: usize = 0;
        while j < self.ir_signature_to_abi_sig.len()
            invariant
                j <= self.ir_signature_to_abi_sig@.len(),
                forall|k: int|
                    0 <= k < j ==> !spec_same_signature(
                        &(#[trigger] self.ir_signature_to_abi_sig@[k]).0,
                        signature,
                    ),
            decreases self.ir_signature_to_abi_sig@.len() - j,
        {
            if same_signature(&self.ir_signature_to_abi_sig[j].0, signature) {
                return Some(j);
            }
            j += 1;
        }
        None
    }

    /// Has `signature` been entered by value?
    pub fn have_abi_sig_for_signature(&self, signature: &Signature) -> (b: bool)
        ensures
            b == self.spec_position(signature).is_some(),
    {
        self.position(signature).is_some()
    }

    /// The identifier under which `signature` was entered by value.
    pub open spec fn spec_sig_for(&self, signature: &Signature) -> Sig {
        self.spec_by_signature()[self.spec_position(signature)->Some_0].1
    }

    /// The identifier under which `signature` was entered by value.
    pub fn abi_sig_for_signature(&self, signature: &Signature) -> (sig: Sig)
        requires
            self.wf(),
            self.spec_position(signature) is Some,
        ensures
            sig == self.spec_sig_for(signature),
            self.has(sig),
            self.spec_num_args(sig) == signature.params@.len(),
            self.spec_rets(sig).len() == spec_lowered_returns(signature).len(),
    {
        match self.position(signature) {
            Some(j) => {
                proof {
                    let p = self.spec_position(signature)->Some_0;
                    assert(self.by_signature_wf(j as int));
                    assert(self.by_signature_wf(p));
                    if p != j as int {
                        assert(!spec_same_signature(
                            &self.spec_by_signature()[p].0,
                            &self.spec_by_signature()[j as int].0,
                        ));
                    }
                }
                self.ir_signature_to_abi_sig[j].1
            },
            None => {
                proof {
                    let j = self.spec_position(signature)->Some_0;
                    assert(spec_same_signature(&self.spec_by_signature()[j].0, signature));
                }
                vstd::pervasive::unreached()
            },
        }
    }

    /// The identifier under which signature reference `sig_ref` was
    /// entered.
    pub fn abi_sig_for_sig_ref(&self, sig_ref: usize) -> (sig: Sig)
        requires
            self.wf(),
            sig_ref < self.spec_by_sig_ref().len(),
            self.spec_by_sig_ref()[sig_ref as int] is Some,
        ensures
            Some(sig) == self.spec_by_sig_ref()[sig_ref as int],
            self.has(sig),
    {
        match self.ir_sig_ref_to_abi_sig[sig_ref] {
            Some(sig) => sig,
            None => vstd::pervasive::unreached(),
        }
    }

    /// The number of locations in the shared list.
    pub fn get_len(&self) -> (n: usize)
        ensures
            n == self.spec_abi_args().len(),
    {
        self.abi_args.len()
    }

    /// The resolved signature with the given identifier.
    pub fn get(&self, sig: Sig) -> (data: &SigData)
        requires
            self.has(sig),
        ensures
            *data == self.spec_sigs()[sig.0 as int],
    {
        &self.sigs[sig.index()]
    }

    /// The arguments of a signature.
    pub fn args(&self, sig: Sig) -> (a: &[ABIArg])
        requires
            self.wf(),
            self.has(sig),
        ensures
            a@ == self.spec_args(sig),
    {
        proof {
            assert(self.entry_wf(sig.0 as int));
        }
        let sig_data = &self.sigs[sig.index()];
        let start = sig_data.rets_end as usize;
        let end = sig_data.args_end as usize;
        let a = &self.abi_args.as_slice()[start..end];
        a
    }

    /// The argument that carries the pointer to the return area. The
    /// signature has one exactly if its return values take stack space.
    pub fn get_ret_arg(&self, sig: Sig) -> (r: Option<ABIArg>)
        requires
            self.wf(),
            self.has(sig),
        ensures
            match r {
                Some(arg) => Some(arg@) == self.spec_get_ret_arg(sig),
                None => self.spec_get_ret_arg(sig) is None,
            },
            r is Some <==> self.spec_sigs()[sig.0 as int].sized_stack_ret_space > 0,
    {
        proof {
            assert(self.entry_wf(sig.0 as int));
        }
        let sig_data = &self.sigs[sig.index()];
        if let Some(i) = sig_data.stack_ret_arg {
            Some(self.args(sig)[i as usize].clone())
        } else {
            None
        }
    }

    /// The location of one argument.
    pub fn get_arg(&self, sig: Sig, idx: usize) -> (arg: ABIArg)
        requires
            self.wf(),
            self.has(sig),
            idx < self.spec_args(sig).len(),
        ensures
            arg@ == self.spec_args(sig)[idx as int]@,
    {
        self.args(sig)[idx].clone()
    }

    /// The return values of a signature.
    pub fn rets(&self, sig: Sig) -> (a: &[ABIArg])
        requires
            self.wf(),
            self.has(sig),
        ensures
            a@ == self.spec_rets(sig),
    {
        proof {
            assert(self.entry_wf(sig.0 as int));
            if sig.0 > 0 {
                assert(self.entry_wf(sig.0 - 1));
            }
        }
        let sig_data = &self.sigs[sig.index()];
        let start = match sig.prev() {
            Some(prev) => self.sigs[prev.index()].args_end as usize,
            None => 0,
        };
        let end = sig_data.rets_end as usize;
        let a = &self.abi_args.as_slice()[start..end];
        a
    }

    /// The location of one return value.
    pub fn get_ret(&self, sig: Sig, idx: usize) -> (arg: ABIArg)
        requires
            self.wf(),
            self.has(sig),
            idx < self.spec_rets(sig).len(),
        ensures
            arg@ == self.spec_rets(sig)[idx as int]@,
    {
        self.rets(sig)[idx].clone()
    }

    /// The number of arguments that the signature declares: the pointer to
    /// the return area is not counted.
    pub fn num_args(&self, sig: Sig) -> (n: usize)
        requires
            self.wf(),
            self.has(sig),
        ensures
            n == self.spec_num_args(sig),
    {
        proof {
            assert(self.entry_wf(sig.0 as int));
        }
        let len = self.args(sig).len();
        if self.sigs[sig.index()].stack_ret_arg.is_some() {
            len - 1
        } else {
            len
        }
    }

    /// The number of return values.
    pub fn num_rets(&self, sig: Sig) -> (n: usize)
        requires
            self.wf(),
            self.has(sig),
        ensures
            n == self.spec_rets(sig).len(),
    {
        self.rets(sig).len()
    }

    /// Resolves `sig` and appends its locations to the shared list: the
    /// return values first, then the arguments, so that the pointer to the
    /// return area can follow the arguments when the return values take
    /// stack space. The resolved signature is returned, not yet entered.
    ///
    /// Fails with `ImplLimitExceeded` if the stack space of the arguments,
    /// or of the return values, is over the machine's limit.
    pub fn from_func_sig<M: ABIMachineSpec>(&mut self, sig: &Signature, flags: &Flags) -> (r: Result<
        SigData,
        CodegenError,
    >)
        requires
            old(self).wf(),
            spec_resolvable::<M>(sig, *flags),
            old(self).spec_abi_args().len() + sig.params@.len() + sig.returns@.len() + 2
                <= u32::MAX,
        ensures
            r == spec_resolve::<M>(sig, *flags, old(self).spec_abi_args().len()).result,
            final(self).spec_abi_args().len() == old(self).spec_abi_args().len() + spec_resolve::<M>(
                sig,
                *flags,
                old(self).spec_abi_args().len(),
            ).appended.len(),
            final(self).spec_abi_args().take(old(self).spec_abi_args().len() as int) == old(
                self,
            ).spec_abi_args(),
            arg_views(
                final(self).spec_abi_args().skip(old(self).spec_abi_args().len() as int),
            ) == spec_resolve::<M>(sig, *flags, old(self).spec_abi_args().len()).appended,
            final(self).spec_sigs() == old(self).spec_sigs(),
            final(self).spec_by_signature() == old(self).spec_by_signature(),
            final(self).spec_by_sig_ref() == old(self).spec_by_sig_ref(),
            final(self).args_wf(),
            r is Ok ==> final(self).pending_wf(sig, r->Ok_0),
    {
        let ghost base = self.abi_args@;
        proof {
            crate::ir::lemma_last_with_purpose(sig.params@, ArgumentPurpose::StructReturn);
        }
        let tmp: Vec<AbiParam>;
        let lowered: &Vec<AbiParam> = match sig.special_param_index(ArgumentPurpose::StructReturn) {
            Some(struct_ret_index) => {
                tmp = vec![sig.params[struct_ret_index]];
                &tmp
            },
            None => &sig.returns,
        };
        proof {
            assert(lowered@ =~= spec_lowered_returns(sig));
        }

        let mut taken: Vec<ABIArg> = Vec::new();
        core::mem::swap(&mut self.abi_args, &mut taken);
        let mut acc = ArgsAccumulator::new(taken);
        let rets = M::compute_arg_locs(
            sig.call_conv,
            flags,
            lowered,
            ArgsOrRets::Rets,
            false,
            &mut acc,
        );
        let ghost rets_appended = acc.spec_args();
        let ghost after_rets = acc.spec_all();
        self.abi_args = acc.into_inner();
        proof {
            assert(after_rets.skip(base.len() as int) =~= rets_appended);
            assert forall|k: int| 0 <= k < after_rets.len() implies (#[trigger] after_rets[k])@.wf() by {
                if k < base.len() {
                    assert(after_rets.take(base.len() as int)[k] == base[k]);
                } else {
                    assert(after_rets[k] == rets_appended[k - base.len()]);
                }
            }
        }
        let sized_stack_ret_space = match rets {
            Ok((space, _)) => space,
            Err(e) => {
                return Err(e);
            },
        };
        let rets_end = self.abi_args.len() as u32;

        if sized_stack_ret_space > M::stack_arg_ret_size_limit() {
            return Err(CodegenError::ImplLimitExceeded);
        }
        let need_stack_return_area = sized_stack_ret_space > 0;

        let mut taken: Vec<ABIArg> = Vec::new();
        core::mem::swap(&mut self.abi_args, &mut taken);
        let mut acc = ArgsAccumulator::new(taken);
        let args = M::compute_arg_locs(
            sig.call_conv,
            flags,
            &sig.params,
            ArgsOrRets::Args,
            need_stack_return_area,
            &mut acc,
        );
        let ghost args_appended = acc.spec_args();
        self.abi_args = acc.into_inner();
        proof {
            let all = self.abi_args@;
            assert(all.skip(after_rets.len() as int) =~= args_appended);
            assert(all.take(after_rets.len() as int) == after_rets);
            assert(all.take(base.len() as int) =~= after_rets.take(base.len() as int));
            assert(all.skip(base.len() as int) =~= rets_appended + args_appended);
            assert(arg_views(rets_appended + args_appended) =~= arg_views(rets_appended)
                + arg_views(args_appended));
            assert forall|k: int| 0 <= k < all.len() implies (#[trigger] all[k])@.wf() by {
                if k < after_rets.len() {
                    assert(all.take(after_rets.len() as int)[k] == after_rets[k]);
                } else {
                    assert(all[k] == args_appended[k - after_rets.len()]);
                }
            }
        }
        let (sized_stack_arg_space, stack_ret_arg) = match args {
            Ok(pair) => pair,
            Err(e) => {
                return Err(e);
            },
        };
        let args_end = self.abi_args.len() as u32;

        if sized_stack_arg_space > M::stack_arg_ret_size_limit() {
            return Err(CodegenError::ImplLimitExceeded);
        }
        let stack_ret_arg = match stack_ret_arg {
            Some(s) => Some(s as u16),
            None => None,
        };
        let data = SigData {
            args_end,
            rets_end,
            sized_stack_arg_space,
            sized_stack_ret_space,
            stack_ret_arg,
            call_conv: sig.call_conv,
        };
        proof {
            let all = self.abi_args@;
            if need_stack_return_area {
                let k = sig.params@.len() as int;
                assert(all[rets_end + k] == args_appended[k]);
            }
            assert(all.subrange(base.len() as int, rets_end as int) =~= rets_appended);
        }
        Ok(data)
    }

    /// What holds between `from_func_sig` and the entry of its result:
    /// the new locations stand behind those of the catalog's signatures,
    /// and `data` describes them as an entry would.
    pub open spec fn pending_wf(&self, sig: &Signature, data: SigData) -> bool {
        let base = self.spec_rets_start(self.spec_sigs().len() as int);
        &&& base <= data.rets_end <= data.args_end == self.spec_abi_args().len()
        &&& data.rets_end - base == spec_lowered_returns(sig).len()
        &&& data.stack_ret_arg is Some <==> data.sized_stack_ret_space > 0
        &&& data.args_end - data.rets_end == sig.params@.len() + (if data.stack_ret_arg is Some {
            1int
        } else {
            0int
        })
        &&& match data.stack_ret_arg {
            Some(k) => {
                &&& k == sig.params@.len()
                &&& self.spec_abi_args()[data.rets_end + k] is Slots
                &&& self.spec_abi_args()[data.rets_end + k]@->Slots_slots.len() == 1
            },
            None => true,
        }
        &&& data.call_conv == sig.call_conv
    }

    /// The catalog once `data`, resolved from `signature`, has been entered
    /// behind the signatures of `before`.
    pub open spec fn entered(&self, before: &SigSet, data: SigData) -> bool {
        &&& self.spec_sigs() == before.spec_sigs().push(data)
        &&& before.spec_abi_args().len() <= self.spec_abi_args().len() == data.args_end
        &&& self.spec_abi_args().take(before.spec_abi_args().len() as int)
            == before.spec_abi_args()
    }

    /// Entering a signature leaves the locations of the earlier ones as
    /// they were.
    pub proof fn lemma_entered_keeps(&self, before: &SigSet, data: SigData, sig: Sig)
        requires
            before.wf(),
            before.has(sig),
            self.entered(before, data),
        ensures
            self.has(sig),
            self.spec_args(sig) == before.spec_args(sig),
            self.spec_rets(sig) == before.spec_rets(sig),
            self.spec_num_args(sig) == before.spec_num_args(sig),
            self.spec_get_ret_arg(sig) == before.spec_get_ret_arg(sig),
            self.entry_wf(sig.0 as int),
    {
        let i = sig.0 as int;
        let old_len = before.spec_abi_args().len() as int;
        assert(before.entry_wf(i));
        if i > 0 {
            assert(before.entry_wf(i - 1));
        }
        assert(self.spec_sigs()[i] == before.spec_sigs()[i]);
        assert forall|k: int| 0 <= k < old_len implies self.spec_abi_args()[k]
            == before.spec_abi_args()[k] by {
            assert(self.spec_abi_args().take(old_len)[k] == self.spec_abi_args()[k]);
        }
        assert(self.spec_args(sig) =~= before.spec_args(sig));
        assert(self.spec_rets(sig) =~= before.spec_rets(sig));
    }

    /// Resolves `signature` and enters it by value.
    ///
    /// A signature is entered once: entering it again is a fault of the
    /// caller. Where resolving fails the error is returned; the shared
    /// list may then hold locations that belong to no signature, and the
    /// catalog is of no further use.
    pub fn make_abi_sig_from_ir_signature<M: ABIMachineSpec>(
        &mut self,
        signature: Signature,
        flags: &Flags,
    ) -> (r: Result<Sig, CodegenError>)
        requires
            old(self).wf(),
            old(self).spec_position(&signature) is None,
            spec_resolvable::<M>(&signature, *flags),
            old(self).spec_abi_args().len() + signature.params@.len() + signature.returns@.len()
                + 2 <= u32::MAX,
            old(self).spec_sigs().len() < u32::MAX,
        ensures
            match spec_resolve::<M>(&signature, *flags, old(self).spec_abi_args().len()).result {
                Ok(data) => {
                    &&& r == Ok::<Sig, CodegenError>(Sig(old(self).spec_sigs().len() as u32))
                    &&& final(self).wf()
                    &&& final(self).entered(old(self), data)
                    &&& final(self).spec_by_signature() == old(self).spec_by_signature().push(
                        (signature, r->Ok_0),
                    )
                    &&& final(self).spec_by_sig_ref() == old(self).spec_by_sig_ref()
                    &&& final(self).spec_abi_args().len() <= old(self).spec_abi_args().len()
                        + signature.params@.len() + signature.returns@.len() + 2
                    &&& final(self).spec_num_args(r->Ok_0) == signature.params@.len()
                    &&& final(self).spec_rets(r->Ok_0).len() == spec_lowered_returns(
                        &signature,
                    ).len()
                    &&& arg_views(final(self).spec_rets(r->Ok_0) + final(self).spec_args(r->Ok_0))
                        == spec_resolve::<M>(
                        &signature,
                        *flags,
                        old(self).spec_abi_args().len(),
                    ).appended
                },
                Err(e) => r == Err::<Sig, CodegenError>(e),
            },
    {
        let ghost before = *self;
        let sig_data = match self.from_func_sig::<M>(&signature, flags) {
            Ok(data) => data,
            Err(e) => {
                return Err(e);
            },
        };
        let sig = Sig(self.sigs.len() as u32);
        self.sigs.push(sig_data);
        proof {
            self.lemma_enter(&before, &signature, sig_data);
        }
        let ghost mid = *self;
        self.ir_signature_to_abi_sig.push((signature, sig));
        proof {
            let j = before.spec_by_signature().len() as int;
            assert forall|i: int| 0 <= i < self.spec_sigs().len() implies #[trigger] self.entry_wf(
                i,
            ) by {
                assert(mid.entry_wf(i));
            }
            assert forall|k: int| 0 <= k < self.spec_by_signature().len() implies #[trigger] self.by_signature_wf(k) by {
                if k < j {
                    assert(before.by_signature_wf(k));
                    let (s, id) = before.spec_by_signature()[k];
                    assert(self.spec_by_signature()[k] == before.spec_by_signature()[k]);
                    self.lemma_entered_keeps(&before, sig_data, id);
                    assert forall|m: int|
                        0 <= m < self.spec_by_signature().len() && m != k implies !spec_same_signature(
                        &(#[trigger] self.spec_by_signature()[m]).0,
                        &s,
                    ) by {
                        if m < j {
                            assert(self.spec_by_signature()[m] == before.spec_by_signature()[m]);
                        } else {
                            assert(
                                !spec_same_signature(&before.spec_by_signature()[k].0, &signature)
                            );
                        }
                    }
                } else {
                    assert forall|m: int|
                        0 <= m < self.spec_by_signature().len() && m != k implies !spec_same_signature(
                        &(#[trigger] self.spec_by_signature()[m]).0,
                        &signature,
                    ) by {
                        assert(self.spec_by_signature()[m] == before.spec_by_signature()[m]);
                        assert(!spec_same_signature(&before.spec_by_signature()[m].0, &signature));
                    }
                }
            }
        }
        Ok(sig)
    }

    /// Entering the pending result of `from_func_sig` restores the
    /// invariant but for the two tables of entered signatures.
    proof fn lemma_enter(&self, before: &SigSet, signature: &Signature, data: SigData)
        requires
            before.wf(),
            before.spec_sigs().len() < u32::MAX,
            self.spec_sigs() == before.spec_sigs().push(data),
            self.spec_abi_args().take(before.spec_abi_args().len() as int)
                == before.spec_abi_args(),
            self.spec_abi_args().len() >= before.spec_abi_args().len(),
            self.spec_abi_args().len() <= u32::MAX,
            ({
                let base = before.spec_abi_args().len() as int;
                &&& base <= data.rets_end <= data.args_end == self.spec_abi_args().len()
                &&& data.rets_end - base == spec_lowered_returns(signature).len()
                &&& data.stack_ret_arg is Some <==> data.sized_stack_ret_space > 0
                &&& data.args_end - data.rets_end == signature.params@.len() + (if data.stack_ret_arg is Some {
                    1int
                } else {
                    0int
                })
                &&& match data.stack_ret_arg {
                    Some(k) => {
                        &&& k == signature.params@.len()
                        &&& self.spec_abi_args()[data.rets_end + k] is Slots
                        &&& self.spec_abi_args()[data.rets_end + k]@->Slots_slots.len() == 1
                    },
                    None => true,
                }
            }),
        ensures
            self.entered(before, data),
            forall|i: int| 0 <= i < self.spec_sigs().len() ==> #[trigger] self.entry_wf(i),
            self.spec_abi_args().len() == self.spec_rets_start(self.spec_sigs().len() as int),
            self.spec_num_args(Sig(before.spec_sigs().len() as u32)) == signature.params@.len(),
            self.spec_rets(Sig(before.spec_sigs().len() as u32)).len() == spec_lowered_returns(
                signature,
            ).len(),
            self.spec_rets(Sig(before.spec_sigs().len() as u32)) + self.spec_args(
                Sig(before.spec_sigs().len() as u32),
            ) == self.spec_abi_args().skip(before.spec_abi_args().len() as int),
            forall|sig: Sig| before.has(sig) ==> self.has(sig),
    {
        let n = before.spec_sigs().len() as int;
        let new = Sig(n as u32);
        if n > 0 {
            assert(before.entry_wf(n - 1));
        }
        assert(self.spec_sigs()[n] == data);
        assert(self.spec_rets_start(n) == before.spec_abi_args().len());
        assert forall|i: int| 0 <= i < self.spec_sigs().len() implies #[trigger] self.entry_wf(i) by {
            if i < n {
                self.lemma_entered_keeps(before, data, Sig(i as u32));
            }
        }
        assert(self.spec_rets(new) + self.spec_args(new) =~= self.spec_abi_args().skip(
            before.spec_abi_args().len() as int,
        ));
    }

    /// The identifier entered for signature reference `sig_ref`, if any.
    pub open spec fn spec_lookup_ref(&self, sig_ref: int) -> Option<Sig> {
        if 0 <= sig_ref < self.spec_by_sig_ref().len() {
            self.spec_by_sig_ref()[sig_ref]
        } else {
            None
        }
    }

    /// Resolves the signature that reference `sig_ref` names in
    /// `signatures` and enters it under that reference, unless the
    /// reference has been entered before: then its identifier is returned
    /// and nothing changes. Where resolving fails the error is returned,
    /// and the catalog is of no further use.
    pub fn make_abi_sig_from_ir_sig_ref<M: ABIMachineSpec>(
        &mut self,
        sig_ref: usize,
        signatures: &Vec<Signature>,
        flags: &Flags,
    ) -> (r: Result<Sig, CodegenError>)
        requires
            old(self).wf(),
            sig_ref < signatures@.len(),
            old(self).spec_lookup_ref(sig_ref as int) is None ==> {
                &&& spec_resolvable::<M>(&signatures@[sig_ref as int], *flags)
                &&& old(self).spec_abi_args().len() + signatures@[sig_ref as int].params@.len()
                    + signatures@[sig_ref as int].returns@.len() + 2 <= u32::MAX
                &&& old(self).spec_sigs().len() < u32::MAX
            },
        ensures
            match old(self).spec_lookup_ref(sig_ref as int) {
                Some(sig) => r == Ok::<Sig, CodegenError>(sig) && *final(self) == *old(self),
                None => match spec_resolve::<M>(
                    &signatures@[sig_ref as int],
                    *flags,
                    old(self).spec_abi_args().len(),
                ).result {
                    Ok(data) => {
                        &&& r == Ok::<Sig, CodegenError>(Sig(old(self).spec_sigs().len() as u32))
                        &&& final(self).wf()
                        &&& final(self).entered(old(self), data)
                        &&& final(self).spec_by_signature() == old(self).spec_by_signature()
                        &&& final(self).spec_lookup_ref(sig_ref as int) == Some(r->Ok_0)
                        &&& forall|other: int|
                            other != sig_ref ==> final(self).spec_lookup_ref(other) == old(
                                self,
                            ).spec_lookup_ref(other)
                        &&& final(self).spec_abi_args().len() <= old(self).spec_abi_args().len()
                            + signatures@[sig_ref as int].params@.len()
                            + signatures@[sig_ref as int].returns@.len() + 2
                        &&& final(self).spec_num_args(r->Ok_0)
                            == signatures@[sig_ref as int].params@.len()
                        &&& final(self).spec_rets(r->Ok_0).len() == spec_lowered_returns(
                            &signatures@[sig_ref as int],
                        ).len()
                    },
                    Err(e) => r == Err::<Sig, CodegenError>(e),
                },
            },
    {
        if sig_ref < self.ir_sig_ref_to_abi_sig.len() {
            if let Some(sig) = self.ir_sig_ref_to_abi_sig[sig_ref] {
                return Ok(sig);
            }
        }
        let ghost before = *self;
        let signature = &signatures[sig_ref];
        let sig_data = match self.from_func_sig::<M>(signature, flags) {
            Ok(data) => data,
            Err(e) => {
                return Err(e);
            },
        };
        let sig = Sig(self.sigs.len() as u32);
        self.sigs.push(sig_data);
        proof {
            self.lemma_enter(&before, signature, sig_data);
        }
        let ghost mid = *self;
        while self.ir_sig_ref_to_abi_sig.len() <= sig_ref
            invariant
                self.sigs == mid.sigs,
                self.abi_args == mid.abi_args,
                self.ir_signature_to_abi_sig == mid.ir_signature_to_abi_sig,
                self.ir_sig_ref_to_abi_sig@.len() >= before.ir_sig_ref_to_abi_sig@.len(),
                forall|other: int|
                    0 <= other < self.ir_sig_ref_to_abi_sig@.len() ==> self.ir_sig_ref_to_abi_sig@[other]
                        == before.spec_lookup_ref(other),
            decreases sig_ref + 1 - self.ir_sig_ref_to_abi_sig@.len(),
        {
            self.ir_sig_ref_to_abi_sig.push(None);
        }
        self.ir_sig_ref_to_abi_sig[sig_ref] = Some(sig);
        proof {
            assert forall|i: int| 0 <= i < self.spec_sigs().len() implies #[trigger] self.entry_wf(
                i,
            ) by {
                assert(mid.entry_wf(i));
            }
            assert forall|k: int| 0 <= k < self.spec_by_signature().len() implies #[trigger] self.by_signature_wf(k) by {
                assert(before.by_signature_wf(k));
                self.lemma_entered_keeps(&before, sig_data, before.spec_by_signature()[k].1);
            }
            assert forall|other: int| other != sig_ref implies self.spec_lookup_ref(other)
                == before.spec_lookup_ref(other) by {}
            assert forall|r: int| 0 <= r < self.spec_by_sig_ref().len() implies match #[trigger] self.spec_by_sig_ref()[r] {
                Some(sig) => self.has(sig),
                None => true,
            } by {
                if r != sig_ref {
                    assert(self.spec_by_sig_ref()[r] == before.spec_lookup_ref(r));
                }
            }
        }
        Ok(sig)
    }

    /// The greatest number of locations that resolving `signatures` can
    /// add.
    pub open spec fn spec_locations_bound(signatures: Seq<Signature>) -> int
        decreases signatures.len(),
    {
        if signatures.len() == 0 {
            0
        } else {
            Self::spec_locations_bound(signatures.drop_last()) + signatures.last().params@.len()
                + signatures.last().returns@.len() + 2
        }
    }

    /// The error of the first signature of `signatures` that cannot be
    /// resolved.
    pub open spec fn spec_first_error<M: ABIMachineSpec>(signatures: Seq<Signature>, flags: Flags) -> Option<
        CodegenError,
    >
        decreases signatures.len(),
    {
        if signatures.len() == 0 {
            None
        } else {
            match Self::spec_first_error::<M>(signatures.drop_last(), flags) {
                Some(e) => Some(e),
                None => match spec_resolve::<M>(&signatures.last(), flags, 0).result {
                    Ok(_) => None,
                    Err(e) => Some(e),
                },
            }
        }
    }

    /// Whether a signature can be resolved, and with which error it
    /// cannot, does not depend on what the shared list holds already.
    pub proof fn lemma_resolve_error_any_base<M: ABIMachineSpec>(
        sig: &Signature,
        flags: Flags,
        base1: nat,
        base2: nat,
    )
        ensures
            spec_resolve::<M>(sig, flags, base1).result is Ok <==> spec_resolve::<M>(
                sig,
                flags,
                base2,
            ).result is Ok,
            spec_resolve::<M>(sig, flags, base1).result is Err ==> spec_resolve::<M>(
                sig,
                flags,
                base1,
            ).result == spec_resolve::<M>(sig, flags, base2).result,
    {
    }

    /// A catalog with the signature of a function and the signatures that
    /// its body refers to: the function's own under identifier 0, entered
    /// by value, and reference `r` under identifier `r + 1`.
    pub fn new<M: ABIMachineSpec>(signature: &Signature, signatures: &Vec<Signature>, flags: &Flags) -> (r:
        Result<SigSet, CodegenError>)
        requires
            spec_resolvable::<M>(signature, *flags),
            forall|k: int|
                0 <= k < signatures@.len() ==> spec_resolvable::<M>(
                    &#[trigger] signatures@[k],
                    *flags,
                ),
            Self::spec_locations_bound(seq![*signature] + signatures@) <= u32::MAX,
            signatures@.len() + 1 < u32::MAX,
        ensures
            match r {
                Ok(set) => {
                    &&& Self::spec_first_error::<M>(seq![*signature] + signatures@, *flags) is None
                    &&& set.wf()
                    &&& set.spec_sigs().len() == signatures@.len() + 1
                    &&& set.spec_by_signature().len() == 1
                    &&& spec_same_signature(&set.spec_by_signature()[0].0, signature)
                    &&& set.spec_by_signature()[0].1 == Sig(0)
                    &&& set.spec_num_args(Sig(0)) == signature.params@.len()
                    &&& set.spec_rets(Sig(0)).len() == spec_lowered_returns(signature).len()
                    &&& forall|k: int|
                        0 <= k < signatures@.len() ==> {
                            &&& #[trigger] set.spec_lookup_ref(k) == Some(Sig((k + 1) as u32))
                            &&& set.spec_num_args(Sig((k + 1) as u32)) == signatures@[k].params@.len()
                            &&& set.spec_rets(Sig((k + 1) as u32)).len() == spec_lowered_returns(
                                &signatures@[k],
                            ).len()
                        }
                },
                Err(e) => Self::spec_first_error::<M>(seq![*signature] + signatures@, *flags)
                    == Some(e),
            },
    {
        let ghost all = seq![*signature] + signatures@;
        let mut sigs = SigSet::empty();
        proof {
            assert(all.take(1) =~= seq![*signature]);
            assert(all.take(1).drop_last() =~= Seq::<Signature>::empty());
            assert(all.take(1).last() == *signature);
            assert(Self::spec_first_error::<M>(all.take(1).drop_last(), *flags) is None);
            Self::lemma_locations_bound_take(all, 1);
            assert(Self::spec_locations_bound(all.take(1).drop_last()) == 0);
        }
        let own = signature.clone();
        match sigs.make_abi_sig_from_ir_signature::<M>(own, flags) {
            Ok(_) => {},
            Err(e) => {
                proof {
                    Self::lemma_first_error_take::<M>(all, *flags, 1);
                }
                return Err(e);
            },
        }
        let mut k: usize = 0;
        while k < signatures.len()
            invariant
                all == seq![*signature] + signatures@,
                k <= signatures@.len(),
                signatures@.len() + 1 < u32::MAX,
                Self::spec_locations_bound(all) <= u32::MAX,
                forall|j: int|
                    0 <= j < signatures@.len() ==> spec_resolvable::<M>(
                        &#[trigger] signatures@[j],
                        *flags,
                    ),
                sigs.wf(),
                sigs.spec_sigs().len() == k + 1,
                sigs.spec_abi_args().len() <= Self::spec_locations_bound(all.take(k + 1)),
                Self::spec_first_error::<M>(all.take(k + 1), *flags) is None,
                sigs.spec_by_signature().len() == 1,
                spec_same_signature(&sigs.spec_by_signature()[0].0, signature),
                sigs.spec_by_signature()[0].1 == Sig(0),
                sigs.spec_num_args(Sig(0)) == signature.params@.len(),
                sigs.spec_rets(Sig(0)).len() == spec_lowered_returns(signature).len(),
                forall|j: int| j >= k ==> sigs.spec_lookup_ref(j) is None,
                forall|j: int|
                    0 <= j < k ==> {
                        &&& #[trigger] sigs.spec_lookup_ref(j) == Some(Sig((j + 1) as u32))
                        &&& sigs.spec_num_args(Sig((j + 1) as u32)) == signatures@[j].params@.len()
                        &&& sigs.spec_rets(Sig((j + 1) as u32)).len() == spec_lowered_returns(
                            &signatures@[j],
                        ).len()
                    },
            decreases signatures@.len() - k,
        {
            let ghost before = sigs;
            proof {
                assert(all.take(k + 2).drop_last() =~= all.take(k + 1));
                assert(all.take(k + 2).last() == signatures@[k as int]);
                Self::lemma_locations_bound_take(all, k + 2);
                Self::lemma_resolve_error_any_base::<M>(
                    &signatures@[k as int],
                    *flags,
                    0,
                    sigs.spec_abi_args().len(),
                );
            }
            match sigs.make_abi_sig_from_ir_sig_ref::<M>(k, signatures, flags) {
                Ok(_) => {},
                Err(e) => {
                    proof {
                        Self::lemma_first_error_take::<M>(all, *flags, k + 2);
                    }
                    return Err(e);
                },
            }
            proof {
                let data = sigs.spec_sigs()[k + 1];
                sigs.lemma_entered_keeps(&before, data, Sig(0));
                assert forall|j: int| 0 <= j < k implies {
                    &&& #[trigger] sigs.spec_lookup_ref(j) == Some(Sig((j + 1) as u32))
                    &&& sigs.spec_num_args(Sig((j + 1) as u32)) == signatures@[j].params@.len()
                    &&& sigs.spec_rets(Sig((j + 1) as u32)).len() == spec_lowered_returns(
                        &signatures@[j],
                    ).len()
                } by {
                    assert(before.spec_lookup_ref(j) == Some(Sig((j + 1) as u32)));
                    sigs.lemma_entered_keeps(&before, data, Sig((j + 1) as u32));
                }
            }
            k += 1;
        }
        proof {
            assert(all.take(all.len() as int) =~= all);
        }
        Ok(sigs)
    }

    /// The bound grows with the list.
    proof fn lemma_locations_bound_take(all: Seq<Signature>, n: int)
        requires
            0 <= n <= all.len(),
        ensures
            Self::spec_locations_bound(all.take(n)) <= Self::spec_locations_bound(all),
            Self::spec_locations_bound(all.take(n)) >= 0,
        decreases all.len() - n,
    {
        Self::lemma_locations_bound_nonneg(all.take(n));
        if n < all.len() {
            Self::lemma_locations_bound_take(all, n + 1);
            assert(all.take(n + 1).drop_last() =~= all.take(n));
        } else {
            assert(all.take(n) =~= all);
        }
    }

    proof fn lemma_locations_bound_nonneg(all: Seq<Signature>)
        ensures
            Self::spec_locations_bound(all) >= 0,
        decreases all.len(),
    {
        if all.len() > 0 {
            Self::lemma_locations_bound_nonneg(all.drop_last());
        }
    }

    /// An error among the first `n` signatures is the error of the list.
    proof fn lemma_first_error_take<M: ABIMachineSpec>(all: Seq<Signature>, flags: Flags, n: int)
        requires
            0 <= n <= all.len(),
            Self::spec_first_error::<M>(all.take(n), flags) is Some,
        ensures
            Self::spec_first_error::<M>(all, flags) == Self::spec_first_error::<M>(
                all.take(n),
                flags,
            ),
        decreases all.len() - n,
    {
        if n < all.len() {
            assert(all.take(n + 1).drop_last() =~= all.take(n));
            Self::lemma_first_error_take::<M>(all, flags, n + 1);
        } else {
            assert(all.take(n) =~= all);
        }
    }
}

/// For a signature entered by value, the catalog holds as many arguments
/// and return values as the signature declares; the pointer to the
/// return area, where there is one, comes on top of the arguments and
/// is not counted among them.
pub proof fn lemma_signature_round_trip(set: &SigSet, j: int)
    requires
        set.wf(),
        0 <= j < set.spec_by_signature().len(),
    ensures
        ({
            let (signature, sig) = set.spec_by_signature()[j];
            let data = set.spec_sigs()[sig.0 as int];
            &&& set.has(sig)
            &&& set.spec_num_args(sig) == signature.params@.len()
            &&& set.spec_rets(sig).len() == spec_lowered_returns(&signature).len()
            &&& set.spec_args(sig).len() == signature.params@.len() + (if data.stack_ret_arg is Some {
                1int
            } else {
                0int
            })
        }),
{
    let (signature, sig) = set.spec_by_signature()[j];
    assert(set.by_signature_wf(j));
    assert(set.entry_wf(sig.0 as int));
}

/// For a signature entered by value whose return values take stack
/// space, the pointer to the return area is the argument behind the
/// declared ones, and `get_ret_arg` gives the location of that argument.
pub proof fn lemma_ret_area_pointer_last(set: &SigSet, j: int)
    requires
        set.wf(),
        0 <= j < set.spec_by_signature().len(),
        set.spec_sigs()[set.spec_by_signature()[j].1.0 as int].sized_stack_ret_space > 0,
    ensures
        ({
            let (signature, sig) = set.spec_by_signature()[j];
            let data = set.spec_sigs()[sig.0 as int];
            &&& data.stack_ret_arg == Some(signature.params@.len() as u16)
            &&& signature.params@.len() < set.spec_args(sig).len()
            &&& set.spec_get_ret_arg(sig) == Some(
                set.spec_args(sig)[signature.params@.len() as int]@,
            )
        }),
{
    let (signature, sig) = set.spec_by_signature()[j];
    assert(set.by_signature_wf(j));
    assert(set.entry_wf(sig.0 as int));
}

} // verus!
