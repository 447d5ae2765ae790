//! Kernel calls.
//!
//! Two tables make up the user/kernel interface:
//! - the kernel-call numbers, which name each service the kernel exposes; once
//!   assigned, a number is never reused or moved (number 5 is unassigned);
//! - the register convention: the call number goes in the primary register,
//!   argument `i` in argument register `i`, and the result comes back in the
//!   primary register. On x86 these are `eax`, then `ebx`, `ecx`, `edx`, `edi`.
//!
//! A trampoline loads the registers and executes one trap. The trap itself, the
//! switch into the kernel and back, is passed in as a function from the register
//! file at trap entry to the register file at trap exit, so that each platform
//! (or a model of the kernel) supplies its own.

use vstd::prelude::*;

verus! {

/// A kernel service, by name. Its number is given by [`KcallNumbers::number`].
/// `Void0` to `Void4` are placeholder calls of zero to four arguments.
#[derive(Clone, Copy, Debug, PartialEq, Eq, Structural)]
pub enum KcallNumbers {
    Void0,
    Void1,
    Void2,
    Void3,
    Void4,
    Shutdown,
    Write,
    FrameAlloc,
    FrameFree,
    VmemCreate,
    VmemRemove,
    VmemMap,
    VmemUnmap,
    VmemControl,
    VmemInfo,
    KmodGet,
    Spawn,
    Semget,
    Semop,
    Semctl,
    ThreadGet,
    ThreadCreate,
    ThreadExit,
    ThreadYield,
    ThreadJoin,
    ThreadDetach,
    ProcessInfo,
    GetUserID,
    GetEffectiveUserID,
    GetUserGroupID,
    GetEffectiveUserGroupID,
    SetUserID,
    SetEffectiveUserID,
    SetUserGroupID,
    SetEffectiveUserGroupID,
    ExcpCtrl,
    ExcpWait,
    ExcpResume,
    MailboxCreate,
    MailboxOpen,
    MailboxUnlink,
    MailboxClose,
    MailboxWrite,
    Mailboxread,
}

impl KcallNumbers {
    /// The number under which the kernel knows this service.
    pub open spec fn spec_number(self) -> u32 {
        match self {
            KcallNumbers::Void0 => 0,
            KcallNumbers::Void1 => 1,
            KcallNumbers::Void2 => 2,
            KcallNumbers::Void3 => 3,
            KcallNumbers::Void4 => 4,
            KcallNumbers::Shutdown => 6,
            KcallNumbers::Write => 7,
            KcallNumbers::FrameAlloc => 8,
            KcallNumbers::FrameFree => 9,
            KcallNumbers::VmemCreate => 10,
            KcallNumbers::VmemRemove => 11,
            KcallNumbers::VmemMap => 12,
            KcallNumbers::VmemUnmap => 13,
            KcallNumbers::VmemControl => 14,
            KcallNumbers::VmemInfo => 15,
            KcallNumbers::KmodGet => 16,
            KcallNumbers::Spawn => 17,
            KcallNumbers::Semget => 18,
            KcallNumbers::Semop => 19,
            KcallNumbers::Semctl => 20,
            KcallNumbers::ThreadGet => 21,
            KcallNumbers::ThreadCreate => 22,
            KcallNumbers::ThreadExit => 23,
            KcallNumbers::ThreadYield => 24,
            KcallNumbers::ThreadJoin => 25,
            KcallNumbers::ThreadDetach => 26,
            KcallNumbers::ProcessInfo => 27,
            KcallNumbers::GetUserID => 28,
            KcallNumbers::GetEffectiveUserID => 29,
            KcallNumbers::GetUserGroupID => 30,
            KcallNumbers::GetEffectiveUserGroupID => 31,
            KcallNumbers::SetUserID => 32,
            KcallNumbers::SetEffectiveUserID => 33,
            KcallNumbers::SetUserGroupID => 34,
            KcallNumbers::SetEffectiveUserGroupID => 35,
            KcallNumbers::ExcpCtrl => 36,
            KcallNumbers::ExcpWait => 37,
            KcallNumbers::ExcpResume => 38,
            KcallNumbers::MailboxCreate => 39,
            KcallNumbers::MailboxOpen => 40,
            KcallNumbers::MailboxUnlink => 41,
            KcallNumbers::MailboxClose => 42,
            KcallNumbers::MailboxWrite => 43,
            KcallNumbers::Mailboxread => 44,
        }
    }

    /// The service that a number names, if any.
    pub open spec fn spec_from_number(nr: u32) -> Option<KcallNumbers> {
        match nr {
            0 => Some(KcallNumbers::Void0),
            1 => Some(KcallNumbers::Void1),
            2 => Some(KcallNumbers::Void2),
            3 => Some(KcallNumbers::Void3),
            4 => Some(KcallNumbers::Void4),
            6 => Some(KcallNumbers::Shutdown),
            7 => Some(KcallNumbers::Write),
            8 => Some(KcallNumbers::FrameAlloc),
            9 => Some(KcallNumbers::FrameFree),
            10 => Some(KcallNumbers::VmemCreate),
            11 => Some(KcallNumbers::VmemRemove),
            12 => Some(KcallNumbers::VmemMap),
            13 => Some(KcallNumbers::VmemUnmap),
            14 => Some(KcallNumbers::VmemControl),
            15 => Some(KcallNumbers::VmemInfo),
            16 => Some(KcallNumbers::KmodGet),
            17 => Some(KcallNumbers::Spawn),
            18 => Some(KcallNumbers::Semget),
            19 => Some(KcallNumbers::Semop),
            20 => Some(KcallNumbers::Semctl),
            21 => Some(KcallNumbers::ThreadGet),
            22 => Some(KcallNumbers::ThreadCreate),
            23 => Some(KcallNumbers::ThreadExit),
            24 => Some(KcallNumbers::ThreadYield),
            25 => Some(KcallNumbers::ThreadJoin),
            26 => Some(KcallNumbers::ThreadDetach),
            27 => Some(KcallNumbers::ProcessInfo),
            28 => Some(KcallNumbers::GetUserID),
            29 => Some(KcallNumbers::GetEffectiveUserID),
            30 => Some(KcallNumbers::GetUserGroupID),
            31 => Some(KcallNumbers::GetEffectiveUserGroupID),
            32 => Some(KcallNumbers::SetUserID),
            33 => Some(KcallNumbers::SetEffectiveUserID),
            34 => Some(KcallNumbers::SetUserGroupID),
            35 => Some(KcallNumbers::SetEffectiveUserGroupID),
            36 => Some(KcallNumbers::ExcpCtrl),
            37 => Some(KcallNumbers::ExcpWait),
            38 => Some(KcallNumbers::ExcpResume),
            39 => Some(KcallNumbers::MailboxCreate),
            40 => Some(KcallNumbers::MailboxOpen),
            41 => Some(KcallNumbers::MailboxUnlink),
            42 => Some(KcallNumbers::MailboxClose),
            43 => Some(KcallNumbers::MailboxWrite),
            44 => Some(KcallNumbers::Mailboxread),
            _ => None,
        }
    }

    /// Returns the number under which the kernel knows this service.
    pub fn number(&self) -> (r: u32)
        ensures
            r == self.spec_number(),
    {
        match self {
            KcallNumbers::Void0 => 0,
            KcallNumbers::Void1 => 1,
            KcallNumbers::Void2 => 2,
            KcallNumbers::Void3 => 3,
            KcallNumbers::Void4 => 4,
            KcallNumbers::Shutdown => 6,
            KcallNumbers::Write => 7,
            KcallNumbers::FrameAlloc => 8,
            KcallNumbers::FrameFree => 9,
            KcallNumbers::VmemCreate => 10,
            KcallNumbers::VmemRemove => 11,
            KcallNumbers::VmemMap => 12,
            KcallNumbers::VmemUnmap => 13,
            KcallNumbers::VmemControl => 14,
            KcallNumbers::VmemInfo => 15,
            KcallNumbers::KmodGet => 16,
            KcallNumbers::Spawn => 17,
            KcallNumbers::Semget => 18,
            KcallNumbers::Semop => 19,
            KcallNumbers::Semctl => 20,
            KcallNumbers::ThreadGet => 21,
            KcallNumbers::ThreadCreate => 22,
            KcallNumbers::ThreadExit => 23,
            KcallNumbers::ThreadYield => 24,
            KcallNumbers::ThreadJoin => 25,
            KcallNumbers::ThreadDetach => 26,
            KcallNumbers::ProcessInfo => 27,
            KcallNumbers::GetUserID => 28,
            KcallNumbers::GetEffectiveUserID => 29,
            KcallNumbers::GetUserGroupID => 30,
            KcallNumbers::GetEffectiveUserGroupID => 31,
            KcallNumbers::SetUserID => 32,
            KcallNumbers::SetEffectiveUserID => 33,
            KcallNumbers::SetUserGroupID => 34,
            KcallNumbers::SetEffectiveUserGroupID => 35,
            KcallNumbers::ExcpCtrl => 36,
            KcallNumbers::ExcpWait => 37,
            KcallNumbers::ExcpResume => 38,
            KcallNumbers::MailboxCreate => 39,
            KcallNumbers::MailboxOpen => 40,
            KcallNumbers::MailboxUnlink => 41,
            KcallNumbers::MailboxClose => 42,
            KcallNumbers::MailboxWrite => 43,
            KcallNumbers::Mailboxread => 44,
        }
    }

    /// Looks a number up in the table: the service it names, or `None` where
    /// no service has that number.
    pub fn from_number(nr: u32) -> (r: Option<KcallNumbers>)
        ensures
            r matches Some(k) ==> k.spec_number() == nr,
            forall|k: KcallNumbers| #[trigger] k.spec_number() == nr <==> r == Some(k),
    {
        proof {
            lemma_number_round_trip(nr);
        }
        match nr {
            0 => Some(KcallNumbers::Void0),
            1 => Some(KcallNumbers::Void1),
            2 => Some(KcallNumbers::Void2),
            3 => Some(KcallNumbers::Void3),
            4 => Some(KcallNumbers::Void4),
            6 => Some(KcallNumbers::Shutdown),
            7 => Some(KcallNumbers::Write),
            8 => Some(KcallNumbers::FrameAlloc),
            9 => Some(KcallNumbers::FrameFree),
            10 => Some(KcallNumbers::VmemCreate),
            11 => Some(KcallNumbers::VmemRemove),
            12 => Some(KcallNumbers::VmemMap),
            13 => Some(KcallNumbers::VmemUnmap),
            14 => Some(KcallNumbers::VmemControl),
            15 => Some(KcallNumbers::VmemInfo),
            16 => Some(KcallNumbers::KmodGet),
            17 => Some(KcallNumbers::Spawn),
            18 => Some(KcallNumbers::Semget),
            19 => Some(KcallNumbers::Semop),
            20 => Some(KcallNumbers::Semctl),
            21 => Some(KcallNumbers::ThreadGet),
            22 => Some(KcallNumbers::ThreadCreate),
            23 => Some(KcallNumbers::ThreadExit),
            24 => Some(KcallNumbers::ThreadYield),
            25 => Some(KcallNumbers::ThreadJoin),
            26 => Some(KcallNumbers::ThreadDetach),
            27 => Some(KcallNumbers::ProcessInfo),
            28 => Some(KcallNumbers::GetUserID),
            29 => Some(KcallNumbers::GetEffectiveUserID),
            30 => Some(KcallNumbers::GetUserGroupID),
            31 => Some(KcallNumbers::GetEffectiveUserGroupID),
            32 => Some(KcallNumbers::SetUserID),
            33 => Some(KcallNumbers::SetEffectiveUserID),
            34 => Some(KcallNumbers::SetUserGroupID),
            35 => Some(KcallNumbers::SetEffectiveUserGroupID),
            36 => Some(KcallNumbers::ExcpCtrl),
            37 => Some(KcallNumbers::ExcpWait),
            38 => Some(KcallNumbers::ExcpResume),
            39 => Some(KcallNumbers::MailboxCreate),
            40 => Some(KcallNumbers::MailboxOpen),
            41 => Some(KcallNumbers::MailboxUnlink),
            42 => Some(KcallNumbers::MailboxClose),
            43 => Some(KcallNumbers::MailboxWrite),
            44 => Some(KcallNumbers::Mailboxread),
            _ => None,
        }
    }
}

/// Reading a number back from the table gives the service it names, and only
/// the numbers of the table name a service.
pub proof fn lemma_number_round_trip(nr: u32)
    ensures
        KcallNumbers::spec_from_number(nr) matches Some(k) ==> k.spec_number() == nr,
        forall|k: KcallNumbers| #[trigger] k.spec_number() == nr <==> KcallNumbers::spec_from_number(nr) == Some(k),
{
}

/// No two services share a number.
pub proof fn lemma_numbers_distinct(a: KcallNumbers, b: KcallNumbers)
    ensures
        a.spec_number() == b.spec_number() ==> a == b,
{
    lemma_number_round_trip(a.spec_number());
}


/// The register file that a kernel call goes through.
#[derive(Clone, Copy, Debug, PartialEq, Eq, Structural)]
pub struct Registers {
    /// Carries the kernel-call number in, and the result out.
    pub primary: u32,
    pub arg0: u32,
    pub arg1: u32,
    pub arg2: u32,
    pub arg3: u32,
    /// The condition flags.
    pub flags: u32,
}

/// Argument register `i`, for `i` in `0..4`.
pub open spec fn arg_register(regs: Registers, i: int) -> u32
    recommends
        0 <= i < 4,
{
    if i == 0 {
        regs.arg0
    } else if i == 1 {
        regs.arg1
    } else if i == 2 {
        regs.arg2
    } else {
        regs.arg3
    }
}

/// The register file at trap entry for a call of `kcall_nr` with `args` (at most
/// four) made from `before`: the number in the primary register, argument `i` in
/// argument register `i`, and every other register, the flags included, as it
/// was.
pub open spec fn trap_entry(before: Registers, kcall_nr: u32, args: Seq<u32>) -> Registers {
    Registers {
        primary: kcall_nr,
        arg0: if args.len() > 0 { args[0] } else { before.arg0 },
        arg1: if args.len() > 1 { args[1] } else { before.arg1 },
        arg2: if args.len() > 2 { args[2] } else { before.arg2 },
        arg3: if args.len() > 3 { args[3] } else { before.arg3 },
        flags: before.flags,
    }
}

/// Issues a kernel call with the arguments in `args`: loads the registers as
/// [`trap_entry`] says, executes `trap` once, leaves `regs` as the trap left the
/// register file and returns the primary register.
pub fn invoke<F>(regs: &mut Registers, trap: F, kcall_nr: u32, args: &[u32]) -> (ret: u32) where
    F: FnOnce(Registers) -> Registers,
    requires
        args@.len() <= 4,
        trap.requires((trap_entry(*old(regs), kcall_nr, args@),)),
    ensures
        trap.ensures((trap_entry(*old(regs), kcall_nr, args@),), *final(regs)),
        ret == final(regs).primary,
{
    let n = args.len();
    let entry = Registers {
        primary: kcall_nr,
        arg0: if n > 0 { args[0] } else { regs.arg0 },
        arg1: if n > 1 { args[1] } else { regs.arg1 },
        arg2: if n > 2 { args[2] } else { regs.arg2 },
        arg3: if n > 3 { args[3] } else { regs.arg3 },
        flags: regs.flags,
    };
    let exit = trap(entry);
    *regs = exit;
    exit.primary
}

/// Issues a kernel call with no arguments and returns the value returned by
/// the kernel call.
pub fn kcall0<F>(regs: &mut Registers, trap: F, kcall_nr: u32) -> (ret: u32) where
    F: FnOnce(Registers) -> Registers,
    requires
        trap.requires((trap_entry(*old(regs), kcall_nr, seq![]),)),
    ensures
        trap.ensures((trap_entry(*old(regs), kcall_nr, seq![]),), *final(regs)),
        ret == final(regs).primary,
{
    let args: [u32; 0] = [];
    proof {
        assert(args@ =~= seq![]);
    }
    invoke(regs, trap, kcall_nr, &args)
}


/// Issues a kernel call with one argument and returns the value returned by
/// the kernel call.
pub fn kcall1<F>(regs: &mut Registers, trap: F, kcall_nr: u32, arg0: u32) -> (ret: u32) where
    F: FnOnce(Registers) -> Registers,
    requires
        trap.requires((trap_entry(*old(regs), kcall_nr, seq![arg0]),)),
    ensures
        trap.ensures((trap_entry(*old(regs), kcall_nr, seq![arg0]),), *final(regs)),
        ret == final(regs).primary,
{
    let args: [u32; 1] = [arg0];
    proof {
        assert(args@ =~= seq![arg0]);
    }
    invoke(regs, trap, kcall_nr, &args)
}

/// Issues a kernel call with two arguments and returns the value returned by
/// the kernel call.
pub fn kcall2<F>(regs: &mut Registers, trap: F, kcall_nr: u32, arg0: u32, arg1: u32) -> (ret: u32) where
    F: FnOnce(Registers) -> Registers,
    requires
        trap.requires((trap_entry(*old(regs), kcall_nr, seq![arg0, arg1]),)),
    ensures
        trap.ensures((trap_entry(*old(regs), kcall_nr, seq![arg0, arg1]),), *final(regs)),
        ret == final(regs).primary,
{
    let args: [u32; 2] = [arg0, arg1];
    proof {
        assert(args@ =~= seq![arg0, arg1]);
    }
    invoke(regs, trap, kcall_nr, &args)
}

/// Issues a kernel call with three arguments and returns the value returned by
/// the kernel call.
pub fn kcall3<F>(regs: &mut Registers, trap: F, kcall_nr: u32, arg0: u32, arg1: u32, arg2: u32) -> (ret: u32) where
    F: FnOnce(Registers) -> Registers,
    requires
        trap.requires((trap_entry(*old(regs), kcall_nr, seq![arg0, arg1, arg2]),)),
    ensures
        trap.ensures((trap_entry(*old(regs), kcall_nr, seq![arg0, arg1, arg2]),), *final(regs)),
        ret == final(regs).primary,
{
    let args: [u32; 3] = [arg0, arg1, arg2];
    proof {
        assert(args@ =~= seq![arg0, arg1, arg2]);
    }
    invoke(regs, trap, kcall_nr, &args)
}

/// Issues a kernel call with four arguments and returns the value returned by
/// the kernel call.
pub fn kcall4<F>(regs: &mut Registers, trap: F, kcall_nr: u32, arg0: u32, arg1: u32, arg2: u32, arg3: u32) -> (ret: u32) where
    F: FnOnce(Registers) -> Registers,
    requires
        trap.requires((trap_entry(*old(regs), kcall_nr, seq![arg0, arg1, arg2, arg3]),)),
    ensures
        trap.ensures((trap_entry(*old(regs), kcall_nr, seq![arg0, arg1, arg2, arg3]),), *final(regs)),
        ret == final(regs).primary,
{
    let args: [u32; 4] = [arg0, arg1, arg2, arg3];
    proof {
        assert(args@ =~= seq![arg0, arg1, arg2, arg3]);
    }
    invoke(regs, trap, kcall_nr, &args)
}


/// For every arity up to four and every choice of arguments, the kernel receives
/// the call number in the primary register and argument `i` in argument register
/// `i`, unmodified; argument registers past the arity keep their values.
pub proof fn lemma_registers_loaded(before: Registers, kcall_nr: u32, args: Seq<u32>)
    requires
        args.len() <= 4,
    ensures
        trap_entry(before, kcall_nr, args).primary == kcall_nr,
        forall|i: int|
            0 <= i < args.len() ==> #[trigger] arg_register(trap_entry(before, kcall_nr, args), i)
                == args[i],
        forall|i: int|
            args.len() <= i < 4 ==> #[trigger] arg_register(trap_entry(before, kcall_nr, args), i)
                == arg_register(before, i),
{
}

/// Against a kernel that hands the registers back as it received them, the
/// condition flags after a call are those before it, for every arity.
pub proof fn lemma_flags_preserved<F>(
    trap: F,
    before: Registers,
    kcall_nr: u32,
    args: Seq<u32>,
    after: Registers,
) where F: FnOnce(Registers) -> Registers
    requires
        args.len() <= 4,
        forall|entry: Registers, exit: Registers| #[trigger] trap.ensures((entry,), exit) ==> exit == entry,
        trap.ensures((trap_entry(before, kcall_nr, args),), after),
    ensures
        after.flags == before.flags,
{
}

/// The call number the kernel receives depends on the call number alone, and
/// the arguments it receives on the arguments alone: changing one never changes
/// the other.
pub proof fn lemma_number_and_args_independent(
    before: Registers,
    kcall_nr: u32,
    other_nr: u32,
    args: Seq<u32>,
    other_args: Seq<u32>,
)
    requires
        args.len() <= 4,
        other_args.len() <= 4,
    ensures
        trap_entry(before, kcall_nr, args).primary == trap_entry(before, kcall_nr, other_args).primary,
        forall|i: int|
            0 <= i < 4 ==> #[trigger] arg_register(trap_entry(before, kcall_nr, args), i)
                == arg_register(trap_entry(before, other_nr, args), i),
{
}

/// Every arity extends the one below it: a call with one more argument loads
/// the first arguments into the same registers.
pub proof fn lemma_arity_extends(before: Registers, kcall_nr: u32, args: Seq<u32>, last: u32)
    requires
        args.len() < 4,
    ensures
        forall|i: int|
            0 <= i < args.len() ==> #[trigger] arg_register(
                trap_entry(before, kcall_nr, args.push(last)),
                i,
            ) == arg_register(trap_entry(before, kcall_nr, args), i),
        arg_register(trap_entry(before, kcall_nr, args.push(last)), args.len() as int) == last,
{
}

} // verus!
