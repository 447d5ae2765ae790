use libnanvix::kcall::{invoke, kcall0, kcall1, kcall2, kcall3, kcall4, KcallNumbers, Registers};

const UNKNOWN_CALL: u32 = 0xffff_ffda;

fn idle() -> Registers {
    Registers { primary: 0xaaaa_0000, arg0: 0xa0, arg1: 0xa1, arg2: 0xa2, arg3: 0xa3, flags: 0x0000_0246 }
}

fn echo(entry: Registers) -> Registers {
    entry
}

#[test]
fn echo_handler_sees_number_and_arguments_in_place() {
    let mut seen = Vec::new();
    let mut regs = idle();
    let r = kcall0(&mut regs, |e: Registers| { seen.push(e); e }, 3);
    assert_eq!(r, 3);
    let mut regs = idle();
    let r = kcall1(&mut regs, |e: Registers| { seen.push(e); e }, 4, 11);
    assert_eq!(r, 4);
    let mut regs = idle();
    let r = kcall2(&mut regs, |e: Registers| { seen.push(e); e }, 5, 11, 22);
    assert_eq!(r, 5);
    let mut regs = idle();
    let r = kcall3(&mut regs, |e: Registers| { seen.push(e); e }, 6, 11, 22, 33);
    assert_eq!(r, 6);
    let mut regs = idle();
    let r = kcall4(&mut regs, |e: Registers| { seen.push(e); e }, 7, 11, 22, 33, 44);
    assert_eq!(r, 7);

    let base = idle();
    assert_eq!(seen[0], Registers { primary: 3, ..base });
    assert_eq!(seen[1], Registers { primary: 4, arg0: 11, ..base });
    assert_eq!(seen[2], Registers { primary: 5, arg0: 11, arg1: 22, ..base });
    assert_eq!(seen[3], Registers { primary: 6, arg0: 11, arg1: 22, arg2: 33, ..base });
    assert_eq!(
        seen[4],
        Registers { primary: 7, arg0: 11, arg1: 22, arg2: 33, arg3: 44, flags: base.flags }
    );
}

#[test]
fn arguments_reach_the_kernel_unmodified_at_the_extremes() {
    let mut regs = idle();
    kcall4(&mut regs, echo, u32::MAX, 0, u32::MAX, 0x8000_0000, 1);
    assert_eq!(regs.primary, u32::MAX);
    assert_eq!(regs.arg0, 0);
    assert_eq!(regs.arg1, u32::MAX);
    assert_eq!(regs.arg2, 0x8000_0000);
    assert_eq!(regs.arg3, 1);
}

#[test]
fn flags_are_kept_across_calls_of_every_arity() {
    for flags in [0u32, 0x246, 0x8d5, u32::MAX] {
        let start = Registers { flags, ..idle() };
        let mut regs = start;
        kcall0(&mut regs, echo, 0);
        assert_eq!(regs.flags, flags);
        let mut regs = start;
        kcall1(&mut regs, echo, 1, 9);
        assert_eq!(regs.flags, flags);
        let mut regs = start;
        kcall2(&mut regs, echo, 2, 9, 8);
        assert_eq!(regs.flags, flags);
        let mut regs = start;
        kcall3(&mut regs, echo, 3, 9, 8, 7);
        assert_eq!(regs.flags, flags);
        let mut regs = start;
        kcall4(&mut regs, echo, 4, 9, 8, 7, 6);
        assert_eq!(regs.flags, flags);
    }
}

#[test]
fn number_does_not_depend_on_arguments() {
    let nr = KcallNumbers::MailboxWrite.number();
    let mut numbers = Vec::new();
    for (a, b, c) in [(0u32, 0u32, 0u32), (1, 2, 3), (u32::MAX, u32::MAX, u32::MAX), (nr, nr + 1, 0)] {
        let mut regs = idle();
        kcall3(&mut regs, |e: Registers| { numbers.push(e.primary); e }, nr, a, b, c);
    }
    assert_eq!(numbers, vec![nr, nr, nr, nr]);
}

#[test]
fn write_through_three_argument_call() {
    let memory: Vec<u8> = b"....hello, world".to_vec();
    let mut sink: Vec<u8> = Vec::new();
    let mut regs = idle();
    let kernel = |e: Registers| {
        let mut exit = e;
        if KcallNumbers::from_number(e.primary) == Some(KcallNumbers::Write) && e.arg0 == 1 {
            let start = e.arg1 as usize;
            let len = e.arg2 as usize;
            sink.extend_from_slice(&memory[start..start + len]);
            exit.primary = e.arg2;
        } else {
            exit.primary = UNKNOWN_CALL;
        }
        exit
    };
    let r = kcall3(&mut regs, kernel, KcallNumbers::Write.number(), 1, 4, 5);
    assert_eq!(r, 5);
    assert_eq!(sink, b"hello".to_vec());
}

#[test]
fn unknown_number_gives_kernel_sentinel_through_every_arity() {
    let kernel = |e: Registers| {
        let mut exit = e;
        exit.primary = match KcallNumbers::from_number(e.primary) {
            Some(_) => 0,
            None => UNKNOWN_CALL,
        };
        exit
    };
    for nr in [5u32, 45, 1000, u32::MAX] {
        let mut regs = idle();
        assert_eq!(kcall0(&mut regs, kernel, nr), UNKNOWN_CALL);
        assert_eq!(kcall1(&mut regs, kernel, nr, 1), UNKNOWN_CALL);
        assert_eq!(kcall2(&mut regs, kernel, nr, 1, 2), UNKNOWN_CALL);
        assert_eq!(kcall3(&mut regs, kernel, nr, 1, 2, 3), UNKNOWN_CALL);
        assert_eq!(kcall4(&mut regs, kernel, nr, 1, 2, 3, 4), UNKNOWN_CALL);
        assert_eq!(regs.primary, UNKNOWN_CALL);
    }
}

#[test]
fn result_is_what_the_kernel_left_in_the_primary_register() {
    let mut regs = idle();
    let r = kcall2(&mut regs, |e: Registers| Registers { primary: 0x1234, arg0: 0, ..e }, 8, 40, 41);
    assert_eq!(r, 0x1234);
    assert_eq!(regs.arg0, 0);
    assert_eq!(regs.arg1, 41);
}

#[test]
fn invoke_loads_a_prefix_of_the_argument_registers() {
    let mut regs = idle();
    let r = invoke(&mut regs, echo, 12, &[7, 8]);
    assert_eq!(r, 12);
    assert_eq!(regs, Registers { primary: 12, arg0: 7, arg1: 8, ..idle() });
    let mut regs = idle();
    invoke(&mut regs, echo, 13, &[]);
    assert_eq!(regs, Registers { primary: 13, ..idle() });
}

#[test]
fn table_numbers() {
    let table = [
        (KcallNumbers::Void0, 0u32),
        (KcallNumbers::Void1, 1),
        (KcallNumbers::Void2, 2),
        (KcallNumbers::Void3, 3),
        (KcallNumbers::Void4, 4),
        (KcallNumbers::Shutdown, 6),
        (KcallNumbers::Write, 7),
        (KcallNumbers::FrameAlloc, 8),
        (KcallNumbers::FrameFree, 9),
        (KcallNumbers::VmemCreate, 10),
        (KcallNumbers::VmemRemove, 11),
        (KcallNumbers::VmemMap, 12),
        (KcallNumbers::VmemUnmap, 13),
        (KcallNumbers::VmemControl, 14),
        (KcallNumbers::VmemInfo, 15),
        (KcallNumbers::KmodGet, 16),
        (KcallNumbers::Spawn, 17),
        (KcallNumbers::Semget, 18),
        (KcallNumbers::Semop, 19),
        (KcallNumbers::Semctl, 20),
        (KcallNumbers::ThreadGet, 21),
        (KcallNumbers::ThreadCreate, 22),
        (KcallNumbers::ThreadExit, 23),
        (KcallNumbers::ThreadYield, 24),
        (KcallNumbers::ThreadJoin, 25),
        (KcallNumbers::ThreadDetach, 26),
        (KcallNumbers::ProcessInfo, 27),
        (KcallNumbers::GetUserID, 28),
        (KcallNumbers::GetEffectiveUserID, 29),
        (KcallNumbers::GetUserGroupID, 30),
        (KcallNumbers::GetEffectiveUserGroupID, 31),
        (KcallNumbers::SetUserID, 32),
        (KcallNumbers::SetEffectiveUserID, 33),
        (KcallNumbers::SetUserGroupID, 34),
        (KcallNumbers::SetEffectiveUserGroupID, 35),
        (KcallNumbers::ExcpCtrl, 36),
        (KcallNumbers::ExcpWait, 37),
        (KcallNumbers::ExcpResume, 38),
        (KcallNumbers::MailboxCreate, 39),
        (KcallNumbers::MailboxOpen, 40),
        (KcallNumbers::MailboxUnlink, 41),
        (KcallNumbers::MailboxClose, 42),
        (KcallNumbers::MailboxWrite, 43),
        (KcallNumbers::Mailboxread, 44),
    ];
    for (k, nr) in table {
        assert_eq!(k.number(), nr);
        assert_eq!(KcallNumbers::from_number(nr), Some(k));
    }
}

#[test]
fn unassigned_numbers_name_no_service() {
    assert_eq!(KcallNumbers::from_number(5), None);
    assert_eq!(KcallNumbers::from_number(45), None);
    assert_eq!(KcallNumbers::from_number(u32::MAX), None);
    let named = (0u32..=1000).filter(|nr| KcallNumbers::from_number(*nr).is_some()).count();
    assert_eq!(named, 44);
}
