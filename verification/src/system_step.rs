//! One cycle of the execution of the instructions that access the special registers:
//! `MRS`, `MSR` and `CPS`.
use vstd::prelude::*;

use crate::common::Word;
use crate::execute::ExecutionStepResult;
use crate::execute_step::RegisterWrite;
use crate::instruction::Instruction;
use crate::registers::{RegisterID, XPSR};

verus! {

/// The special registers of the core.
#[derive(Clone, Copy, Debug, PartialEq, Eq, Structural)]
pub struct SpecialRegisters {
    /// The main stack pointer.
    pub msp: Word,
    /// The process stack pointer.
    pub psp: Word,
    /// PRIMASK: all exceptions with a configurable priority are masked.
    pub primask: bool,
    /// BASEPRI: exceptions of this priority or lower are masked (0: none).
    pub basepri: u8,
    /// FAULTMASK: all exceptions but NMI are masked.
    pub faultmask: bool,
    /// CONTROL<0> (nPRIV): thread mode is unprivileged.
    pub control_npriv: bool,
    /// CONTROL<1> (SPSEL): thread mode uses the process stack.
    pub control_spsel: bool,
}

/// What an instruction that accesses the special registers sees in a cycle.
#[derive(Clone, Copy, Debug)]
pub struct SystemInputs {
    /// The core registers as the instruction reads them.
    pub registers: [Word; 16],
    /// The xPSR visible to the instruction.
    pub xpsr: XPSR,
    /// The xPSR that the instruction builds (after the IT state advanced).
    pub next_xpsr: XPSR,
    /// The exception number in the IPSR (0 in thread mode).
    pub exception_number: u16,
    /// The core is in handler mode.
    pub handler_mode: bool,
    /// The current mode is privileged.
    pub privileged: bool,
    /// The special registers.
    pub special: SpecialRegisters,
    /// The cycles of the instruction already executed (0 in its first cycle).
    pub cycle: u32,
    /// Whether the byte written to BASEPRI would raise the execution priority, as the
    /// priority logic of the core decides.
    pub basepri_write_raises_priority: bool,
}

/// What a cycle of such an instruction does.
#[derive(Clone, Copy, Debug, PartialEq, Eq, Structural)]
pub struct SystemStepEffects {
    /// How the pipeline goes on.
    pub result: ExecutionStepResult,
    /// A register written.
    pub register_write: Option<RegisterWrite>,
    /// The xPSR built by the instruction after the cycle.
    pub next_xpsr: XPSR,
    /// The special registers after the cycle.
    pub special: SpecialRegisters,
}

/// The value of a register as the instruction reads it.
pub open spec fn sreg(inp: SystemInputs, r: RegisterID) -> Word {
    inp.registers@[r.index_of() as int]
}

/// The SYSm values of the special registers: APSR, IAPSR, EAPSR, XPSR, IPSR, EPSR, IEPSR,
/// MSP, PSP, PRIMASK, BASEPRI, BASEPRI_MAX, FAULTMASK, CONTROL.
pub open spec fn valid_sysm(sysm: u8) -> bool {
    sysm <= 3 || (5 <= sysm && sysm <= 9) || (16 <= sysm && sysm <= 20)
}

/// A bit as a word.
pub open spec fn bit_word(b: bool, position: nat) -> nat {
    if b {
        vstd::arithmetic::power2::pow2(position)
    } else {
        0
    }
}

/// The APSR flags N, Z, C, V and Q in bits 31 to 27.
pub open spec fn apsr_word(x: XPSR) -> nat {
    bit_word(x.negative, 31) + bit_word(x.zero, 30) + bit_word(x.carry, 29) + bit_word(
        x.overflow,
        28,
    ) + bit_word(x.saturation, 27)
}

/// What `MRS` reads: the APSR flags and the exception number from the xPSR views (the
/// EPSR reads as zero); the stack pointers, the masks and CONTROL<1:0> when privileged,
/// zero otherwise.
pub open spec fn special_register_value(sysm: u8, inp: SystemInputs) -> Word {
    let s = inp.special;
    let low = sysm % 8;
    if sysm / 8 == 0 {
        ((if sysm % 2 == 1 {
            inp.exception_number % 512
        } else {
            0
        }) + (if (sysm / 4) % 2 == 0 {
            apsr_word(inp.xpsr)
        } else {
            0
        })) as Word
    } else if !inp.privileged {
        0
    } else if sysm / 8 == 1 {
        if low == 0 {
            s.msp
        } else {
            s.psp
        }
    } else if low == 0 {
        bit_word(s.primask, 0) as Word
    } else if low == 1 || low == 2 {
        s.basepri as Word
    } else if low == 3 {
        bit_word(s.faultmask, 0) as Word
    } else {
        (bit_word(s.control_npriv, 0) + bit_word(s.control_spsel, 1)) as Word
    }
}

/// Whether a mask written from `old` to `new` raises the execution priority.
pub open spec fn mask_raises_priority(old: bool, new: bool) -> bool {
    !old && new
}

/// Whether the execution priority is already above that of configurable exceptions: the
/// core handles Reset (1), NMI (2) or HardFault (3).
pub open spec fn priority_too_high_for_faultmask(inp: SystemInputs) -> bool {
    inp.handler_mode && 1 <= inp.exception_number <= 3
}

/// A cycle that ends the instruction.
pub open spec fn system_done(inp: SystemInputs) -> SystemStepEffects {
    SystemStepEffects {
        result: ExecutionStepResult::NextInstruction,
        register_write: None,
        next_xpsr: inp.next_xpsr,
        special: inp.special,
    }
}

/// The result of a write that raises the priority: one more cycle.
pub open spec fn after_write(raises: bool) -> ExecutionStepResult {
    if raises {
        ExecutionStepResult::Continue { trigger_decode: true, lsu_branch_expected: false }
    } else {
        ExecutionStepResult::NextInstruction
    }
}

/// What `MSR` does in its first cycle: it writes the APSR flags from bits 31 to 27 of the
/// register, or, when privileged, a stack pointer, a mask or CONTROL (whose SPSEL bit is
/// written in thread mode only). `BASEPRI_MAX` is written only when it raises the
/// priority, FAULTMASK only below the priority of HardFault. A write that raises the
/// priority takes one more cycle.
pub open spec fn msr_first_cycle(rn: RegisterID, sysm: u8, mask: u8, inp: SystemInputs) -> SystemStepEffects {
    let v = sreg(inp, rn);
    let s = inp.special;
    let low = sysm % 8;
    let done = system_done(inp);
    if sysm / 8 == 0 {
        if (sysm / 4) % 2 == 0 && (mask / 2) % 2 == 1 {
            SystemStepEffects {
                next_xpsr: XPSR {
                    negative: (v >> 31u32) & 1 == 1,
                    zero: (v >> 30u32) & 1 == 1,
                    carry: (v >> 29u32) & 1 == 1,
                    overflow: (v >> 28u32) & 1 == 1,
                    saturation: (v >> 27u32) & 1 == 1,
                    ..inp.next_xpsr
                },
                ..done
            }
        } else {
            done
        }
    } else if !inp.privileged {
        done
    } else if sysm / 8 == 1 {
        SystemStepEffects {
            special: if low == 0 {
                SpecialRegisters { msp: v, ..s }
            } else {
                SpecialRegisters { psp: v, ..s }
            },
            ..done
        }
    } else if low == 0 {
        let new = v % 2 == 1;
        SystemStepEffects {
            result: after_write(mask_raises_priority(s.primask, new)),
            special: SpecialRegisters { primask: new, ..s },
            ..done
        }
    } else if low == 1 {
        SystemStepEffects {
            result: after_write(inp.basepri_write_raises_priority),
            special: SpecialRegisters { basepri: (v % 256) as u8, ..s },
            ..done
        }
    } else if low == 2 {
        if inp.basepri_write_raises_priority {
            SystemStepEffects {
                result: after_write(true),
                special: SpecialRegisters { basepri: (v % 256) as u8, ..s },
                ..done
            }
        } else {
            done
        }
    } else if low == 3 {
        if priority_too_high_for_faultmask(inp) {
            done
        } else {
            let new = v % 2 == 1;
            SystemStepEffects {
                result: after_write(mask_raises_priority(s.faultmask, new)),
                special: SpecialRegisters { faultmask: new, ..s },
                ..done
            }
        }
    } else {
        SystemStepEffects {
            special: SpecialRegisters {
                control_npriv: v % 2 == 1,
                control_spsel: if inp.handler_mode {
                    s.control_spsel
                } else {
                    (v / 2) % 2 == 1
                },
                ..s
            },
            ..done
        }
    }
}

/// A cycle of `MRS`, `MSR` or `CPS`; `None` for the other instructions.
pub open spec fn system_step(instr: Instruction, inp: SystemInputs) -> Option<SystemStepEffects> {
    match instr {
        Instruction::MoveToRegisterFromSpecialRegister { rd, sysm } => Some(
            SystemStepEffects {
                register_write: Some(
                    RegisterWrite { register: rd, value: special_register_value(sysm, inp) },
                ),
                ..system_done(inp)
            },
        ),
        Instruction::MoveToSpecialRegisterFromARMRegister { rn, sysm, mask } => Some(
            if inp.cycle == 0 {
                msr_first_cycle(rn, sysm, mask, inp)
            } else {
                system_done(inp)
            },
        ),
        Instruction::ChangeProcessorState { enable, affect_pri, affect_fault, .. } => {
            let s = inp.special;
            let m = !enable;
            let raises = (affect_pri && mask_raises_priority(s.primask, m)) || (affect_fault
                && mask_raises_priority(s.faultmask, m));
            Some(
                if inp.cycle == 0 && raises {
                    SystemStepEffects {
                        result: ExecutionStepResult::Continue {
                            trigger_decode: true,
                            lsu_branch_expected: false,
                        },
                        ..system_done(inp)
                    }
                } else {
                    SystemStepEffects {
                        special: SpecialRegisters {
                            primask: if affect_pri {
                                m
                            } else {
                                s.primask
                            },
                            faultmask: if affect_fault {
                                m
                            } else {
                                s.faultmask
                            },
                            ..s
                        },
                        ..system_done(inp)
                    }
                },
            )
        },
        _ => None,
    }
}

/// Whether such an instruction can be executed: its SYSm names a special register, and an
/// `MSR` does not write the GE bits (this core has no DSP extension).
pub open spec fn system_step_executable(instr: Instruction, inp: SystemInputs) -> bool {
    match instr {
        Instruction::MoveToRegisterFromSpecialRegister { sysm, .. } => valid_sysm(sysm),
        Instruction::MoveToSpecialRegisterFromARMRegister { sysm, mask, .. } => valid_sysm(sysm)
            && !(sysm / 8 == 0 && (sysm / 4) % 2 == 0 && mask % 2 == 1 && inp.cycle == 0),
        _ => true,
    }
}

fn bit_word_exec(b: bool, position: u32) -> (r: u32)
    requires
        position < 32,
    ensures
        r == bit_word(b, position as nat),
{
    proof {
        vstd::arithmetic::power2::lemma2_to64();
        if position < 31 {
            vstd::arithmetic::power2::lemma_pow2_strictly_increases(position as nat, 31);
        }
        vstd::bits::lemma_u32_shl_is_mul(1, position);
    }
    if b {
        1u32 << position
    } else {
        0
    }
}

fn system_done_exec(inp: &SystemInputs) -> (r: SystemStepEffects)
    ensures
        r == system_done(*inp),
{
    SystemStepEffects {
        result: ExecutionStepResult::NextInstruction,
        register_write: None,
        next_xpsr: inp.next_xpsr,
        special: inp.special,
    }
}

fn after_write_exec(raises: bool) -> (r: ExecutionStepResult)
    ensures
        r == after_write(raises),
{
    if raises {
        ExecutionStepResult::Continue { trigger_decode: true, lsu_branch_expected: false }
    } else {
        ExecutionStepResult::NextInstruction
    }
}

fn special_register_value_exec(sysm: u8, inp: &SystemInputs) -> (r: Word)
    requires
        valid_sysm(sysm),
    ensures
        r == special_register_value(sysm, *inp),
{
    let s = inp.special;
    let low = sysm % 8;
    proof {
        vstd::arithmetic::power2::lemma2_to64();
    }
    if sysm / 8 == 0 {
        let ipsr: u32 = if sysm % 2 == 1 {
            inp.exception_number as u32 % 512
        } else {
            0
        };
        let apsr: u32 = if (sysm / 4) % 2 == 0 {
            bit_word_exec(inp.xpsr.negative, 31) + bit_word_exec(inp.xpsr.zero, 30)
                + bit_word_exec(inp.xpsr.carry, 29) + bit_word_exec(inp.xpsr.overflow, 28)
                + bit_word_exec(inp.xpsr.saturation, 27)
        } else {
            0
        };
        ipsr + apsr
    } else if !inp.privileged {
        0
    } else if sysm / 8 == 1 {
        if low == 0 {
            s.msp
        } else {
            s.psp
        }
    } else if low == 0 {
        bit_word_exec(s.primask, 0)
    } else if low == 1 || low == 2 {
        s.basepri as Word
    } else if low == 3 {
        bit_word_exec(s.faultmask, 0)
    } else {
        bit_word_exec(s.control_npriv, 0) + bit_word_exec(s.control_spsel, 1)
    }
}

fn msr_first_cycle_exec(rn: RegisterID, sysm: u8, mask: u8, inp: &SystemInputs) -> (r:
    SystemStepEffects)
    ensures
        r == msr_first_cycle(rn, sysm, mask, *inp),
{
    let v = inp.registers[rn.index() as usize];
    let s = inp.special;
    let low = sysm % 8;
    let done = system_done_exec(inp);
    if sysm / 8 == 0 {
        if (sysm / 4) % 2 == 0 && (mask / 2) % 2 == 1 {
            SystemStepEffects {
                next_xpsr: XPSR {
                    negative: (v >> 31u32) & 1 == 1,
                    zero: (v >> 30u32) & 1 == 1,
                    carry: (v >> 29u32) & 1 == 1,
                    overflow: (v >> 28u32) & 1 == 1,
                    saturation: (v >> 27u32) & 1 == 1,
                    ..inp.next_xpsr
                },
                ..done
            }
        } else {
            done
        }
    } else if !inp.privileged {
        done
    } else if sysm / 8 == 1 {
        SystemStepEffects {
            special: if low == 0 {
                SpecialRegisters { msp: v, ..s }
            } else {
                SpecialRegisters { psp: v, ..s }
            },
            ..done
        }
    } else if low == 0 {
        let new = v % 2 == 1;
        SystemStepEffects {
            result: after_write_exec(!s.primask && new),
            special: SpecialRegisters { primask: new, ..s },
            ..done
        }
    } else if low == 1 {
        SystemStepEffects {
            result: after_write_exec(inp.basepri_write_raises_priority),
            special: SpecialRegisters { basepri: (v % 256) as u8, ..s },
            ..done
        }
    } else if low == 2 {
        if inp.basepri_write_raises_priority {
            SystemStepEffects {
                result: after_write_exec(true),
                special: SpecialRegisters { basepri: (v % 256) as u8, ..s },
                ..done
            }
        } else {
            done
        }
    } else if low == 3 {
        if inp.handler_mode && 1 <= inp.exception_number && inp.exception_number <= 3 {
            done
        } else {
            let new = v % 2 == 1;
            SystemStepEffects {
                result: after_write_exec(!s.faultmask && new),
                special: SpecialRegisters { faultmask: new, ..s },
                ..done
            }
        }
    } else {
        SystemStepEffects {
            special: SpecialRegisters {
                control_npriv: v % 2 == 1,
                control_spsel: if inp.handler_mode {
                    s.control_spsel
                } else {
                    (v / 2) % 2 == 1
                },
                ..s
            },
            ..done
        }
    }
}

/// A cycle of an instruction that accesses the special registers (see [`system_step`]).
pub fn execute_system_instruction_step(instr: &Instruction, inp: &SystemInputs) -> (r: Option<
    SystemStepEffects,
>)
    requires
        system_step_executable(*instr, *inp),
    ensures
        r == system_step(*instr, *inp),
{
    match *instr {
        Instruction::MoveToRegisterFromSpecialRegister { rd, sysm } => Some(
            SystemStepEffects {
                register_write: Some(
                    RegisterWrite { register: rd, value: special_register_value_exec(sysm, inp) },
                ),
                ..system_done_exec(inp)
            },
        ),
        Instruction::MoveToSpecialRegisterFromARMRegister { rn, sysm, mask } => Some(
            if inp.cycle == 0 {
                msr_first_cycle_exec(rn, sysm, mask, inp)
            } else {
                system_done_exec(inp)
            },
        ),
        Instruction::ChangeProcessorState { enable, affect_pri, affect_fault, .. } => {
            let s = inp.special;
            let m = !enable;
            let raises = (affect_pri && !s.primask && m) || (affect_fault && !s.faultmask && m);
            Some(
                if inp.cycle == 0 && raises {
                    SystemStepEffects {
                        result: ExecutionStepResult::Continue {
                            trigger_decode: true,
                            lsu_branch_expected: false,
                        },
                        ..system_done_exec(inp)
                    }
                } else {
                    SystemStepEffects {
                        special: SpecialRegisters {
                            primask: if affect_pri {
                                m
                            } else {
                                s.primask
                            },
                            faultmask: if affect_fault {
                                m
                            } else {
                                s.faultmask
                            },
                            ..s
                        },
                        ..system_done_exec(inp)
                    }
                },
            )
        },
        _ => None,
    }
}


// ---------------------------------------------------------------------------
// Laws
// ---------------------------------------------------------------------------

/// Unprivileged code can neither change a special register with `MSR` nor read one but
/// the xPSR views: it reads zero.
pub proof fn lemma_unprivileged_access(rd: RegisterID, rn: RegisterID, sysm: u8, mask: u8, inp: SystemInputs)
    requires
        !inp.privileged,
        sysm / 8 != 0,
    ensures
        system_step(Instruction::MoveToSpecialRegisterFromARMRegister { rn, sysm, mask }, inp)
            == Some(system_done(inp)),
        system_step(Instruction::MoveToRegisterFromSpecialRegister { rd, sysm }, inp) == Some(
            SystemStepEffects {
                register_write: Some(RegisterWrite { register: rd, value: 0 }),
                ..system_done(inp)
            },
        ),
{
}

/// `MSR` to `BASEPRI_MAX` never lowers the priority: it either writes a value that raises
/// it, or changes nothing.
pub proof fn lemma_basepri_max_only_raises(rn: RegisterID, mask: u8, inp: SystemInputs)
    ensures
        ({
            let e = system_step(
                Instruction::MoveToSpecialRegisterFromARMRegister { rn, sysm: 18, mask },
                inp,
            ).unwrap();
            e.special == inp.special || inp.basepri_write_raises_priority
        }),
{
}

/// `MRS Rd, <reg>` ends in one cycle, writes `value` to `Rd` and changes no special register
/// and no flag being built.
pub open spec fn mrs_reads(rd: RegisterID, sysm: u8, inp: SystemInputs, value: Word) -> bool {
    let e = system_step(Instruction::MoveToRegisterFromSpecialRegister { rd, sysm }, inp);
    &&& e is Some
    &&& e->0.result == ExecutionStepResult::NextInstruction
    &&& e->0.register_write == Some(RegisterWrite { register: rd, value })
    &&& e->0.special == inp.special
    &&& e->0.next_xpsr == inp.next_xpsr
}

/// When privileged, `MRS` reads `MSP` (SYSm 8) as the main stack pointer, `PSP` (9) as the
/// process stack pointer, `PRIMASK` (16) and `FAULTMASK` (19) as 0 or 1, `BASEPRI` and
/// `BASEPRI_MAX` (17, 18) as the priority byte, and `CONTROL` (20) with nPRIV in bit 0 and
/// SPSEL in bit 1. In any mode, `IPSR` (5) reads the exception number and `APSR` (0) the
/// flags N, Z, C, V and Q in bits 31 to 27.
pub proof fn lemma_mrs_reads_special_registers(rd: RegisterID, inp: SystemInputs)
    ensures
        inp.privileged ==> mrs_reads(rd, 8, inp, inp.special.msp),
        inp.privileged ==> mrs_reads(rd, 9, inp, inp.special.psp),
        inp.privileged ==> mrs_reads(rd, 16, inp, if inp.special.primask { 1 } else { 0 }),
        inp.privileged ==> mrs_reads(rd, 17, inp, inp.special.basepri as Word),
        inp.privileged ==> mrs_reads(rd, 18, inp, inp.special.basepri as Word),
        inp.privileged ==> mrs_reads(rd, 19, inp, if inp.special.faultmask { 1 } else { 0 }),
        inp.privileged ==> mrs_reads(
            rd,
            20,
            inp,
            ((if inp.special.control_npriv { 1int } else { 0 }) + (if inp.special.control_spsel {
                2int
            } else {
                0
            })) as Word,
        ),
        mrs_reads(rd, 5, inp, (inp.exception_number % 512) as Word),
        mrs_reads(
            rd,
            0,
            inp,
            ((if inp.xpsr.negative { 0x8000_0000int } else { 0 }) + (if inp.xpsr.zero {
                0x4000_0000int
            } else {
                0
            }) + (if inp.xpsr.carry { 0x2000_0000int } else { 0 }) + (if inp.xpsr.overflow {
                0x1000_0000int
            } else {
                0
            }) + (if inp.xpsr.saturation { 0x0800_0000int } else { 0 })) as Word,
        ),
{    vstd::arithmetic::power2::lemma2_to64();
}

/// A privileged `MSR` to `MSP` or `PSP` followed by an `MRS` of the same register reads back
/// the value written.
pub proof fn lemma_stack_pointer_write_read_back(
    rn: RegisterID,
    rd: RegisterID,
    sysm: u8,
    mask: u8,
    inp: SystemInputs,
    later: SystemInputs,
)
    requires
        sysm == 8 || sysm == 9,
        inp.privileged,
        inp.cycle == 0,
        later.privileged,
        later.special == system_step(
            Instruction::MoveToSpecialRegisterFromARMRegister { rn, sysm, mask },
            inp,
        )->0.special,
    ensures
        mrs_reads(rd, sysm, later, sreg(inp, rn)),
{
}

} // verus!
