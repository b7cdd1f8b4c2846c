pub mod control;
pub mod fpu;
pub mod instruction;
pub mod instruction_gen;
pub mod interpreter;
pub mod jit;
pub mod mmu;
pub mod register;
pub mod text;

use vstd::prelude::*;

use control::Control;
use fpu::Fpu;
use mmu::Mmu;
use register::{GetRegister, GetUpper, Register, SetRegister, SetUpper, REGISTER_COUNT};

verus! {

/// The privilege mode the core runs in.
#[derive(Debug, PartialEq, Eq, Structural, Copy, Clone)]
pub enum Mode {
    Kernel,
    Supervisor,
    User,
}

impl Mode {
    /// Position of the mode in declaration order.
    pub open spec fn index(self) -> int {
        match self {
            Mode::Kernel => 0,
            Mode::Supervisor => 1,
            Mode::User => 2,
        }
    }

    pub fn to_index(self) -> (r: usize)
        ensures
            r == self.index(),
    {
        match self {
            Mode::Kernel => 0,
            Mode::Supervisor => 1,
            Mode::User => 2,
        }
    }
}


/// The architectural state of the core: program counter, registers, coprocessors, and the
/// target of a branch whose delay slot runs next.
pub struct State {
    pub program_counter: u32,
    pub registers: [u128; 34],
    pub control: Control,
    pub fpu: Fpu,
    pub delayed_branch_target: Option<u32>,
}

/// The Emotion Engine core.
pub struct Core {
    pub state: State,
    pub mode: Mode,
    pub mmu: Mmu,
    pub main_thread_stack_pointer: u32,
}

impl State {
    /// The value of register `register`.
    pub open spec fn gpr(self, register: Register) -> u128 {
        self.registers@[register.index() as int]
    }

    /// Makes the next instruction the delay slot of a branch to `target`, which must be word
    /// aligned.
    pub fn set_delayed_branch_target(&mut self, target: u32)
        requires
            target % 4 == 0,
        ensures
            *final(self) == (State { delayed_branch_target: Some(target), ..*old(self) }),
    {
        self.delayed_branch_target = Some(target);
    }

    /// The low 32 bits of register `register`.
    pub fn read_register32(&self, register: Register) -> (r: u32)
        ensures
            r == GetRegister::<u32>::spec_get_register(self.gpr(register)),
    {
        self.registers[register.to_index()].get_register()
    }

    /// The low 64 bits of register `register`.
    pub fn read_register64(&self, register: Register) -> (r: u64)
        ensures
            r == GetRegister::<u64>::spec_get_register(self.gpr(register)),
    {
        self.registers[register.to_index()].get_register()
    }

    /// All 128 bits of register `register`.
    pub fn read_register128(&self, register: Register) -> (r: u128)
        ensures
            r == self.gpr(register),
    {
        self.registers[register.to_index()]
    }

    /// Replaces the low 64 bits of register `register` by `value`, keeping the upper half;
    /// writes to the zero register are ignored.
    pub fn write_register64(&mut self, register: Register, value: u64)
        ensures
            final(self).registers@ == if register == Register::Zero {
                old(self).registers@
            } else {
                old(self).registers@.update(
                    register.index() as int,
                    old(self).gpr(register).spec_set_register(value),
                )
            },
            final(self).program_counter == old(self).program_counter,
            final(self).control == old(self).control,
            final(self).fpu == old(self).fpu,
            final(self).delayed_branch_target == old(self).delayed_branch_target,
    {
        if register == Register::Zero {
            return;
        }
        let index = register.to_index();
        let mut current = self.registers[index];
        current.set_register(value);
        self.registers[index] = current;
    }

    /// Replaces all of register `register` by `value`; writes to the zero register are ignored.
    pub fn write_register128(&mut self, register: Register, value: u128)
        ensures
            final(self).registers@ == if register == Register::Zero {
                old(self).registers@
            } else {
                old(self).registers@.update(register.index() as int, value)
            },
            final(self).program_counter == old(self).program_counter,
            final(self).control == old(self).control,
            final(self).fpu == old(self).fpu,
            final(self).delayed_branch_target == old(self).delayed_branch_target,
    {
        if register == Register::Zero {
            return;
        }
        self.registers[register.to_index()] = value;
    }
}

impl Core {
    pub open spec fn wf(self) -> bool {
        &&& self.mmu.wf()
        &&& self.state.control@.len() == 32
        &&& self.state.fpu@.len() == 32
        &&& self.state.program_counter % 4 == 0
        &&& self.state.delayed_branch_target matches Some(t) ==> t % 4 == 0
    }

    /// Reset: kernel mode, execution from the boot ROM at 0xBFC0_0000, registers cleared.
    pub fn new() -> (r: Core)
        ensures
            r.wf(),
            r.mode == Mode::Kernel,
            r.state.program_counter == 0xBFC0_0000,
            r.state.delayed_branch_target is None,
            forall|i: int| 0 <= i < REGISTER_COUNT ==> #[trigger] r.state.registers@[i] == 0,
            r.main_thread_stack_pointer == 0,
    {
        Core {
            mode: Mode::Kernel,
            state: State {
                program_counter: 0xBFC0_0000,
                registers: [0u128; 34],
                control: Control::new(),
                fpu: Fpu::new(),
                delayed_branch_target: None,
            },
            mmu: Mmu::new(),
            main_thread_stack_pointer: 0,
        }
    }

    /// Register `register`, as the type `T` reads it (its low bits, or all of it).
    pub fn get_register<T>(&self, register: Register) -> (r: T) where u128: GetRegister<T>
        ensures
            r == self.state.gpr(register).spec_get_register(),
    {
        self.state.registers[register.to_index()].get_register()
    }

    /// Writes `value` to register `register`, as the type `T` writes it; writes to the zero
    /// register are ignored.
    pub fn set_register<T>(&mut self, register: Register, value: T) where u128: SetRegister<T>
        ensures
            final(self).state.registers@ == if register == Register::Zero {
                old(self).state.registers@
            } else {
                old(self).state.registers@.update(
                    register.index() as int,
                    old(self).state.gpr(register).spec_set_register(value),
                )
            },
            final(self).state.program_counter == old(self).state.program_counter,
            final(self).state.control == old(self).state.control,
            final(self).state.fpu == old(self).state.fpu,
            final(self).state.delayed_branch_target == old(self).state.delayed_branch_target,
            final(self).mode == old(self).mode,
            final(self).mmu == old(self).mmu,
            final(self).main_thread_stack_pointer == old(self).main_thread_stack_pointer,
    {
        if register == Register::Zero {
            return;
        }
        let index = register.to_index();
        let mut current = self.state.registers[index];
        current.set_register(value);
        self.state.registers[index] = current;
    }

    /// The upper 64 bits of register `register`.
    pub fn get_upper<T>(&self, register: Register) -> (r: T) where u128: GetUpper<T>
        ensures
            r == self.state.gpr(register).spec_get_upper(),
    {
        self.state.registers[register.to_index()].get_upper()
    }

    /// Writes `value` to the upper 64 bits of register `register`; writes to the zero register
    /// are ignored.
    pub fn set_upper<T>(&mut self, register: Register, value: T) where u128: SetUpper<T>
        ensures
            final(self).state.registers@ == if register == Register::Zero {
                old(self).state.registers@
            } else {
                old(self).state.registers@.update(
                    register.index() as int,
                    old(self).state.gpr(register).spec_set_upper(value),
                )
            },
            final(self).state.program_counter == old(self).state.program_counter,
            final(self).state.control == old(self).state.control,
            final(self).state.fpu == old(self).state.fpu,
            final(self).state.delayed_branch_target == old(self).state.delayed_branch_target,
            final(self).mode == old(self).mode,
            final(self).mmu == old(self).mmu,
            final(self).main_thread_stack_pointer == old(self).main_thread_stack_pointer,
    {
        if register == Register::Zero {
            return;
        }
        let index = register.to_index();
        let mut current = self.state.registers[index];
        current.set_upper(value);
        self.state.registers[index] = current;
    }
}

} // verus!
