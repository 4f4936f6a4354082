use vstd::prelude::*;
use std::collections::BTreeSet;
use crate::cpu::opcode_size_spec;
use crate::debugger::{is_step_over_opcode, step_over_spec, PendingStep};
use crate::gb::{Gb, MemoryWriteEvent};
use crate::text::{hex_byte_upper, hex_word_upper, push_hex_byte_upper, push_hex_word_upper};

verus! {

/// Whether `writes[i]` is the first write that touches a watched address.
pub open spec fn first_watch_hit(writes: Seq<MemoryWriteEvent>, watched: Set<u16>, i: int) -> bool {
    &&& 0 <= i < writes.len()
    &&& watched.contains(writes[i].address)
    &&& forall|j: int| 0 <= j < i ==> !watched.contains(#[trigger] writes[j].address)
}

/// Whether no write touches a watched address.
pub open spec fn no_watch_hit(writes: Seq<MemoryWriteEvent>, watched: Set<u16>) -> bool {
    forall|j: int| 0 <= j < writes.len() ==> !watched.contains(#[trigger] writes[j].address)
}

/// Whether `address` is in the set.
fn set_has(set: &BTreeSet<u16>, address: u16) -> (r: bool)
    ensures
        r == set@.contains(address),
{
    broadcast use vstd::std_specs::btree::group_btree_axioms, vstd::laws_cmp::group_laws_cmp;

    set.contains(&address)
}

/// The first of `writes` that touches a watched address.
pub fn find_watchpoint_hit<'a>(writes: &'a [MemoryWriteEvent], watchpoints: &BTreeSet<u16>) -> (r: Option<
    &'a MemoryWriteEvent,
>)
    ensures
        r is None <==> no_watch_hit(writes@, watchpoints@),
        r matches Some(w) ==> exists|i: int| first_watch_hit(writes@, watchpoints@, i) && *w == writes@[i],
{
    let mut i: usize = 0;
    while i < writes.len()
        invariant
            i <= writes@.len(),
            forall|j: int| 0 <= j < i ==> !watchpoints@.contains(#[trigger] writes@[j].address),
        decreases writes.len() - i,
    {
        if set_has(watchpoints, writes[i].address) {
            assert(first_watch_hit(writes@, watchpoints@, i as int));
            return Some(&writes[i]);
        }
        i = i + 1;
    }
    None
}

/// Whether a pending step is done with the CPU at `pc` and `sp`.
pub open spec fn step_completed(pending: PendingStep, pc: u16, sp: u16) -> bool {
    match pending {
        PendingStep::Into => true,
        PendingStep::Over { target_pc, initial_sp } => pc == target_pc && sp == initial_sp,
        PendingStep::Out { target_pc, target_sp } => pc == target_pc && sp == target_sp,
    }
}

/// The step "step over" waits for at the instruction at PC: past a call or restart, at the
/// same stack depth; a single instruction otherwise.
pub open spec fn step_over_target(gb: Gb) -> PendingStep {
    if step_over_spec(gb.read_spec(gb.cpu.pc)) {
        PendingStep::Over {
            target_pc: ((gb.cpu.pc + opcode_size_spec(gb.read_spec(gb.cpu.pc))) % 0x10000) as u16,
            initial_sp: gb.cpu.sp,
        }
    } else {
        PendingStep::Into
    }
}

/// The step "step out" waits for: the return address on top of the stack, with the stack
/// popped.
pub open spec fn step_out_target(gb: Gb) -> PendingStep {
    PendingStep::Out {
        target_pc: ((gb.read_spec(((gb.cpu.sp + 1) % 0x10000) as u16) as int) * 256 + gb.read_spec(
            gb.cpu.sp,
        ) as int) as u16,
        target_sp: ((gb.cpu.sp + 2) % 0x10000) as u16,
    }
}

/// The debugger's run control: breakpoints, watchpoints and the step it waits for, with the
/// state of its inputs and selections.
pub struct DebuggerUiState {
    pub show_debugger: bool,
    pub detached: bool,
    pub breakpoints: BTreeSet<u16>,
    pub watchpoints: BTreeSet<u16>,
    pub breakpoint_input: String,
    pub watchpoint_input: String,
    pub memory_jump_input: String,
    pub disassembly_start_input: String,
    pub disassembly_count_input: String,
    pub follow_pc_in_disassembly: bool,
    pub selected_memory_address: Option<u16>,
    pub last_stop_reason: Option<String>,
    pub pending_memory_scroll: Option<u16>,
    pub pending_step: Option<PendingStep>,
    pub ignore_breakpoint_once: Option<u16>,
    pub selected_vram_bank: usize,
    pub selected_bg_map: usize,
}

/// The view of an optional string.
pub open spec fn opt_view(s: Option<String>) -> Option<Seq<char>> {
    match s {
        Some(t) => Some(t@),
        None => None,
    }
}

impl DebuggerUiState {
    /// A closed debugger with no breakpoints or watchpoints, following PC.
    pub fn new() -> (r: Self)
        ensures
            !r.show_debugger && !r.detached,
            r.breakpoints@ == Set::<u16>::empty() && r.watchpoints@ == Set::<u16>::empty(),
            r.breakpoint_input@ == "0100"@ && r.watchpoint_input@ == "C000"@,
            r.memory_jump_input@ == "C000"@ && r.disassembly_start_input@ == "0100"@,
            r.disassembly_count_input@ == "0040"@,
            r.follow_pc_in_disassembly,
            r.selected_memory_address is None && r.last_stop_reason is None,
            r.pending_memory_scroll is None && r.pending_step is None,
            r.ignore_breakpoint_once is None,
            r.selected_vram_bank == 0 && r.selected_bg_map == 0,
    {
        Self {
            show_debugger: false,
            detached: false,
            breakpoints: BTreeSet::new(),
            watchpoints: BTreeSet::new(),
            breakpoint_input: String::from_str("0100"),
            watchpoint_input: String::from_str("C000"),
            memory_jump_input: String::from_str("C000"),
            disassembly_start_input: String::from_str("0100"),
            disassembly_count_input: String::from_str("0040"),
            follow_pc_in_disassembly: true,
            selected_memory_address: None,
            last_stop_reason: None,
            pending_memory_scroll: None,
            pending_step: None,
            ignore_breakpoint_once: None,
            selected_vram_bank: 0,
            selected_bg_map: 0,
        }
    }

    pub fn open(&mut self)
        ensures
            *final(self) == (DebuggerUiState { show_debugger: true, ..*old(self) }),
    {
        self.show_debugger = true;
    }

    pub fn close(&mut self)
        ensures
            *final(self) == (DebuggerUiState { show_debugger: false, ..*old(self) }),
    {
        self.show_debugger = false;
    }

    pub fn is_detached(&self) -> (r: bool)
        ensures
            r == self.detached,
    {
        self.detached
    }

    pub fn set_detached(&mut self, detached: bool)
        ensures
            *final(self) == (DebuggerUiState { detached, ..*old(self) }),
    {
        self.detached = detached;
    }

    pub fn toggle_detached(&mut self)
        ensures
            *final(self) == (DebuggerUiState { detached: !old(self).detached, ..*old(self) }),
    {
        self.detached = !self.detached;
    }

    /// Forgets what belongs to the game that ran: the stop reason, the pending step, the
    /// breakpoint to skip and the selections. Breakpoints and watchpoints stay.
    pub fn reset_runtime(&mut self)
        ensures
            *final(self) == (DebuggerUiState {
                last_stop_reason: None,
                pending_step: None,
                pending_memory_scroll: None,
                ignore_breakpoint_once: None,
                selected_vram_bank: 0,
                selected_bg_map: 0,
                selected_memory_address: None,
                ..*old(self)
            }),
    {
        self.last_stop_reason = None;
        self.pending_step = None;
        self.pending_memory_scroll = None;
        self.ignore_breakpoint_once = None;
        self.selected_vram_bank = 0;
        self.selected_bg_map = 0;
        self.selected_memory_address = None;
    }

    /// Before running on: no step is pending, and a breakpoint at the current PC is passed
    /// once.
    pub fn prepare_resume(&mut self, gb: Option<&Gb>)
        ensures
            *final(self) == (DebuggerUiState {
                last_stop_reason: None,
                pending_step: None,
                ignore_breakpoint_once: match gb {
                    Some(g) => Some(g.cpu.pc),
                    None => None,
                },
                ..*old(self)
            }),
    {
        self.last_stop_reason = None;
        self.pending_step = None;
        self.ignore_breakpoint_once = match gb {
            Some(g) => Some(g.current_pc()),
            None => None,
        };
    }

    /// Waits for a single instruction.
    pub fn request_step_into(&mut self, gb: Option<&Gb>)
        ensures
            *final(self) == (DebuggerUiState {
                last_stop_reason: None,
                pending_step: Some(PendingStep::Into),
                ignore_breakpoint_once: match gb {
                    Some(g) => Some(g.cpu.pc),
                    None => None,
                },
                ..*old(self)
            }),
    {
        self.last_stop_reason = None;
        self.pending_step = Some(PendingStep::Into);
        self.ignore_breakpoint_once = match gb {
            Some(g) => Some(g.current_pc()),
            None => None,
        };
    }

    /// Waits past a call or restart at PC (a single instruction otherwise, or when no game
    /// runs).
    pub fn request_step_over(&mut self, gb: Option<&Gb>)
        requires
            gb matches Some(g) ==> g.wf(),
        ensures
            *final(self) == (DebuggerUiState {
                last_stop_reason: None,
                pending_step: Some(
                    match gb {
                        Some(g) => step_over_target(*g),
                        None => PendingStep::Into,
                    },
                ),
                ignore_breakpoint_once: match gb {
                    Some(g) => Some(g.cpu.pc),
                    None => None,
                },
                ..*old(self)
            }),
    {
        self.last_stop_reason = None;
        match gb {
            Some(g) => {
                let pc = g.current_pc();
                let bytes = g.read_memory_range(pc, 1);
                assert(bytes@[0] == g.read_spec(pc));
                let opcode = bytes[0];
                if is_step_over_opcode(opcode) {
                    self.pending_step = Some(
                        PendingStep::Over {
                            target_pc: pc.wrapping_add(g.current_opcode_size()),
                            initial_sp: g.cpu.sp,
                        },
                    );
                } else {
                    self.pending_step = Some(PendingStep::Into);
                }
                self.ignore_breakpoint_once = Some(pc);
            },
            None => {
                self.pending_step = Some(PendingStep::Into);
                self.ignore_breakpoint_once = None;
            },
        }
    }

    /// Waits for the return to the address on top of the stack (nothing when no game runs).
    pub fn request_step_out(&mut self, gb: Option<&Gb>)
        requires
            gb matches Some(g) ==> g.wf(),
        ensures
            *final(self) == (DebuggerUiState {
                last_stop_reason: None,
                pending_step: match gb {
                    Some(g) => Some(step_out_target(*g)),
                    None => None,
                },
                ignore_breakpoint_once: match gb {
                    Some(g) => Some(g.cpu.pc),
                    None => None,
                },
                ..*old(self)
            }),
    {
        self.last_stop_reason = None;
        match gb {
            Some(g) => {
                let sp = g.cpu.sp;
                let stack = g.read_memory_range(sp, 2);
                assert(stack@[0] == g.read_spec(sp));
                assert(stack@[1] == g.read_spec(((sp + 1) % 0x10000) as u16));
                let low = stack[0] as u16;
                let high = stack[1] as u16;
                assert(low | (high << 8u16) == high * 256 + low) by (bit_vector)
                    requires
                        low < 256,
                        high < 256,
                ;
                self.pending_step = Some(
                    PendingStep::Out { target_pc: low | (high << 8u16), target_sp: sp.wrapping_add(2) },
                );
                self.ignore_breakpoint_once = Some(g.current_pc());
            },
            None => {
                self.pending_step = None;
                self.ignore_breakpoint_once = None;
            },
        }
    }

    /// Selects an address in the memory view and scrolls to it.
    pub fn focus_memory_address(&mut self, address: u16)
        ensures
            final(self).memory_jump_input@ == hex_word_upper(address),
            *final(self) == (DebuggerUiState {
                selected_memory_address: Some(address),
                memory_jump_input: final(self).memory_jump_input,
                pending_memory_scroll: Some(address),
                ..*old(self)
            }),
    {
        self.selected_memory_address = Some(address);
        let mut text = String::new();
        push_hex_word_upper(&mut text, address);
        self.memory_jump_input = text;
        self.pending_memory_scroll = Some(address);
    }

    /// Whether the run must go instruction by instruction: a step is pending, or a
    /// breakpoint or watchpoint is set.
    pub fn needs_instruction_loop(&self) -> (r: bool)
        ensures
            r == (self.pending_step is Some || !self.breakpoints@.is_empty() || !self.watchpoints@.is_empty()),
    {
        self.pending_step.is_some() || !self.breakpoints.is_empty() || !self.watchpoints.is_empty()
    }

    /// Before an instruction at `pc` runs: stops at a breakpoint there, unless it is the one to
    /// pass once, which is then forgotten.
    pub fn check_breakpoint(&mut self, pc: u16) -> (stop: bool)
        ensures
            stop == (old(self).breakpoints@.contains(pc) && old(self).ignore_breakpoint_once != Some(pc)),
            stop ==> *final(self) == (DebuggerUiState {
                last_stop_reason: final(self).last_stop_reason,
                show_debugger: true,
                pending_step: None,
                ..*old(self)
            }) && opt_view(final(self).last_stop_reason) == Some("Breakpoint hit at "@ + hex_word_upper(pc)),
            !stop ==> *final(self) == (DebuggerUiState {
                ignore_breakpoint_once: if old(self).ignore_breakpoint_once == Some(pc) {
                    None
                } else {
                    old(self).ignore_breakpoint_once
                },
                ..*old(self)
            }),
    {
        let ignore = self.ignore_breakpoint_once == Some(pc);
        if set_has(&self.breakpoints, pc) && !ignore {
            let mut reason = String::from_str("Breakpoint hit at ");
            push_hex_word_upper(&mut reason, pc);
            self.last_stop_reason = Some(reason);
            self.show_debugger = true;
            self.pending_step = None;
            return true;
        }
        if ignore {
            self.ignore_breakpoint_once = None;
        }
        false
    }

    /// Ends the pending step where the CPU has reached it, with the text the debugger shows.
    pub fn finish_pending_step(&mut self, gb: &Gb) -> (r: Option<String>)
        ensures
            match old(self).pending_step {
                Some(p) if step_completed(p, gb.cpu.pc, gb.cpu.sp) => {
                    &&& *final(self) == (DebuggerUiState { pending_step: None, ..*old(self) })
                    &&& opt_view(r) == Some(p.label_spec()@ + " completed at "@ + hex_word_upper(gb.cpu.pc))
                },
                _ => *final(self) == *old(self) && r is None,
            },
    {
        let pending = match self.pending_step {
            Some(p) => p,
            None => return None,
        };
        let pc = gb.current_pc();
        let sp = gb.cpu.sp;
        let completed = match pending {
            PendingStep::Into => true,
            PendingStep::Over { target_pc, initial_sp } => pc == target_pc && sp == initial_sp,
            PendingStep::Out { target_pc, target_sp } => pc == target_pc && sp == target_sp,
        };
        if !completed {
            return None;
        }
        self.pending_step = None;
        let mut text = String::from_str(pending.label());
        text.append(" completed at ");
        push_hex_word_upper(&mut text, pc);
        Some(text)
    }

    /// After an instruction ran: stops (`Some(true)`) at the first write to a watched address,
    /// or where the pending step is done; ends the frame (`Some(false)`) once it is complete;
    /// runs on (`None`) otherwise.
    pub fn after_instruction(&mut self, gb: &Gb) -> (r: Option<bool>)
        ensures
            !no_watch_hit(gb.debug_write_log@, old(self).watchpoints@) ==> r == Some(true) && exists|i: int|
                {
                    &&& first_watch_hit(gb.debug_write_log@, old(self).watchpoints@, i)
                    &&& opt_view(final(self).last_stop_reason) == Some(
                        "Watchpoint hit at "@ + hex_word_upper(gb.debug_write_log@[i].address) + " = "@ + hex_byte_upper(
                            gb.debug_write_log@[i].value,
                        ),
                    )
                } && *final(self) == (DebuggerUiState {
                last_stop_reason: final(self).last_stop_reason,
                show_debugger: true,
                pending_step: None,
                ignore_breakpoint_once: None,
                ..*old(self)
            }),
            no_watch_hit(gb.debug_write_log@, old(self).watchpoints@) ==> match old(self).pending_step {
                Some(p) if step_completed(p, gb.cpu.pc, gb.cpu.sp) => {
                    &&& r == Some(true)
                    &&& opt_view(final(self).last_stop_reason) == Some(
                        p.label_spec()@ + " completed at "@ + hex_word_upper(gb.cpu.pc),
                    )
                    &&& *final(self) == (DebuggerUiState {
                        last_stop_reason: final(self).last_stop_reason,
                        show_debugger: true,
                        pending_step: None,
                        ignore_breakpoint_once: None,
                        ..*old(self)
                    })
                },
                _ => *final(self) == *old(self) && r == (if gb.ppu.frame_ready { Some(false) } else { None }),
            },
    {
        match find_watchpoint_hit(gb.last_memory_writes(), &self.watchpoints) {
            Some(hit) => {
                let mut reason = String::from_str("Watchpoint hit at ");
                push_hex_word_upper(&mut reason, hit.address);
                reason.append(" = ");
                push_hex_byte_upper(&mut reason, hit.value);
                self.last_stop_reason = Some(reason);
                self.show_debugger = true;
                self.pending_step = None;
                self.ignore_breakpoint_once = None;
                return Some(true);
            },
            None => {},
        }
        match self.finish_pending_step(gb) {
            Some(reason) => {
                self.last_stop_reason = Some(reason);
                self.show_debugger = true;
                self.ignore_breakpoint_once = None;
                return Some(true);
            },
            None => {},
        }
        if gb.frame_ready() {
            Some(false)
        } else {
            None
        }
    }
}

} // verus!
