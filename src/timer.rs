use vstd::prelude::*;
use crate::memory_bus::MemoryBus;
use crate::timer_memory::{CPUFreqDivider, TimerMemory, divider_period};

verus! {

/// The timer's two sub-dividers, counted in T-cycles.
pub struct Timer {
    pub nb_ticks_div: usize,
    pub nb_ticks_tima: usize,
}

/// TIMA after one increment: on overflow it reloads from TMA.
pub open spec fn tima_next(tm: TimerMemory) -> u8 {
    if tm.tima_reg == 0xFF { tm.tim_reg } else { (tm.tima_reg + 1) as u8 }
}

impl Timer {
    pub open spec fn wf(&self) -> bool {
        self.nb_ticks_div < 256 && self.nb_ticks_tima < 0x400
    }

    /// Whether this T-cycle increments DIV: every 256 cycles, 128 in double speed.
    pub open spec fn div_fires(&self, bus: &MemoryBus) -> bool {
        self.nb_ticks_div + 1 >= (if bus.is_double_speed { 128int } else { 256int })
    }

    /// Whether this T-cycle increments TIMA.
    pub open spec fn tima_fires(&self, bus: &MemoryBus) -> bool {
        bus.timer_memory.timer_enabled && self.nb_ticks_tima + 1 >= divider_period(bus.timer_memory.timer_freq_div)
    }

    pub fn new() -> (r: Timer)
        ensures
            r.wf(),
            r.nb_ticks_div == 0 && r.nb_ticks_tima == 0,
    {
        Timer { nb_ticks_div: 0, nb_ticks_tima: 0 }
    }

    /// DIV goes up by one, wrapping.
    pub fn increase_div(&mut self, memory_bus: &mut MemoryBus)
        ensures
            *final(memory_bus) == (MemoryBus {
                timer_memory: TimerMemory {
                    div_reg: (if old(memory_bus).timer_memory.div_reg == 255 { 0 } else { old(memory_bus).timer_memory.div_reg + 1 }) as u8,
                    ..old(memory_bus).timer_memory
                },
                ..*old(memory_bus)
            }),
            *final(self) == *old(self),
    {
        let d = memory_bus.timer_memory.div_reg;
        memory_bus.timer_memory.div_reg = if d == 255 { 0 } else { d + 1 };
    }

    /// TIMA goes up by one; on overflow it reloads from TMA and the timer
    /// interrupt (IF bit 2) is requested.
    pub fn increase_tima(&mut self, memory_bus: &mut MemoryBus)
        requires
            old(memory_bus).wf(),
        ensures
            final(memory_bus).wf(),
            final(memory_bus).timer_memory == (TimerMemory {
                tima_reg: tima_next(old(memory_bus).timer_memory),
                ..old(memory_bus).timer_memory
            }),
            final(memory_bus).interrupt_flag() == (if old(memory_bus).timer_memory.tima_reg == 0xFF {
                old(memory_bus).interrupt_flag() | 4
            } else {
                old(memory_bus).interrupt_flag()
            }),
            *final(memory_bus) == (MemoryBus {
                timer_memory: final(memory_bus).timer_memory,
                io_regis: final(memory_bus).io_regis,
                ..*old(memory_bus)
            }),
            final(memory_bus).io_regis@ == old(memory_bus).io_regis@.update(0x0E, final(memory_bus).interrupt_flag()),
            *final(self) == *old(self),
    {
        let t = memory_bus.timer_memory.tima_reg;
        if t == 0xFF {
            memory_bus.request_interrupt(2);
            assert(1u8 << 2u8 == 4) by (bit_vector);
            memory_bus.timer_memory.tima_reg = memory_bus.timer_memory.tim_reg;
        } else {
            memory_bus.timer_memory.tima_reg = t + 1;
            assert(old(memory_bus).io_regis@ =~= old(memory_bus).io_regis@.update(0x0E, old(memory_bus).io_regis@[0x0E]));
        }
    }

    /// The effect of one timer T-cycle.
    pub open spec fn tick_post(o: Timer, n: Timer, ob: MemoryBus, nb: MemoryBus) -> bool {
        &&& (n.wf())
        &&& (nb.wf())
        &&& (n.nb_ticks_tima == (if o.tima_fires(&ob) {
            0
        } else if ob.timer_memory.timer_enabled {
            o.nb_ticks_tima + 1
        } else {
            o.nb_ticks_tima as int
        }))
        &&& (n.nb_ticks_div == (if o.div_fires(&ob) { 0 } else { o.nb_ticks_div + 1 }))
        &&& (nb.timer_memory.tima_reg == (if o.tima_fires(&ob) {
            tima_next(ob.timer_memory)
        } else {
            ob.timer_memory.tima_reg
        }))
        &&& (nb.timer_memory.div_reg == (if o.div_fires(&ob) {
            (if ob.timer_memory.div_reg == 255 { 0 } else { ob.timer_memory.div_reg + 1 }) as u8
        } else {
            ob.timer_memory.div_reg
        }))
        &&& (nb.interrupt_flag() == (if o.tima_fires(&ob)
            && ob.timer_memory.tima_reg == 0xFF {
            ob.interrupt_flag() | 4
        } else {
            ob.interrupt_flag()
        }))
        &&& (nb.timer_memory == (TimerMemory {
            tima_reg: nb.timer_memory.tima_reg,
            div_reg: nb.timer_memory.div_reg,
            ..ob.timer_memory
        }))
        &&& (nb == (MemoryBus {
            timer_memory: nb.timer_memory,
            io_regis: nb.io_regis,
            ..ob
        }))
        &&& (nb.io_regis@ == ob.io_regis@.update(0x0E, nb.interrupt_flag()))
    }

    /// One T-cycle: DIV steps every 256 cycles (128 in double speed); while TAC enables it, TIMA steps
    /// at the rate that TAC selects.
    #[verifier::rlimit(100)]
    pub fn tick(&mut self, memory_bus: &mut MemoryBus)
        requires
            old(self).wf(),
            old(memory_bus).wf(),
        ensures
            final(self).wf(),
            final(memory_bus).wf(),
            final(self).nb_ticks_tima == (if old(self).tima_fires(old(memory_bus)) {
                0
            } else if old(memory_bus).timer_memory.timer_enabled {
                old(self).nb_ticks_tima + 1
            } else {
                old(self).nb_ticks_tima as int
            }),
            final(self).nb_ticks_div == (if old(self).div_fires(old(memory_bus)) { 0 } else { old(self).nb_ticks_div + 1 }),
            final(memory_bus).timer_memory.tima_reg == (if old(self).tima_fires(old(memory_bus)) {
                tima_next(old(memory_bus).timer_memory)
            } else {
                old(memory_bus).timer_memory.tima_reg
            }),
            final(memory_bus).timer_memory.div_reg == (if old(self).div_fires(old(memory_bus)) {
                (if old(memory_bus).timer_memory.div_reg == 255 { 0 } else { old(memory_bus).timer_memory.div_reg + 1 }) as u8
            } else {
                old(memory_bus).timer_memory.div_reg
            }),
            final(memory_bus).interrupt_flag() == (if old(self).tima_fires(old(memory_bus))
                && old(memory_bus).timer_memory.tima_reg == 0xFF {
                old(memory_bus).interrupt_flag() | 4
            } else {
                old(memory_bus).interrupt_flag()
            }),
            final(memory_bus).timer_memory == (TimerMemory {
                tima_reg: final(memory_bus).timer_memory.tima_reg,
                div_reg: final(memory_bus).timer_memory.div_reg,
                ..old(memory_bus).timer_memory
            }),
            *final(memory_bus) == (MemoryBus {
                timer_memory: final(memory_bus).timer_memory,
                io_regis: final(memory_bus).io_regis,
                ..*old(memory_bus)
            }),
            final(memory_bus).io_regis@ == old(memory_bus).io_regis@.update(0x0E, final(memory_bus).interrupt_flag()),
    {
        if memory_bus.timer_memory.timer_enabled {
            let period: usize = match memory_bus.timer_memory.timer_freq_div {
                CPUFreqDivider::Ratio0x10 => 0x10,
                CPUFreqDivider::Ratio0x40 => 0x40,
                CPUFreqDivider::Ratio0x100 => 0x100,
                CPUFreqDivider::Ratio0x400 => 0x400,
            };
            if self.nb_ticks_tima + 1 >= period {
                self.increase_tima(memory_bus);
                self.nb_ticks_tima = 0;
            } else {
                self.nb_ticks_tima = self.nb_ticks_tima + 1;
                assert(old(memory_bus).io_regis@ =~= old(memory_bus).io_regis@.update(0x0E, old(memory_bus).io_regis@[0x0E]));
            }
        } else {
            assert(old(memory_bus).io_regis@ =~= old(memory_bus).io_regis@.update(0x0E, old(memory_bus).io_regis@[0x0E]));
        }
        let div_period: usize = if memory_bus.is_double_speed { 128 } else { 256 };
        if self.nb_ticks_div + 1 >= div_period {
            self.increase_div(memory_bus);
            self.nb_ticks_div = 0;
        } else {
            self.nb_ticks_div = self.nb_ticks_div + 1;
        }
    }
}

} // verus!
