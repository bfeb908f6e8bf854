use vstd::prelude::*;
use crate::cpu::{Cpu, CpuError, tick_post};
use crate::memory_bus::MemoryBus;
use crate::ppu::{Ppu, FRAMEBUFFER_LEN};
use crate::timer::Timer;

verus! {

/// The machine state that the timer and the PPU step: timer, PPU, bus and framebuffer.
pub struct DotState {
    pub timer: Timer,
    pub ppu: Ppu,
    pub bus: MemoryBus,
    pub frame: Seq<u8>,
}

/// One T-cycle after the CPU step: the timer ticks, then the PPU ticks unless
/// this is an odd cycle in double speed (then `r` is `(false, held)`: no frame,
/// and the GDMA hold as it was).
pub open spec fn dot_post(o: DotState, n: DotState, i: int, held: bool, r: (bool, bool)) -> bool {
    exists|bm: MemoryBus|
        #[trigger] Timer::tick_post(o.timer, n.timer, o.bus, bm) && if !bm.is_double_speed || i % 2 == 0 {
            Ppu::tick_post(o.ppu, n.ppu, bm, n.bus, o.frame, n.frame, r)
        } else {
            n.ppu == o.ppu && n.bus == bm && n.frame == o.frame && r == (false, held)
        }
}

/// One T-cycle of the timer and the PPU.
fn run_dot(memory_bus: &mut MemoryBus, ppu: &mut Ppu, timer: &mut Timer, framebuffer: &mut Vec<u8>, i: u32, held: bool) -> (r: (bool, bool))
    requires
        old(memory_bus).wf(),
        old(ppu).wf(),
        old(timer).wf(),
        old(framebuffer)@.len() == FRAMEBUFFER_LEN,
    ensures
        final(memory_bus).wf(),
        final(ppu).wf(),
        final(timer).wf(),
        final(framebuffer)@.len() == FRAMEBUFFER_LEN,
        dot_post(
            DotState { timer: *old(timer), ppu: *old(ppu), bus: *old(memory_bus), frame: old(framebuffer)@ },
            DotState { timer: *final(timer), ppu: *final(ppu), bus: *final(memory_bus), frame: final(framebuffer)@ },
            i as int,
            held,
            r,
        ),
{
    let ghost b0 = *memory_bus;
    let ghost t0 = *timer;
    timer.tick(memory_bus);
    let ghost bm = *memory_bus;
    assert(Timer::tick_post(t0, *timer, b0, bm));
    if !memory_bus.is_double_speed || i % 2 == 0 {
        let ghost p0 = *ppu;
        let ghost f0 = framebuffer@;
        let r = ppu.tick(memory_bus, framebuffer);
        assert(Ppu::tick_post(p0, *ppu, bm, *memory_bus, f0, framebuffer@, r));
        let ghost os = DotState { timer: t0, ppu: p0, bus: b0, frame: f0 };
        let ghost ns = DotState { timer: *timer, ppu: *ppu, bus: *memory_bus, frame: framebuffer@ };
        assert(Timer::tick_post(os.timer, ns.timer, os.bus, bm));
        assert(Ppu::tick_post(os.ppu, ns.ppu, bm, ns.bus, os.frame, ns.frame, r));
        assert(dot_post(os, ns, i as int, held, r));
        r
    } else {
        let ghost os = DotState { timer: t0, ppu: *ppu, bus: b0, frame: framebuffer@ };
        let ghost ns = DotState { timer: *timer, ppu: *ppu, bus: *memory_bus, frame: framebuffer@ };
        assert(Timer::tick_post(os.timer, ns.timer, os.bus, bm));
        assert(dot_post(os, ns, i as int, held, (false, held)));
        (false, held)
    }
}

/// Runs one instruction and then the timer and PPU for each of its T-cycles
/// (the PPU on every other cycle in double speed); while a general-purpose
/// DMA holds the CPU the cycles go on, up to 65536 in all. Returns whether a
/// frame was completed.
pub fn run_instruction(
    cpu: &mut Cpu,
    memory_bus: &mut MemoryBus,
    ppu: &mut Ppu,
    timer: &mut Timer,
    framebuffer: &mut Vec<u8>,
) -> (r: Result<bool, CpuError>)
    requires
        old(memory_bus).wf(),
        old(ppu).wf(),
        old(timer).wf(),
        old(framebuffer)@.len() == FRAMEBUFFER_LEN,
    ensures
        final(memory_bus).wf(),
        final(ppu).wf(),
        final(timer).wf(),
        final(framebuffer)@.len() == FRAMEBUFFER_LEN,
        r.is_err() <==> ((old(cpu).state != crate::cpu::CpuState::Halted || Cpu::pending(*old(memory_bus)))
            && old(cpu).next_op.is_none()),
        exists|stepped: MemoryBus, cr: Result<u8, CpuError>|
            #[trigger] tick_post(*old(cpu), *final(cpu), *old(memory_bus), stepped, cr) && (cr.is_err() ==> r == Err::<
                bool,
                CpuError,
            >(cr.unwrap_err()) && *final(memory_bus) == stepped) && (cr.is_ok() ==> Machine::dots_run(
                DotState { timer: *old(timer), ppu: *old(ppu), bus: stepped, frame: old(framebuffer)@ },
                DotState { timer: *final(timer), ppu: *final(ppu), bus: *final(memory_bus), frame: final(framebuffer)@ },
                cr.unwrap() as int,
                r,
            )),
{
    let ghost before = *memory_bus;
    let ghost before_cpu = *cpu;
    let stepped = cpu.tick(memory_bus);
    let ghost after = *memory_bus;
    assert(tick_post(before_cpu, *cpu, before, after, stepped));
    let cycles = match stepped {
        Ok(c) => c,
        Err(e) => { return Err(e); },
    };
    let ghost start = DotState { timer: *timer, ppu: *ppu, bus: *memory_bus, frame: framebuffer@ };
    let ghost mut trace: Seq<DotState> = seq![start];
    let ghost mut results: Seq<(bool, bool)> = Seq::empty();
    let mut frame_completed = false;
    let mut i: u32 = 0;
    let mut halted = false;
    let mut budget: u32 = 0x10000;
    while (i < cycles as u32 || halted) && budget > 0
        invariant
            memory_bus.wf(),
            ppu.wf(),
            timer.wf(),
            framebuffer@.len() == FRAMEBUFFER_LEN,
            i == 0x10000 - budget,
            budget <= 0x10000,
            tick_post(before_cpu, *cpu, before, after, stepped),
            stepped == Ok::<u8, CpuError>(cycles),
            trace.len() == i + 1,
            results.len() == i,
            trace[0] == start,
            trace[i as int] == (DotState { timer: *timer, ppu: *ppu, bus: *memory_bus, frame: framebuffer@ }),
            forall|k: int|
                0 <= k < i ==> #[trigger] dot_post(
                    trace[k],
                    trace[k + 1],
                    k,
                    held_before(results, k),
                    results[k],
                ),
            forall|k: int| 0 <= k && cycles <= k + 1 < i ==> #[trigger] results[k].1,
            frame_completed == (exists|k: int| 0 <= k < i && #[trigger] results[k].0),
            halted == (i > 0 && results[i - 1].1),
        decreases budget,
    {
        let ghost cur = DotState { timer: *timer, ppu: *ppu, bus: *memory_bus, frame: framebuffer@ };
        let ghost was_halted = halted;
        assert(i < cycles as u32 || halted);
        let res = run_dot(memory_bus, ppu, timer, framebuffer, i, halted);
        assert(dot_post(cur, DotState { timer: *timer, ppu: *ppu, bus: *memory_bus, frame: framebuffer@ }, i as int, was_halted, res));
        proof {
            let old_trace = trace;
            let old_results = results;
            trace = trace.push(DotState { timer: *timer, ppu: *ppu, bus: *memory_bus, frame: framebuffer@ });
            results = results.push(res);
            assert(held_before(results, i as int) == was_halted);
            assert forall|k: int| 0 <= k < i + 1 implies #[trigger] dot_post(
                trace[k],
                trace[k + 1],
                k,
                held_before(results, k),
                results[k],
            ) by {
                if k < i {
                    assert(dot_post(old_trace[k], old_trace[k + 1], k, held_before(old_results, k), old_results[k]));
                    assert(trace[k] == old_trace[k]);
                    assert(trace[k + 1] == old_trace[k + 1]);
                    assert(results[k] == old_results[k]);
                    assert(held_before(results, k) == held_before(old_results, k));
                } else {
                    assert(trace[k] == cur);
                    assert(trace[k + 1] == (DotState { timer: *timer, ppu: *ppu, bus: *memory_bus, frame: framebuffer@ }));
                    assert(results[k] == res);
                }
            }
            if res.0 {
                assert(results[i as int].0);
            }
            assert((exists|k: int| 0 <= k < i + 1 && #[trigger] results[k].0) == ((exists|k: int| 0 <= k < i && #[trigger] old_results[k].0) || res.0)) by {
                if exists|k: int| 0 <= k < i && #[trigger] old_results[k].0 {
                    let k = choose|k: int| 0 <= k < i && #[trigger] old_results[k].0;
                    assert(results[k] == old_results[k]);
                }
                if exists|k: int| 0 <= k < i + 1 && #[trigger] results[k].0 {
                    let k = choose|k: int| 0 <= k < i + 1 && #[trigger] results[k].0;
                    if k < i {
                        assert(results[k] == old_results[k]);
                    }
                }
            }
            assert forall|k: int| 0 <= k && cycles <= k + 1 < i + 1 implies #[trigger] results[k].1 by {
                if k < i - 1 {
                    assert(results[k] == old_results[k]);
                }
            }
        }
        frame_completed = frame_completed || res.0;
        halted = res.1;
        i = i + 1;
        budget = budget - 1;
        assert(trace[i as int - 1 + 1] == trace[i as int]);
    }
    proof {
        assert(Machine::dots_run(start, DotState { timer: *timer, ppu: *ppu, bus: *memory_bus, frame: framebuffer@ }, cycles as int, Ok::<bool, CpuError>(frame_completed))) by {
            assert(Machine::trace_ok(trace, results, cycles as int));
        }
    }
    Ok(frame_completed)
}

/// Whether the dot before dot k reported a GDMA hold.
pub open spec fn held_before(results: Seq<(bool, bool)>, k: int) -> bool {
    if k == 0 { false } else { results[k - 1].1 }
}

/// The host loop's cycle accounting.
pub struct Machine {}

impl Machine {
    /// A run of dots after an instruction of `cycles` T-cycles: one dot per
    /// cycle, then more while the previous dot reported a GDMA hold (up to
    /// 65536 dots in all); `r` is `Ok(b)`, b telling whether a dot completed a frame.
    pub open spec fn trace_ok(trace: Seq<DotState>, results: Seq<(bool, bool)>, cycles: int) -> bool {
        let n = results.len() as int;
        &&& trace.len() == n + 1
        &&& forall|k: int|
            0 <= k < n ==> #[trigger] dot_post(trace[k], trace[k + 1], k, held_before(results, k), results[k])
        &&& forall|k: int| 0 <= k && cycles <= k + 1 < n ==> #[trigger] results[k].1
        &&& n <= 0x10000
        &&& n < 0x10000 ==> n >= cycles && (n > cycles ==> !results[n - 1].1)
    }

    pub open spec fn dots_run(s: DotState, e: DotState, cycles: int, r: Result<bool, CpuError>) -> bool {
        exists|trace: Seq<DotState>, results: Seq<(bool, bool)>|
            #[trigger] Machine::trace_ok(trace, results, cycles) && trace[0] == s && trace[results.len() as int] == e
                && r == Ok::<bool, CpuError>(exists|k: int| 0 <= k < results.len() && #[trigger] results[k].0)
    }
}

} // verus!
