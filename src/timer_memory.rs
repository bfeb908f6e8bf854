use vstd::prelude::*;

verus! {

/// The TIMA clock rate: how many T-cycles make one TIMA increment.
#[derive(Debug, Clone, Copy, PartialEq, Eq, Structural)]
pub enum CPUFreqDivider {
    Ratio0x10,
    Ratio0x40,
    Ratio0x100,
    Ratio0x400,
}

/// T-cycles per TIMA increment for a divider.
pub open spec fn divider_period(d: CPUFreqDivider) -> nat {
    match d {
        CPUFreqDivider::Ratio0x10 => 0x10,
        CPUFreqDivider::Ratio0x40 => 0x40,
        CPUFreqDivider::Ratio0x100 => 0x100,
        CPUFreqDivider::Ratio0x400 => 0x400,
    }
}

/// The divider selected by the low two bits of TAC.
pub open spec fn divider_of_tac(tac: u8) -> CPUFreqDivider {
    if tac % 4 == 0 {
        CPUFreqDivider::Ratio0x400
    } else if tac % 4 == 1 {
        CPUFreqDivider::Ratio0x10
    } else if tac % 4 == 2 {
        CPUFreqDivider::Ratio0x40
    } else {
        CPUFreqDivider::Ratio0x100
    }
}

/// The timer registers DIV (FF04), TIMA (FF05), TMA (FF06) and TAC (FF07).
pub struct TimerMemory {
    pub div_reg: u8,
    pub tima_reg: u8,
    pub tim_reg: u8,
    pub tac_reg: u8,
    pub timer_enabled: bool,
    pub timer_freq_div: CPUFreqDivider,
}

impl TimerMemory {
    /// TAC's decoded fields agree with TAC.
    pub open spec fn wf(&self) -> bool {
        &&& self.timer_enabled == ((self.tac_reg / 4) % 2 == 1)
        &&& self.timer_freq_div == divider_of_tac(self.tac_reg)
    }

    pub open spec fn read_spec(&self, address: usize) -> u8 {
        if address == 0xFF04 {
            self.div_reg
        } else if address == 0xFF05 {
            self.tima_reg
        } else if address == 0xFF06 {
            self.tim_reg
        } else {
            self.tac_reg
        }
    }

    pub fn new() -> (r: TimerMemory)
        ensures
            r.wf(),
            r.div_reg == 0 && r.tima_reg == 0 && r.tim_reg == 0 && r.tac_reg == 0,
            !r.timer_enabled,
    {
        TimerMemory {
            div_reg: 0x00,
            tima_reg: 0x00,
            tim_reg: 0x00,
            tac_reg: 0x00,
            timer_enabled: false,
            timer_freq_div: CPUFreqDivider::Ratio0x400,
        }
    }

    /// Reads FF04..FF07; any other address reads TAC.
    pub fn read(&self, address: usize) -> (r: u8)
        ensures
            r == self.read_spec(address),
    {
        if address == 0xFF04 {
            self.div_reg
        } else if address == 0xFF05 {
            self.tima_reg
        } else if address == 0xFF06 {
            self.tim_reg
        } else {
            self.tac_reg
        }
    }

    /// Writes FF04..FF07: writing DIV resets it to zero; any other address writes TAC.
    pub fn write(&mut self, address: usize, data: u8)
        requires
            old(self).wf(),
        ensures
            final(self).wf(),
            address == 0xFF04 ==> *final(self) == (TimerMemory { div_reg: 0, ..*old(self) }),
            address == 0xFF05 ==> *final(self) == (TimerMemory { tima_reg: data, ..*old(self) }),
            address == 0xFF06 ==> *final(self) == (TimerMemory { tim_reg: data, ..*old(self) }),
            address != 0xFF04 && address != 0xFF05 && address != 0xFF06 ==> {
                &&& final(self).tac_reg == data
                &&& final(self).div_reg == old(self).div_reg
                &&& final(self).tima_reg == old(self).tima_reg
                &&& final(self).tim_reg == old(self).tim_reg
            },
    {
        if address == 0xFF04 {
            self.div_reg = 0x00;
        } else if address == 0xFF05 {
            self.tima_reg = data;
        } else if address == 0xFF06 {
            self.tim_reg = data;
        } else {
            self.tac_reg = data;
            self.timer_enabled = (data / 4) % 2 == 1;
            self.timer_freq_div = if data % 4 == 0 {
                CPUFreqDivider::Ratio0x400
            } else if data % 4 == 1 {
                CPUFreqDivider::Ratio0x10
            } else if data % 4 == 2 {
                CPUFreqDivider::Ratio0x40
            } else {
                CPUFreqDivider::Ratio0x100
            };
        }
    }
}

} // verus!
