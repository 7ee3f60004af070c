//! The chip models a system can be built with.

use vstd::prelude::*;
use crate::text::str_eq;

verus! {

/// The SID sound chip revision.
#[derive(Clone, Copy, PartialEq, Eq, Structural)]
pub enum SidModel {
    Mos6581,
    Mos8580,
}

/// The VIC video chip revision.
#[derive(Clone, Copy, PartialEq, Eq, Structural)]
pub enum VicModel {
    /// NTSC
    Mos6567,
    /// PAL
    Mos6569,
}


/// The timing and sizes of a machine model. The refresh rate is held in
/// thousandths of a hertz (50.125 Hz is 50125).
pub struct SystemModel {
    pub color_ram: usize,
    pub cpu_freq: u32,
    pub cycles_per_frame: u16,
    pub frame_buffer_size: (usize, usize),
    pub memory_size: usize,
    pub refresh_rate_millihertz: u32,
    pub sid_model: SidModel,
    pub vic_model: VicModel,
}

/// The NTSC C64: 1022727 Hz, 17095 cycles and 59.826 frames a second.
pub open spec fn ntsc_model(m: SystemModel) -> bool {
    &&& m.color_ram == 1024
    &&& m.cpu_freq == 1_022_727
    &&& m.cycles_per_frame == 17095
    &&& m.frame_buffer_size == (403usize, 250usize)
    &&& m.memory_size == 65536
    &&& m.refresh_rate_millihertz == 59826
    &&& m.sid_model == SidModel::Mos6581
    &&& m.vic_model == VicModel::Mos6567
}

/// The PAL C64: 985248 Hz, 19656 cycles and 50.125 frames a second.
pub open spec fn pal_model(m: SystemModel) -> bool {
    &&& m.color_ram == 1024
    &&& m.cpu_freq == 985_248
    &&& m.cycles_per_frame == 19656
    &&& m.frame_buffer_size == (403usize, 284usize)
    &&& m.memory_size == 65536
    &&& m.refresh_rate_millihertz == 50125
    &&& m.sid_model == SidModel::Mos6581
    &&& m.vic_model == VicModel::Mos6569
}

/// Whether a name selects the NTSC model ("ntsc" or "c64-ntsc").
pub open spec fn names_ntsc(name: Seq<char>) -> bool {
    name == "ntsc"@ || name == "c64-ntsc"@
}

/// Whether a name selects the PAL model ("pal" or "c64-pal").
pub open spec fn names_pal(name: Seq<char>) -> bool {
    name == "pal"@ || name == "c64-pal"@
}

impl SystemModel {
    /// The model a name selects: "ntsc", "pal", "c64-ntsc" or "c64-pal".
    pub fn from(model: &str) -> (r: SystemModel)
        requires
            names_ntsc(model@) || names_pal(model@),
        ensures
            names_ntsc(model@) ==> ntsc_model(r),
            names_pal(model@) ==> pal_model(r),
    {
        proof {
            reveal_strlit("ntsc");
            reveal_strlit("c64-ntsc");
            reveal_strlit("pal");
            reveal_strlit("c64-pal");
            assert("ntsc"@.len() == 4 && "pal"@.len() == 3);
            assert("c64-ntsc"@.len() == 8 && "c64-pal"@.len() == 7);
            assert(!(names_ntsc(model@) && names_pal(model@)));
        }
        if str_eq(model, "ntsc") || str_eq(model, "c64-ntsc") {
            SystemModel::c64_ntsc()
        } else {
            SystemModel::c64_pal()
        }
    }

    /// The NTSC C64.
    pub fn c64_ntsc() -> (r: SystemModel)
        ensures
            ntsc_model(r),
    {
        SystemModel {
            color_ram: 1024,
            cpu_freq: 1_022_727,
            cycles_per_frame: 17095,
            frame_buffer_size: (403, 250),
            memory_size: 65536,
            refresh_rate_millihertz: 59826,
            sid_model: SidModel::Mos6581,
            vic_model: VicModel::Mos6567,
        }
    }

    /// The PAL C64.
    pub fn c64_pal() -> (r: SystemModel)
        ensures
            pal_model(r),
    {
        SystemModel {
            color_ram: 1024,
            cpu_freq: 985_248,
            cycles_per_frame: 19656,
            frame_buffer_size: (403, 284),
            memory_size: 65536,
            refresh_rate_millihertz: 50125,
            sid_model: SidModel::Mos6581,
            vic_model: VicModel::Mos6569,
        }
    }
}

} // verus!
