use vstd::prelude::*;

verus! {

/// Display modes known to the bridge's C driver.
///
/// The driver passes a mode as a 32-bit code; [`edid_modes::code`] gives it.
#[allow(non_camel_case_types)]
#[derive(Debug, Copy, Clone, Hash, PartialEq, Eq)]
pub enum edid_modes {
    EDID_MODE_640x480_60Hz,
    EDID_MODE_720x480_60Hz,
    EDID_MODE_800x600_59Hz,
    EDID_MODE_1024x768_60Hz,
    EDID_MODE_1280x768_60Hz,
    EDID_MODE_1280x720_60Hz,
    EDID_MODE_1920x1080_60Hz,
    NUM_KNOWN_MODES,
    EDID_MODE_AUTO,
}

impl edid_modes {
    /// The code of the mode in the C driver's enumeration.
    pub open spec fn spec_code(self) -> u32 {
        match self {
            edid_modes::EDID_MODE_640x480_60Hz => 0,
            edid_modes::EDID_MODE_720x480_60Hz => 1,
            edid_modes::EDID_MODE_800x600_59Hz => 2,
            edid_modes::EDID_MODE_1024x768_60Hz => 3,
            edid_modes::EDID_MODE_1280x768_60Hz => 4,
            edid_modes::EDID_MODE_1280x720_60Hz => 5,
            edid_modes::EDID_MODE_1920x1080_60Hz => 6,
            edid_modes::NUM_KNOWN_MODES => 7,
            edid_modes::EDID_MODE_AUTO => 8,
        }
    }

    /// The 32-bit code under which the C driver knows this mode.
    pub fn code(&self) -> (r: u32)
        ensures
            r == self.spec_code(),
            *self == edid_modes::EDID_MODE_640x480_60Hz ==> r == 0,
            *self == edid_modes::EDID_MODE_720x480_60Hz ==> r == 1,
            *self == edid_modes::EDID_MODE_800x600_59Hz ==> r == 2,
            *self == edid_modes::EDID_MODE_1024x768_60Hz ==> r == 3,
            *self == edid_modes::EDID_MODE_1280x768_60Hz ==> r == 4,
            *self == edid_modes::EDID_MODE_1280x720_60Hz ==> r == 5,
            *self == edid_modes::EDID_MODE_1920x1080_60Hz ==> r == 6,
            *self == edid_modes::NUM_KNOWN_MODES ==> r == 7,
            *self == edid_modes::EDID_MODE_AUTO ==> r == 8,
    {
        match self {
            edid_modes::EDID_MODE_640x480_60Hz => 0,
            edid_modes::EDID_MODE_720x480_60Hz => 1,
            edid_modes::EDID_MODE_800x600_59Hz => 2,
            edid_modes::EDID_MODE_1024x768_60Hz => 3,
            edid_modes::EDID_MODE_1280x768_60Hz => 4,
            edid_modes::EDID_MODE_1280x720_60Hz => 5,
            edid_modes::EDID_MODE_1920x1080_60Hz => 6,
            edid_modes::NUM_KNOWN_MODES => 7,
            edid_modes::EDID_MODE_AUTO => 8,
        }
    }
}

/// Distinct modes have distinct codes.
pub proof fn lemma_mode_code_injective(a: edid_modes, b: edid_modes)
    ensures
        a.spec_code() == b.spec_code() ==> a == b,
{
}

/// Timing of one display mode, as the C driver fills it in.
///
/// `name` holds the address of the mode's name string inside the driver's
/// mode table (0 where there is none).
#[allow(non_camel_case_types)]
#[derive(Debug, Copy, Clone)]
pub struct edid_mode {
    pub name: usize,
    pub pixel_clock: u32,
    pub lvds_dual_channel: i32,
    pub refresh: u32,
    pub ha: u32,
    pub hbl: u32,
    pub hso: u32,
    pub hspw: u32,
    pub hborder: u32,
    pub va: u32,
    pub vbl: u32,
    pub vso: u32,
    pub vspw: u32,
    pub vborder: u32,
    pub voffset: u32,
    pub phsync: u8,
    pub pvsync: u8,
    pub x_mm: u32,
    pub y_mm: u32,
}

/// What the C driver reads out of the monitor's EDID.
#[allow(non_camel_case_types)]
#[derive(Debug, Copy, Clone)]
pub struct edid {
    pub framebuffer_bits_per_pixel: u32,
    pub panel_bits_per_color: u32,
    pub panel_bits_per_pixel: u32,
    pub mode: edid_mode,
    pub mode_is_supported: [u8; 7],
    pub link_clock: u32,
    pub x_resolution: u32,
    pub y_resolution: u32,
    pub bytes_per_line: u32,
    pub hdmi_monitor_detected: i32,
    pub ascii_string: [i8; 14],
    pub manufacturer_name: [i8; 4],
}

impl edid_mode {
    /// Every field is zero.
    pub open spec fn is_zeroed(self) -> bool {
        &&& self.name == 0
        &&& self.pixel_clock == 0
        &&& self.lvds_dual_channel == 0
        &&& self.refresh == 0
        &&& self.ha == 0
        &&& self.hbl == 0
        &&& self.hso == 0
        &&& self.hspw == 0
        &&& self.hborder == 0
        &&& self.va == 0
        &&& self.vbl == 0
        &&& self.vso == 0
        &&& self.vspw == 0
        &&& self.vborder == 0
        &&& self.voffset == 0
        &&& self.phsync == 0
        &&& self.pvsync == 0
        &&& self.x_mm == 0
        &&& self.y_mm == 0
    }

    /// A mode record with every field zero.
    pub fn zeroed() -> (r: Self)
        ensures
            r.is_zeroed(),
            r.name == 0,
            r.pixel_clock == 0,
            r.lvds_dual_channel == 0,
            r.refresh == 0,
            r.ha == 0,
            r.hbl == 0,
            r.hso == 0,
            r.hspw == 0,
            r.hborder == 0,
            r.va == 0,
            r.vbl == 0,
            r.vso == 0,
            r.vspw == 0,
            r.vborder == 0,
            r.voffset == 0,
            r.phsync == 0,
            r.pvsync == 0,
            r.x_mm == 0,
            r.y_mm == 0,
    {
        edid_mode {
            name: 0,
            pixel_clock: 0,
            lvds_dual_channel: 0,
            refresh: 0,
            ha: 0,
            hbl: 0,
            hso: 0,
            hspw: 0,
            hborder: 0,
            va: 0,
            vbl: 0,
            vso: 0,
            vspw: 0,
            vborder: 0,
            voffset: 0,
            phsync: 0,
            pvsync: 0,
            x_mm: 0,
            y_mm: 0,
        }
    }
}

impl edid {
    /// Every field, and every byte of every array, is zero.
    pub open spec fn is_zeroed(self) -> bool {
        &&& self.framebuffer_bits_per_pixel == 0
        &&& self.panel_bits_per_color == 0
        &&& self.panel_bits_per_pixel == 0
        &&& self.mode.is_zeroed()
        &&& forall|i: int| 0 <= i < 7 ==> #[trigger] self.mode_is_supported@[i] == 0
        &&& self.link_clock == 0
        &&& self.x_resolution == 0
        &&& self.y_resolution == 0
        &&& self.bytes_per_line == 0
        &&& self.hdmi_monitor_detected == 0
        &&& forall|i: int| 0 <= i < 14 ==> #[trigger] self.ascii_string@[i] == 0
        &&& forall|i: int| 0 <= i < 4 ==> #[trigger] self.manufacturer_name@[i] == 0
    }

    /// An EDID record with every byte zero: what the driver is handed to
    /// fill in.
    pub fn zeroed() -> (r: Self)
        ensures
            r.is_zeroed(),
            r.framebuffer_bits_per_pixel == 0,
            r.panel_bits_per_color == 0,
            r.panel_bits_per_pixel == 0,
            r.link_clock == 0,
            r.x_resolution == 0,
            r.y_resolution == 0,
            r.bytes_per_line == 0,
            r.hdmi_monitor_detected == 0,
            r.mode.name == 0,
            r.mode.pixel_clock == 0,
            r.mode.lvds_dual_channel == 0,
            r.mode.refresh == 0,
            r.mode.ha == 0,
            r.mode.hbl == 0,
            r.mode.hso == 0,
            r.mode.hspw == 0,
            r.mode.hborder == 0,
            r.mode.va == 0,
            r.mode.vbl == 0,
            r.mode.vso == 0,
            r.mode.vspw == 0,
            r.mode.vborder == 0,
            r.mode.voffset == 0,
            r.mode.phsync == 0,
            r.mode.pvsync == 0,
            r.mode.x_mm == 0,
            r.mode.y_mm == 0,
            forall|i: int| 0 <= i < 7 ==> r.mode_is_supported@[i] == 0,
            forall|i: int| 0 <= i < 14 ==> r.ascii_string@[i] == 0,
            forall|i: int| 0 <= i < 4 ==> r.manufacturer_name@[i] == 0,
    {
        edid {
            framebuffer_bits_per_pixel: 0,
            panel_bits_per_color: 0,
            panel_bits_per_pixel: 0,
            mode: edid_mode::zeroed(),
            mode_is_supported: [0u8; 7],
            link_clock: 0,
            x_resolution: 0,
            y_resolution: 0,
            bytes_per_line: 0,
            hdmi_monitor_detected: 0,
            ascii_string: [0i8; 14],
            manufacturer_name: [0i8; 4],
        }
    }
}

/// A zeroed mode record is the record whose every field is zero: no field
/// is left out of `is_zeroed`.
pub proof fn lemma_zeroed_mode_fields(m: edid_mode)
    requires
        m.is_zeroed(),
    ensures
        m.name == 0,
        m.pixel_clock == 0,
        m.lvds_dual_channel == 0,
        m.refresh == 0,
        m.ha == 0,
        m.hbl == 0,
        m.hso == 0,
        m.hspw == 0,
        m.hborder == 0,
        m.va == 0,
        m.vbl == 0,
        m.vso == 0,
        m.vspw == 0,
        m.vborder == 0,
        m.voffset == 0,
        m.phsync == 0,
        m.pvsync == 0,
        m.x_mm == 0,
        m.y_mm == 0,
{
}

/// A zeroed EDID record has every field and every array byte zero, its
/// mode record included.
pub proof fn lemma_zeroed_edid_fields(e: edid)
    requires
        e.is_zeroed(),
    ensures
        e.framebuffer_bits_per_pixel == 0,
        e.panel_bits_per_color == 0,
        e.panel_bits_per_pixel == 0,
        e.link_clock == 0,
        e.x_resolution == 0,
        e.y_resolution == 0,
        e.bytes_per_line == 0,
        e.hdmi_monitor_detected == 0,
        e.mode.name == 0,
        e.mode.pixel_clock == 0,
        e.mode.lvds_dual_channel == 0,
        e.mode.refresh == 0,
        e.mode.ha == 0,
        e.mode.hbl == 0,
        e.mode.hso == 0,
        e.mode.hspw == 0,
        e.mode.hborder == 0,
        e.mode.va == 0,
        e.mode.vbl == 0,
        e.mode.vso == 0,
        e.mode.vspw == 0,
        e.mode.vborder == 0,
        e.mode.voffset == 0,
        e.mode.phsync == 0,
        e.mode.pvsync == 0,
        e.mode.x_mm == 0,
        e.mode.y_mm == 0,
        forall|i: int| 0 <= i < 7 ==> e.mode_is_supported@[i] == 0,
        forall|i: int| 0 <= i < 14 ==> e.ascii_string@[i] == 0,
        forall|i: int| 0 <= i < 4 ==> e.manufacturer_name@[i] == 0,
{
}

} // verus!
