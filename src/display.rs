//! Display modes, orientation and the index-based enumeration of adapters and
//! outputs.

use vstd::prelude::*;

verus! {

/// Native monitor handle (the platform's `HMONITOR` value). A display is
/// identified by it.
pub type MonitorHandle = isize;

/// Device-mode orientation code: natural orientation.
pub const DMDO_DEFAULT: u32 = 0;

/// Device-mode orientation code: rotated by 90 degrees.
pub const DMDO_90: u32 = 1;

/// Device-mode orientation code: rotated by 180 degrees.
pub const DMDO_180: u32 = 2;

/// Device-mode orientation code: rotated by 270 degrees.
pub const DMDO_270: u32 = 3;

#[derive(Clone, Copy, Debug, Default, PartialEq, Eq, Structural)]
pub enum DisplayOrientation {
    #[default]
    Landscape,
    Portrait,
    FlippedLandscape,
    FlippedPortrait,
}

/// The orientation a device-mode code stands for; unknown codes read as landscape.
pub open spec fn orientation_of_code(code: u32) -> DisplayOrientation {
    if code == DMDO_90 {
        DisplayOrientation::Portrait
    } else if code == DMDO_180 {
        DisplayOrientation::FlippedLandscape
    } else if code == DMDO_270 {
        DisplayOrientation::FlippedPortrait
    } else {
        DisplayOrientation::Landscape
    }
}

/// The device-mode code of an orientation.
pub open spec fn code_of_orientation(o: DisplayOrientation) -> u32 {
    match o {
        DisplayOrientation::Landscape => DMDO_DEFAULT,
        DisplayOrientation::Portrait => DMDO_90,
        DisplayOrientation::FlippedLandscape => DMDO_180,
        DisplayOrientation::FlippedPortrait => DMDO_270,
    }
}

impl DisplayOrientation {
    /// Whether the output is turned on its side, so that its width and height
    /// trade places.
    pub open spec fn is_portrait(self) -> bool {
        self is Portrait || self is FlippedPortrait
    }

    pub fn from_devmode_code(code: u32) -> (r: DisplayOrientation)
        ensures
            r == orientation_of_code(code),
    {
        if code == DMDO_90 {
            DisplayOrientation::Portrait
        } else if code == DMDO_180 {
            DisplayOrientation::FlippedLandscape
        } else if code == DMDO_270 {
            DisplayOrientation::FlippedPortrait
        } else {
            DisplayOrientation::Landscape
        }
    }

    pub fn to_devmode_code(self) -> (r: u32)
        ensures
            r == code_of_orientation(self),
            orientation_of_code(r) == self,
    {
        match self {
            DisplayOrientation::Landscape => DMDO_DEFAULT,
            DisplayOrientation::Portrait => DMDO_90,
            DisplayOrientation::FlippedLandscape => DMDO_180,
            DisplayOrientation::FlippedPortrait => DMDO_270,
        }
    }
}

/// A display mode. `width` and `height` are the physical size before
/// rotation; the refresh rate is `refresh_num / refresh_den` hertz.
#[derive(Clone, Copy, Debug, Default, PartialEq, Eq, Structural)]
pub struct DisplayMode {
    pub width: u32,
    pub height: u32,
    pub orientation: DisplayOrientation,
    pub refresh_num: u32,
    pub refresh_den: u32,
    pub hdr: bool,
}

/// The fields of a platform device-mode record that a mode change writes and
/// a mode query reads: pixel size as scanned out (after rotation), colour
/// depth, integral refresh rate and orientation code.
#[derive(Clone, Copy, Debug, PartialEq, Eq, Structural)]
pub struct DeviceSettings {
    pub pels_width: u32,
    pub pels_height: u32,
    pub bits_per_pel: u32,
    pub frequency: u32,
    pub orientation: u32,
}

/// Bits per pixel of a standard-dynamic-range mode.
pub const SDR_BITS_PER_PEL: u32 = 32;

/// Bits per pixel of a high-dynamic-range mode.
pub const HDR_BITS_PER_PEL: u32 = 64;

impl DisplayMode {
    /// The size of the content as seen on screen: width and height swapped
    /// for the portrait orientations.
    pub open spec fn flipped_size(self) -> (u32, u32) {
        if self.orientation.is_portrait() {
            (self.height, self.width)
        } else {
            (self.width, self.height)
        }
    }

    pub fn get_flipped_size(self) -> (r: (u32, u32))
        ensures
            r == self.flipped_size(),
            self.orientation.is_portrait() ==> r == (self.height, self.width),
            !self.orientation.is_portrait() ==> r == (self.width, self.height),
    {
        match self.orientation {
            DisplayOrientation::Landscape | DisplayOrientation::FlippedLandscape => (
                self.width,
                self.height,
            ),
            DisplayOrientation::FlippedPortrait | DisplayOrientation::Portrait => (
                self.height,
                self.width,
            ),
        }
    }

    /// The mode that a device-mode query describes. The query reports the
    /// size as scanned out, so portrait modes swap it back.
    pub open spec fn from_settings_spec(s: DeviceSettings) -> DisplayMode {
        let orientation = orientation_of_code(s.orientation);
        DisplayMode {
            width: if orientation.is_portrait() { s.pels_height } else { s.pels_width },
            height: if orientation.is_portrait() { s.pels_width } else { s.pels_height },
            orientation,
            refresh_num: s.frequency,
            refresh_den: 1,
            hdr: s.bits_per_pel != SDR_BITS_PER_PEL,
        }
    }

    /// The device-mode fields that select this mode.
    pub open spec fn to_settings_spec(self) -> DeviceSettings {
        DeviceSettings {
            pels_width: if self.orientation.is_portrait() { self.height } else { self.width },
            pels_height: if self.orientation.is_portrait() { self.width } else { self.height },
            bits_per_pel: if self.hdr { HDR_BITS_PER_PEL } else { SDR_BITS_PER_PEL },
            frequency: (self.refresh_num / self.refresh_den) as u32,
            orientation: code_of_orientation(self.orientation),
        }
    }

    pub fn from_device_settings(s: DeviceSettings) -> (r: DisplayMode)
        ensures
            r == Self::from_settings_spec(s),
    {
        let orientation = DisplayOrientation::from_devmode_code(s.orientation);
        let portrait = match orientation {
            DisplayOrientation::Portrait | DisplayOrientation::FlippedPortrait => true,
            _ => false,
        };
        DisplayMode {
            width: if portrait { s.pels_height } else { s.pels_width },
            height: if portrait { s.pels_width } else { s.pels_height },
            orientation,
            refresh_num: s.frequency,
            refresh_den: 1,
            hdr: s.bits_per_pel != SDR_BITS_PER_PEL,
        }
    }

    pub fn to_device_settings(self) -> (r: DeviceSettings)
        requires
            self.refresh_den != 0,
        ensures
            r == self.to_settings_spec(),
    {
        let portrait = match self.orientation {
            DisplayOrientation::Portrait | DisplayOrientation::FlippedPortrait => true,
            _ => false,
        };
        DeviceSettings {
            pels_width: if portrait { self.height } else { self.width },
            pels_height: if portrait { self.width } else { self.height },
            bits_per_pel: if self.hdr { HDR_BITS_PER_PEL } else { SDR_BITS_PER_PEL },
            frequency: self.refresh_num / self.refresh_den,
            orientation: self.orientation.to_devmode_code(),
        }
    }
}

/// Writing a mode with an integral refresh rate and reading it back gives
/// the same mode.
pub proof fn lemma_settings_round_trip(m: DisplayMode)
    requires
        m.refresh_den == 1,
    ensures
        DisplayMode::from_settings_spec(m.to_settings_spec()) == m,
{
}

/// Width and height trade places exactly for the two portrait orientations.
pub proof fn lemma_flipped_size_swaps_iff_portrait(m: DisplayMode)
    ensures
        m.orientation.is_portrait() <==> (m.orientation == DisplayOrientation::Portrait
            || m.orientation == DisplayOrientation::FlippedPortrait),
        m.orientation.is_portrait() ==> m.flipped_size() == (m.height, m.width),
        !m.orientation.is_portrait() ==> m.flipped_size() == (m.width, m.height),
{
}

/// Position of a restartable, index-based enumeration (of adapters, or of the
/// outputs of one adapter). A lookup that finds nothing sends it back to the
/// start, so that walking on cycles through the list again.
#[derive(Clone, Copy, Debug, PartialEq, Eq, Structural)]
pub struct EnumerationCursor {
    pub idx: u32,
}

impl EnumerationCursor {
    pub fn new() -> (r: EnumerationCursor)
        ensures
            r.idx == 0,
    {
        EnumerationCursor { idx: 0 }
    }

    /// The index to look up next.
    pub fn index(&self) -> (r: u32)
        ensures
            r == self.idx,
    {
        self.idx
    }

    /// Records whether the lookup at the current index found an item: on to
    /// the next index if it did (wrapping past the largest index), back to
    /// the start if it did not.
    pub fn advance(&mut self, found: bool)
        ensures
            found && old(self).idx < u32::MAX ==> final(self).idx == old(self).idx + 1,
            !found || old(self).idx == u32::MAX ==> final(self).idx == 0,
    {
        if found && self.idx < u32::MAX {
            self.idx = self.idx + 1;
        } else {
            self.idx = 0;
        }
    }

    /// Back to the start of the enumeration.
    pub fn reset(&mut self)
        ensures
            final(self).idx == 0,
    {
        self.idx = 0;
    }
}

/// The position of the first output whose monitor handle is `target`, or
/// `None` when no output currently matches.
pub fn find_display(handles: &Vec<MonitorHandle>, target: MonitorHandle) -> (r: Option<usize>)
    ensures
        match r {
            Some(i) => i < handles@.len() && handles@[i as int] == target && forall|j: int|
                0 <= j < i ==> handles@[j] != target,
            None => forall|j: int| 0 <= j < handles@.len() ==> handles@[j] != target,
        },
{
    let mut i: usize = 0;
    while i < handles.len()
        invariant
            i <= handles@.len(),
            forall|j: int| 0 <= j < i ==> handles@[j] != target,
        decreases handles@.len() - i,
    {
        if handles[i] == target {
            return Some(i);
        }
        i = i + 1;
    }
    None
}

} // verus!
