//! How large the window of the guest is on a Windows host, and how large
//! the display that the guest sees.

use vstd::prelude::*;
use core::marker::PhantomData;

verus! {

/// The widest display that the guest gets.
pub const DISPLAY_WIDTH_SOFT_MAX: u32 = 1920;

/// The highest display that the guest gets.
pub const DISPLAY_HEIGHT_SOFT_MAX: u32 = 1080;

/// The widest display that the guest gets where 4K is switched on.
pub const DISPLAY_WIDTH_SOFT_MAX_4K_UHD_ENABLED: u32 = 3840;

/// The highest display that the guest gets where 4K is switched on.
pub const DISPLAY_HEIGHT_SOFT_MAX_4K_UHD_ENABLED: u32 = 2160;

/// Tells how large the display of the host is.
pub trait ProvideDisplayData {
    /// Width and height of the display of the host.
    fn get_host_display_size() -> (u32, u32);
}

/// Asks the host itself for the size of its display.
#[derive(Clone, Copy, Debug, PartialEq, Eq)]
pub struct DisplayDataProvider;

/// How the window of the guest is shown.
#[derive(Debug)]
pub enum WinDisplayMode<T> {
    /// In a window of this width and height.
    Windowed(u32, u32),
    /// Over the whole display of the host, without a border.
    BorderlessFullScreen(PhantomData<T>),
}

/// The smaller of `a` and `b`.
pub open spec fn spec_min(a: u32, b: u32) -> u32 {
    if a <= b {
        a
    } else {
        b
    }
}

/// The size of the display that a guest sees in a window of `width` by
/// `height`: no larger than the limits, which are higher with 4K, and with a
/// width that is a multiple of 8.
pub open spec fn spec_adjust_virtual_display_size(width: u32, height: u32, is_4k_uhd_enabled: bool) -> (
    u32,
    u32,
) {
    let max_width = if is_4k_uhd_enabled {
        DISPLAY_WIDTH_SOFT_MAX_4K_UHD_ENABLED
    } else {
        DISPLAY_WIDTH_SOFT_MAX
    };
    let max_height = if is_4k_uhd_enabled {
        DISPLAY_HEIGHT_SOFT_MAX_4K_UHD_ENABLED
    } else {
        DISPLAY_HEIGHT_SOFT_MAX
    };
    let width = spec_min(width, max_width);
    ((width - width % 8) as u32, spec_min(height, max_height))
}

/// The size of the display that a guest sees in a window of `width` by
/// `height`.
pub fn adjust_virtual_display_size(width: u32, height: u32, is_4k_uhd_enabled: bool) -> (size: (
    u32,
    u32,
))
    ensures
        size == spec_adjust_virtual_display_size(width, height, is_4k_uhd_enabled),
        size.0 % 8 == 0,
        size.0 <= width,
        size.1 <= height,
{
    let (max_width, max_height) = if is_4k_uhd_enabled {
        (DISPLAY_WIDTH_SOFT_MAX_4K_UHD_ENABLED, DISPLAY_HEIGHT_SOFT_MAX_4K_UHD_ENABLED)
    } else {
        (DISPLAY_WIDTH_SOFT_MAX, DISPLAY_HEIGHT_SOFT_MAX)
    };
    let width = if width <= max_width {
        width
    } else {
        max_width
    };
    let height = if height <= max_height {
        height
    } else {
        max_height
    };
    // A width that is no multiple of 8 breaks the rendering of the guest.
    let width = width - (width % 8);
    (width, height)
}

impl<T: ProvideDisplayData> WinDisplayMode<T> {
    /// The size of the window: the one that was asked for, or the size of
    /// the display of the host.
    pub fn get_window_size(&self) -> (size: (u32, u32))
        ensures
            *self matches WinDisplayMode::Windowed(width, height) ==> size == (width, height),
    {
        match self {
            WinDisplayMode::Windowed(width, height) => (*width, *height),
            WinDisplayMode::BorderlessFullScreen(_) => T::get_host_display_size(),
        }
    }

    /// The size of the display that the guest sees.
    pub fn get_virtual_display_size_4k_uhd(&self, is_4k_uhd_enabled: bool) -> (size: (u32, u32))
        ensures
            size.0 % 8 == 0,
            size.0 <= if is_4k_uhd_enabled {
                DISPLAY_WIDTH_SOFT_MAX_4K_UHD_ENABLED
            } else {
                DISPLAY_WIDTH_SOFT_MAX
            },
            size.1 <= if is_4k_uhd_enabled {
                DISPLAY_HEIGHT_SOFT_MAX_4K_UHD_ENABLED
            } else {
                DISPLAY_HEIGHT_SOFT_MAX
            },
            *self matches WinDisplayMode::Windowed(width, height) ==> size
                == spec_adjust_virtual_display_size(width, height, is_4k_uhd_enabled),
    {
        let (width, height) = self.get_window_size();
        adjust_virtual_display_size(width, height, is_4k_uhd_enabled)
    }
}

} // verus!
