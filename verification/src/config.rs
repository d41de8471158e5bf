//! Color settings: the customizable RGB colors of every UI element.

use vstd::prelude::*;

verus! {

/// Color settings for the application UI, as plain RGB byte triples.
#[derive(Debug, Clone, PartialEq)]
pub struct ColorSettings {
    /// Color for the pressed button state.
    pub button_pressed: [u8; 3],
    /// Color for the held button state.
    pub button_held: [u8; 3],
    /// Color for the released button state.
    pub button_released: [u8; 3],
    /// Default color for 1D axis inputs.
    pub axis1d: [u8; 3],
    /// Default color for 2D axis inputs.
    pub axis2d: [u8; 3],
    /// Current frame indicator color.
    pub current_frame: [u8; 3],
    /// Selection highlight color.
    pub selection: [u8; 3],
    /// Bookmark marker color.
    pub bookmark: [u8; 3],
    /// Current search match highlight color.
    pub search_current: [u8; 3],
    /// Other search matches highlight color.
    pub search_other: [u8; 3],
    /// Main timeline background color.
    pub background: [u8; 3],
    /// Header background color.
    pub header_background: [u8; 3],
    /// Label column background color.
    pub label_background: [u8; 3],
    /// Grid line color.
    pub grid: [u8; 3],
    /// Axis center line color.
    pub axis_center: [u8; 3],
    /// Scrollbar track color.
    pub scrollbar_track: [u8; 3],
    /// Scrollbar thumb color.
    pub scrollbar_thumb: [u8; 3],
    /// Scrollbar thumb border color.
    pub scrollbar_border: [u8; 3],
    /// Header text color.
    pub text_header: [u8; 3],
    /// Label text color.
    pub text_label: [u8; 3],
    /// Placeholder and inactive text color.
    pub text_dim: [u8; 3],
    /// Success status color.
    pub status_success: [u8; 3],
    /// Error status color.
    pub status_error: [u8; 3],
    /// Auto-scroll enabled indicator color.
    pub auto_scroll_enabled: [u8; 3],
    /// Loop selection enabled indicator color.
    pub loop_enabled: [u8; 3],
}

impl Default for ColorSettings {
    /// The default palette.
    fn default() -> (r: Self)
        ensures
            r.button_pressed@ == seq![76u8, 175u8, 80u8],
            r.button_held@ == seq![211u8, 211u8, 211u8],
            r.button_released@ == seq![244u8, 67u8, 54u8],
            r.bookmark@ == seq![255u8, 215u8, 0u8],
            r.selection@ == seq![150u8, 80u8, 200u8],
            r.current_frame@ == seq![255u8, 200u8, 100u8],
            r.search_current@ == seq![100u8, 200u8, 255u8],
            r.status_success@ == seq![76u8, 175u8, 80u8],
            r.status_error@ == seq![244u8, 67u8, 54u8],
    {
        ColorSettings {
            button_pressed: [76, 175, 80],
            button_held: [211, 211, 211],
            button_released: [244, 67, 54],
            axis1d: [100, 150, 200],
            axis2d: [150, 100, 200],
            current_frame: [255, 200, 100],
            selection: [150, 80, 200],
            bookmark: [255, 215, 0],
            search_current: [100, 200, 255],
            search_other: [255, 255, 100],
            background: [30, 30, 35],
            header_background: [40, 40, 45],
            label_background: [35, 35, 40],
            grid: [50, 50, 55],
            axis_center: [60, 60, 65],
            scrollbar_track: [40, 40, 45],
            scrollbar_thumb: [80, 80, 90],
            scrollbar_border: [100, 100, 110],
            text_header: [128, 128, 128],
            text_label: [211, 211, 211],
            text_dim: [105, 105, 105],
            status_success: [76, 175, 80],
            status_error: [244, 67, 54],
            auto_scroll_enabled: [100, 200, 100],
            loop_enabled: [180, 100, 220],
        }
    }
}

} // verus!
