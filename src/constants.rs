//! Fixed numbers of the keypad: USB identity, endpoints, and the sizes of the
//! key report and the LCD framebuffer.

use vstd::prelude::*;

verus! {

/// Control request type for the LED mode: class request, host to interface.
pub const G13_LED_MODE_ENDPOINT: u8 = 0x21;

/// Control request type for the backlight colour; the same as for the mode.
pub const G13_LED_ENDPOINT: u8 = G13_LED_MODE_ENDPOINT;

pub const G13_KEY_INTERFACE: u8 = 1;

pub const G13_LCD_INTERFACE: u8 = 2;

/// Interrupt IN endpoint that delivers key reports.
pub const G13_KEYS_ENDPOINT: u8 = 0x80 | G13_KEY_INTERFACE;

/// Interrupt OUT endpoint that takes LCD frames.
pub const G13_LCD_ENDPOINT: u8 = 0x00 | G13_LCD_INTERFACE;

/// Request number of the LED control transfers.
pub const G13_LED_REQUEST: u8 = 9;

/// `wValue` of the LED mode control transfer.
pub const G13_LED_MODE_VALUE: u16 = 0x305;

/// `wValue` of the backlight colour control transfer.
pub const G13_LED_COLOR_VALUE: u16 = 0x307;

/// Width of the LCD in pixels. Each byte of a frame holds eight vertically
/// stacked pixels of one column; the first `G13_LCD_WIDTH` bytes cover rows
/// 0 to 7 across all columns, the next ones rows 8 to 15, and so on.
pub const G13_LCD_WIDTH: usize = 160;

/// Rows reserved in a frame; only `G13_LCD_HEIGHT_REAL` of them are visible.
pub const G13_LCD_HEIGHT: usize = 48;

/// Number of eight-row bands in a frame.
pub const G13_LCD_HEIGHT_IN_BYTES: usize = G13_LCD_HEIGHT / 8;

pub const G13_LCD_HEIGHT_REAL: usize = 43;

/// Bytes of pixel data in one frame.
pub const G13_LCD_ARRAY_LEN: usize = G13_LCD_WIDTH * G13_LCD_HEIGHT_IN_BYTES;

/// Bytes that precede the pixel data in a frame transfer; the first of them is
/// the report type.
pub const G13_LCD_BUFFER_PADDING: usize = 32;

/// Bytes of a whole frame transfer.
pub const G13_LCD_BUFFER_LEN: usize = G13_LCD_BUFFER_PADDING + G13_LCD_ARRAY_LEN;

/// Report type byte that opens every frame transfer.
pub const G13_LCD_REPORT_TYPE: u8 = 3;

pub const G13_VENDOR_ID: u16 = 0x046d;

pub const G13_PRODUCT_ID: u16 = 0xc21c;

/// Number of buttons, and so of bits in the report bitmap.
pub const G13_KEYS_LENGTH: usize = 40;

/// Number of binding pages of a profile.
pub const G13_PAGE_COUNT: usize = 3;

} // verus!
