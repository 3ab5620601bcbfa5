//! The bytes the keypad takes on its control and LCD endpoints, and how it is
//! recognised on the bus. Sending them is left to the caller.

use vstd::prelude::*;

use crate::constants::{
    G13_LCD_ARRAY_LEN, G13_LCD_BUFFER_LEN, G13_LCD_BUFFER_PADDING, G13_LCD_HEIGHT_IN_BYTES,
    G13_LCD_REPORT_TYPE, G13_LCD_WIDTH, G13_PRODUCT_ID, G13_VENDOR_ID,
};

verus! {

/// The frame transfer for a framebuffer: the report type, zero padding up to
/// byte 32, then the 960 framebuffer bytes.
pub open spec fn lcd_frame(pixels: Seq<u8>) -> Seq<u8> {
    Seq::new(
        992,
        |i: int|
            if i == 0 {
                3u8
            } else if i < 32 {
                0u8
            } else {
                pixels[i - 32]
            },
    )
}

/// Whether a USB device with these identifiers is the keypad.
pub fn is_g13(vendor_id: u16, product_id: u16) -> (found: bool)
    ensures
        found == (vendor_id == 0x046d && product_id == 0xc21c),
{
    vendor_id == G13_VENDOR_ID && product_id == G13_PRODUCT_ID
}

/// The payload of the LED mode control transfer.
pub fn mode_leds_usb_data(leds: i32) -> (data: [u8; 5])
    ensures
        data@ == seq![5u8, leds as u8, 0u8, 0u8, 0u8],
{
    let data = [5u8, leds as u8, 0u8, 0u8, 0u8];
    assert(data@ =~= seq![5u8, leds as u8, 0u8, 0u8, 0u8]);
    data
}

/// The payload of the backlight colour control transfer.
pub fn led_color_usb_data(red: u8, green: u8, blue: u8) -> (data: [u8; 5])
    ensures
        data@ == seq![5u8, red, green, blue, 0u8],
{
    let data = [5u8, red, green, blue, 0u8];
    assert(data@ =~= seq![5u8, red, green, blue, 0u8]);
    data
}

/// The frame transfer that shows a framebuffer on the LCD.
pub fn lcd_usb_data(pixels: &[u8; G13_LCD_ARRAY_LEN]) -> (data: [u8; G13_LCD_BUFFER_LEN])
    ensures
        data@ == lcd_frame(pixels@),
{
    let mut data = [0u8; G13_LCD_BUFFER_LEN];
    data[0] = G13_LCD_REPORT_TYPE;
    let mut i: usize = 0;
    while i < G13_LCD_ARRAY_LEN
        invariant
            i <= 960,
            data@.len() == 992,
            data@[0] == 3,
            forall|k: int| 1 <= k < 32 ==> data@[k] == 0,
            forall|k: int| 0 <= k < i ==> data@[32 + k] == pixels@[k],
        decreases 960 - i,
    {
        data[G13_LCD_BUFFER_PADDING + i] = pixels[i];
        i += 1;
    }
    assert(data@ =~= lcd_frame(pixels@));
    data
}

/// The frame transfer for a framebuffer given as six bands of eight rows:
/// band `b` fills bytes `32 + 160 * b` to `32 + 160 * b + 159`.
pub fn lcd2d_usb_data(pixels: &[[u8; G13_LCD_WIDTH]; G13_LCD_HEIGHT_IN_BYTES]) -> (data: [u8;
    G13_LCD_BUFFER_LEN])
    ensures
        data@.len() == 992,
        data@[0] == 3,
        forall|k: int| 1 <= k < 32 ==> data@[k] == 0,
        forall|b: int, x: int| 0 <= b < 6 && 0 <= x < 160 ==> data@[32 + 160 * b + x] == pixels@[b]@[x],
{
    let mut data = [0u8; G13_LCD_BUFFER_LEN];
    data[0] = G13_LCD_REPORT_TYPE;
    let mut b: usize = 0;
    while b < G13_LCD_HEIGHT_IN_BYTES
        invariant
            b <= 6,
            data@.len() == 992,
            data@[0] == 3,
            forall|k: int| 1 <= k < 32 ==> data@[k] == 0,
            forall|c: int, x: int| 0 <= c < b && 0 <= x < 160 ==> data@[32 + 160 * c + x] == pixels@[c]@[x],
        decreases 6 - b,
    {
        let band = &pixels[b];
        let mut x: usize = 0;
        while x < G13_LCD_WIDTH
            invariant
                b < 6,
                x <= 160,
                *band == pixels@[b as int],
                data@.len() == 992,
                data@[0] == 3,
                forall|k: int| 1 <= k < 32 ==> data@[k] == 0,
                forall|c: int, y: int| 0 <= c < b && 0 <= y < 160 ==> data@[32 + 160 * c + y] == pixels@[c]@[y],
                forall|y: int| 0 <= y < x ==> data@[32 + 160 * b + y] == pixels@[b as int]@[y],
            decreases 160 - x,
        {
            data[G13_LCD_BUFFER_PADDING + G13_LCD_WIDTH * b + x] = band[x];
            x += 1;
        }
        b += 1;
    }
    data
}

} // verus!
