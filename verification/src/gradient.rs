use vstd::prelude::*;

use crate::navigation::WindowInput;
use crate::render::pixel_of;
use vstd::arithmetic::div_mod::lemma_fundamental_div_mod_converse;

verus! {

/// A test window that fills itself with a color gradient.
#[derive(PartialEq, Eq, Structural, Clone, Copy, Debug)]
pub struct SoftbufferTest {
    /// The width the window asks for, in logical pixels.
    pub width: u32,
    /// The height the window asks for, in logical pixels.
    pub height: u32,
}

/// What the test window asks of the outside world.
#[derive(PartialEq, Eq, Structural, Clone, Copy, Debug)]
pub enum TestAction {
    Nothing,
    /// Fill the window with the gradient.
    Render,
    /// Ask for a redraw and keep polling for events.
    RedrawAndPoll,
    /// Leave the event loop.
    Exit,
}

/// The gradient's color at pixel (`x`, `y`) of a `w` by `h` buffer: red grows
/// from left to right, blue from top to bottom, green is constant at 128;
/// blue is in the low byte, red in the high one.
pub open spec fn gradient_pixel(x: int, y: int, w: int, h: int) -> u32 {
    pixel_of(y * 255 / h, 128, x * 255 / w)
}

impl SoftbufferTest {
    /// A test window of 800 by 600 pixels.
    pub fn new() -> (t: SoftbufferTest)
        ensures
            t.width == 800,
            t.height == 600,
    {
        SoftbufferTest { width: 800, height: 600 }
    }

    /// Something happened to the window: a close request leaves the event
    /// loop, a redraw request fills the window.
    pub fn window_event(&self, event: WindowInput) -> (a: TestAction)
        ensures
            a == match event {
                WindowInput::CloseRequested => TestAction::Exit,
                WindowInput::RedrawRequested => TestAction::Render,
                _ => TestAction::Nothing,
            },
    {
        match event {
            WindowInput::CloseRequested => TestAction::Exit,
            WindowInput::RedrawRequested => TestAction::Render,
            _ => TestAction::Nothing,
        }
    }

    /// The event loop is idle: keep redrawing while the window is open, leave
    /// once there is none.
    pub fn about_to_wait(&self, window_open: bool) -> (a: TestAction)
        ensures
            a == (if window_open { TestAction::RedrawAndPoll } else { TestAction::Exit }),
    {
        if window_open {
            TestAction::RedrawAndPoll
        } else {
            TestAction::Exit
        }
    }
}

/// Fills a `width` by `height` frame buffer, row after row, with the gradient.
pub fn fill_gradient(buffer: &mut [u32], width: u32, height: u32)
    requires
        width as int * height as int <= old(buffer)@.len(),
        width as int * height as int <= 0x1_0000_0000,
        width == 0 || (width - 1) * 255 <= u32::MAX,
        height == 0 || (height - 1) * 255 <= u32::MAX,
    ensures
        final(buffer)@.len() == old(buffer)@.len(),
        forall|j: int|
            0 <= j < width as int * height as int ==> #[trigger] final(buffer)@[j] == gradient_pixel(
                j % width as int,
                j / width as int,
                width as int,
                height as int,
            ),
        forall|j: int|
            width as int * height as int <= j < final(buffer)@.len() ==> #[trigger] final(buffer)@[j]
                == old(buffer)@[j],
{
    let ghost w = width as int;
    let ghost h = height as int;
    let ghost orig = buffer@;
    let mut y: u32 = 0;
    assert(y * w == 0);
    while y < height
        invariant
            y <= height,
            w == width,
            h == height,
            w * h <= orig.len(),
            w * h <= 0x1_0000_0000,
            width == 0 || (width - 1) * 255 <= u32::MAX,
            height == 0 || (height - 1) * 255 <= u32::MAX,
            buffer@.len() == orig.len(),
            y * w <= w * h,
            forall|j: int| 0 <= j < y * w ==> #[trigger] buffer@[j] == gradient_pixel(j % w, j / w, w, h),
            forall|j: int| y * w <= j < buffer@.len() ==> #[trigger] buffer@[j] == orig[j],
        decreases height - y,
    {
        assert(y * w + w <= w * h) by (nonlinear_arith)
            requires y < h, w >= 0;
        let mut x: u32 = 0;
        while x < width
            invariant
                x <= width,
                y < height,
                w == width,
                h == height,
                w * h <= orig.len(),
                y * w + w <= w * h,
                w * h <= 0x1_0000_0000,
                width == 0 || (width - 1) * 255 <= u32::MAX,
                height == 0 || (height - 1) * 255 <= u32::MAX,
                buffer@.len() == orig.len(),
                forall|j: int| 0 <= j < y * w + x ==> #[trigger] buffer@[j] == gradient_pixel(j % w, j / w, w, h),
                forall|j: int| y * w + x <= j < buffer@.len() ==> #[trigger] buffer@[j] == orig[j],
            decreases width - x,
        {
            assert(x * 255 <= u32::MAX && y * 255 <= u32::MAX) by (nonlinear_arith)
                requires
                    x < width,
                    y < height,
                    (width - 1) * 255 <= u32::MAX,
                    (height - 1) * 255 <= u32::MAX;
            assert((x as int * 255) / (width as int) < 256) by (nonlinear_arith)
                requires x < width;
            assert((y as int * 255) / (height as int) < 256) by (nonlinear_arith)
                requires y < height;
            let red = (x * 255 / width) as u8;
            let green: u8 = 128;
            let blue = (y * 255 / height) as u8;
            let pixel = (blue as u32) | ((green as u32) << 8) | ((red as u32) << 16);
            assert(pixel == (red as u32) * 65536 + (green as u32) * 256 + (blue as u32)) by (bit_vector)
                requires pixel == (blue as u32) | ((green as u32) << 8) | ((red as u32) << 16);
            let idx = y * width + x;
            proof {
                lemma_fundamental_div_mod_converse(idx as int, w, y as int, x as int);
            }
            buffer[idx as usize] = pixel;
            x = x + 1;
        }
        assert((y + 1) * w == y * w + w) by (nonlinear_arith);
        y = y + 1;
    }
    assert(y * w == w * h) by (nonlinear_arith)
        requires y == h;
}

} // verus!
