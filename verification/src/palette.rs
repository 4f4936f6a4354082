use vstd::prelude::*;

verus! {

/// The colors the DMG screen is shown in.
#[derive(PartialEq, Eq, Structural, Clone, Copy, Debug)]
pub enum Palette {
    Greyscale,
    ClassicGreen,
    Pocket,
}

/// How the game library is ordered.
#[derive(PartialEq, Eq, Structural, Clone, Copy, Debug)]
pub enum SortMethod {
    Filename,
    Title,
    Company,
}

impl Palette {
    /// The RGB color of each of the four shades, lightest first.
    pub open spec fn colors_spec(self) -> [(u8, u8, u8); 4] {
        match self {
            Palette::Greyscale => [(255, 255, 255), (192, 192, 192), (96, 96, 96), (0, 0, 0)],
            Palette::ClassicGreen => [(224, 248, 208), (136, 192, 112), (52, 104, 86), (8, 24, 32)],
            Palette::Pocket => [(232, 232, 232), (160, 160, 160), (88, 88, 88), (16, 16, 16)],
        }
    }

    pub fn colors(self) -> (r: [(u8, u8, u8); 4])
        ensures
            r == self.colors_spec(),
    {
        match self {
            Palette::Greyscale => [(255, 255, 255), (192, 192, 192), (96, 96, 96), (0, 0, 0)],
            Palette::ClassicGreen => [(224, 248, 208), (136, 192, 112), (52, 104, 86), (8, 24, 32)],
            Palette::Pocket => [(232, 232, 232), (160, 160, 160), (88, 88, 88), (16, 16, 16)],
        }
    }
}

/// Byte `i` of the RGBA image of pixel (x, y): its palette color and an opaque alpha.
pub open spec fn rgba_byte(screen: [[u8; 160]; 144], palette: Palette, y: int, x: int, channel: int) -> u8 {
    let (r, g, b) = palette.colors_spec()@[screen@[y]@[x] as int];
    if channel == 0 {
        r
    } else if channel == 1 {
        g
    } else if channel == 2 {
        b
    } else {
        255
    }
}

/// Paints the DMG screen into an RGBA buffer, four bytes per pixel, row by row.
pub fn fill_screen_rgba(rgba: &mut Vec<u8>, screen: &[[u8; 160]; 144], palette: Palette)
    requires
        old(rgba)@.len() == 160 * 144 * 4,
        forall|y: int, x: int| 0 <= y < 144 && 0 <= x < 160 ==> screen@[y]@[x] < 4,
    ensures
        final(rgba)@.len() == 160 * 144 * 4,
        forall|y: int, x: int, c: int|
            0 <= y < 144 && 0 <= x < 160 && 0 <= c < 4 ==> #[trigger] final(rgba)@[(y * 160 + x) * 4 + c] == rgba_byte(
                *screen,
                palette,
                y,
                x,
                c,
            ),
{
    let colors = palette.colors();
    let mut y: usize = 0;
    while y < 144
        invariant
            y <= 144,
            rgba@.len() == 160 * 144 * 4,
            colors == palette.colors_spec(),
            forall|y: int, x: int| 0 <= y < 144 && 0 <= x < 160 ==> screen@[y]@[x] < 4,
            forall|yy: int, x: int, c: int|
                0 <= yy < y && 0 <= x < 160 && 0 <= c < 4 ==> #[trigger] rgba@[(yy * 160 + x) * 4 + c] == rgba_byte(
                    *screen,
                    palette,
                    yy,
                    x,
                    c,
                ),
        decreases 144 - y,
    {
        let mut x: usize = 0;
        while x < 160
            invariant
                y < 144,
                x <= 160,
                rgba@.len() == 160 * 144 * 4,
                colors == palette.colors_spec(),
                forall|y: int, x: int| 0 <= y < 144 && 0 <= x < 160 ==> screen@[y]@[x] < 4,
                forall|yy: int, xx: int, c: int|
                    0 <= yy < y && 0 <= xx < 160 && 0 <= c < 4 ==> #[trigger] rgba@[(yy * 160 + xx) * 4 + c] == rgba_byte(
                        *screen,
                        palette,
                        yy,
                        xx,
                        c,
                    ),
                forall|xx: int, c: int|
                    0 <= xx < x && 0 <= c < 4 ==> #[trigger] rgba@[(y * 160 + xx) * 4 + c] == rgba_byte(
                        *screen,
                        palette,
                        y as int,
                        xx,
                        c,
                    ),
            decreases 160 - x,
        {
            let shade = screen[y][x] as usize;
            let (r, g, b) = colors[shade];
            let i = (y * 160 + x) * 4;
            assert(i + 3 < 160 * 144 * 4) by (nonlinear_arith)
                requires
                    y < 144,
                    x < 160,
                    i == (y * 160 + x) * 4;
            let ghost before = rgba@;
            rgba.set(i, r);
            rgba.set(i + 1, g);
            rgba.set(i + 2, b);
            rgba.set(i + 3, 255);
            proof {
                assert forall|yy: int, xx: int, c: int|
                    0 <= yy < y && 0 <= xx < 160 && 0 <= c < 4 implies #[trigger] rgba@[(yy * 160 + xx) * 4 + c]
                    == before[(yy * 160 + xx) * 4 + c] by {
                    assert((yy * 160 + xx) * 4 + c < i) by (nonlinear_arith)
                        requires
                            0 <= yy < y,
                            0 <= xx < 160,
                            0 <= c < 4,
                            i == (y * 160 + x) * 4;
                }
                assert forall|xx: int, c: int| 0 <= xx < x && 0 <= c < 4 implies #[trigger] rgba@[(y * 160 + xx) * 4 + c]
                    == before[(y * 160 + xx) * 4 + c] by {
                    assert((y * 160 + xx) * 4 + c < i) by (nonlinear_arith)
                        requires
                            0 <= xx < x,
                            0 <= c < 4,
                            i == (y * 160 + x) * 4;
                }
                assert forall|c: int| 0 <= c < 4 implies #[trigger] rgba@[(y * 160 + x) * 4 + c] == rgba_byte(
                    *screen,
                    palette,
                    y as int,
                    x as int,
                    c,
                ) by {
                    assert((y * 160 + x) * 4 + c == i + c);
                }
            }
            x = x + 1;
        }
        y = y + 1;
    }
}

} // verus!
