use vstd::prelude::*;

verus! {

/// A colour as four eight-bit channels.
#[derive(Clone, Copy, PartialEq, Eq, Structural, Debug)]
pub struct Color {
    pub r: u8,
    pub g: u8,
    pub b: u8,
    pub a: u8,
}

impl Color {
    /// The colour with these channels.
    pub fn from_rgba(r: u8, g: u8, b: u8, a: u8) -> (c: Color)
        ensures
            c == (Color { r, g, b, a }),
    {
        Color { r, g, b, a }
    }
}

/// Opaque white.
pub open spec fn white() -> Color {
    Color { r: 255, g: 255, b: 255, a: 255 }
}

/// What an image holds: its size and its pixels, row after row from the top.
pub struct ImageView {
    pub width: u16,
    pub height: u16,
    pub pixels: Seq<Color>,
}

impl ImageView {
    /// Whether there is exactly one pixel per position.
    pub open spec fn wf(self) -> bool {
        self.pixels.len() == self.width * self.height
    }

    /// An image of one colour.
    pub open spec fn filled(width: u16, height: u16, color: Color) -> Self {
        ImageView { width, height, pixels: Seq::new((width * height) as nat, |i: int| color) }
    }

    /// Whether (`x`, `y`) lies inside the image.
    pub open spec fn contains(self, x: u32, y: u32) -> bool {
        x < self.width && y < self.height
    }

    /// The pixel at column `x` of row `y`.
    pub open spec fn pixel(self, x: u32, y: u32) -> Color {
        self.pixels[y * self.width + x]
    }

    /// The image with the pixel at column `x` of row `y` set to `color`.
    pub open spec fn with_pixel(self, x: u32, y: u32, color: Color) -> Self {
        ImageView { pixels: self.pixels.update(y * self.width + x, color), ..self }
    }
}

/// A rectangle of pixels.
pub struct Image {
    width: u16,
    height: u16,
    pixels: Vec<Color>,
}

impl View for Image {
    type V = ImageView;

    closed spec fn view(&self) -> ImageView {
        ImageView { width: self.width, height: self.height, pixels: self.pixels@ }
    }
}

impl Image {
    #[verifier::type_invariant]
    spec fn well_formed(self) -> bool {
        self.pixels.len() == self.width * self.height
    }

    /// An image of the given size with every pixel set to `color`.
    pub fn gen_image_color(width: u16, height: u16, color: Color) -> (image: Image)
        ensures
            image@ == ImageView::filled(width, height, color),
            image@.wf(),
    {
        assert(width * height <= 0xFFFF * 0xFFFF) by (nonlinear_arith)
            requires
                width <= 0xFFFF,
                height <= 0xFFFF,
        ;
        let count: usize = (width as u32 * height as u32) as usize;
        let pixels = vec![color; count];
        assert(pixels@ =~= Seq::new((width * height) as nat, |i: int| color));
        Image { width, height, pixels }
    }

    /// The number of columns.
    pub fn width(&self) -> (w: u16)
        ensures
            w == self@.width,
            self@.wf(),
    {
        proof {
            use_type_invariant(self);
        }
        self.width
    }

    /// The number of rows.
    pub fn height(&self) -> (h: u16)
        ensures
            h == self@.height,
            self@.wf(),
    {
        proof {
            use_type_invariant(self);
        }
        self.height
    }

    /// The pixel at column `x` of row `y`.
    pub fn get_pixel(&self, x: u32, y: u32) -> (color: Color)
        requires
            self@.contains(x, y),
        ensures
            color == self@.pixel(x, y),
    {
        proof {
            use_type_invariant(self);
            lemma_position_in_bounds(x, y, self.width, self.height);
        }
        self.pixels[(y * self.width as u32 + x) as usize]
    }

    /// Sets the pixel at column `x` of row `y`.
    pub fn set_pixel(&mut self, x: u32, y: u32, color: Color)
        requires
            old(self)@.contains(x, y),
        ensures
            final(self)@ == old(self)@.with_pixel(x, y, color),
    {
        proof {
            use_type_invariant(&*self);
            lemma_position_in_bounds(x, y, self.width, self.height);
        }
        let at: usize = (y * self.width as u32 + x) as usize;
        self.pixels[at] = color;
    }
}

/// A position inside a `width` by `height` rectangle has an index below their product.
proof fn lemma_position_in_bounds(x: u32, y: u32, width: u16, height: u16)
    requires
        x < width,
        y < height,
    ensures
        0 <= y * width + x < width * height <= 0xFFFF * 0xFFFF,
{
    assert(y * width + x < width * height <= 0xFFFF * 0xFFFF) by (nonlinear_arith)
        requires
            x < width,
            y < height,
            width <= 0xFFFF,
            height <= 0xFFFF,
    ;
}

} // verus!
