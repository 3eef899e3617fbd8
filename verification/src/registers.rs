use vstd::prelude::*;

verus! {

/// The PPU's status register: three flags in the top bits.
#[derive(Clone, Copy, PartialEq, Eq, Structural, Debug)]
pub struct Status(pub u8);

impl Status {
    pub open spec fn spec_sprite_overflow(self) -> bool {
        self.0 & 0x20 != 0
    }

    pub open spec fn spec_sprite_zero_hit(self) -> bool {
        self.0 & 0x40 != 0
    }

    pub open spec fn spec_vertical_blank(self) -> bool {
        self.0 & 0x80 != 0
    }

    /// The register with the bits of `mask` set if `on`, cleared if not.
    pub open spec fn with_bits(self, mask: u8, on: bool) -> Self {
        Status(if on { self.0 | mask } else { self.0 & !mask })
    }

    #[verifier::when_used_as_spec(spec_sprite_overflow)]
    pub fn sprite_overflow(self) -> (set: bool)
        ensures
            set == self.spec_sprite_overflow(),
    {
        self.0 & 0x20 != 0
    }

    #[verifier::when_used_as_spec(spec_sprite_zero_hit)]
    pub fn sprite_zero_hit(self) -> (set: bool)
        ensures
            set == self.spec_sprite_zero_hit(),
    {
        self.0 & 0x40 != 0
    }

    #[verifier::when_used_as_spec(spec_vertical_blank)]
    pub fn vertical_blank(self) -> (set: bool)
        ensures
            set == self.spec_vertical_blank(),
    {
        self.0 & 0x80 != 0
    }

    pub fn set_sprite_overflow(&mut self, on: bool)
        ensures
            *final(self) == old(self).with_bits(0x20, on),
    {
        self.0 = if on { self.0 | 0x20 } else { self.0 & !0x20 };
    }

    pub fn set_sprite_zero_hit(&mut self, on: bool)
        ensures
            *final(self) == old(self).with_bits(0x40, on),
    {
        self.0 = if on { self.0 | 0x40 } else { self.0 & !0x40 };
    }

    pub fn set_vertical_blank(&mut self, on: bool)
        ensures
            *final(self) == old(self).with_bits(0x80, on),
    {
        self.0 = if on { self.0 | 0x80 } else { self.0 & !0x80 };
    }
}

/// The PPU's mask register: what is rendered, and how.
#[derive(Clone, Copy, PartialEq, Eq, Structural, Debug)]
pub struct Mask(pub u8);

impl Mask {
    pub open spec fn spec_grayscale(self) -> bool {
        self.0 & 0x01 != 0
    }

    pub open spec fn spec_render_background_left(self) -> bool {
        self.0 & 0x02 != 0
    }

    pub open spec fn spec_render_sprites_left(self) -> bool {
        self.0 & 0x04 != 0
    }

    pub open spec fn spec_render_background(self) -> bool {
        self.0 & 0x08 != 0
    }

    pub open spec fn spec_render_sprites(self) -> bool {
        self.0 & 0x10 != 0
    }

    /// Whether either layer is being rendered.
    pub open spec fn spec_rendering(self) -> bool {
        self.spec_render_background() || self.spec_render_sprites()
    }

    #[verifier::when_used_as_spec(spec_grayscale)]
    pub fn grayscale(self) -> (set: bool)
        ensures
            set == self.spec_grayscale(),
    {
        self.0 & 0x01 != 0
    }

    #[verifier::when_used_as_spec(spec_render_background_left)]
    pub fn render_background_left(self) -> (set: bool)
        ensures
            set == self.spec_render_background_left(),
    {
        self.0 & 0x02 != 0
    }

    #[verifier::when_used_as_spec(spec_render_sprites_left)]
    pub fn render_sprites_left(self) -> (set: bool)
        ensures
            set == self.spec_render_sprites_left(),
    {
        self.0 & 0x04 != 0
    }

    #[verifier::when_used_as_spec(spec_render_background)]
    pub fn render_background(self) -> (set: bool)
        ensures
            set == self.spec_render_background(),
    {
        self.0 & 0x08 != 0
    }

    #[verifier::when_used_as_spec(spec_render_sprites)]
    pub fn render_sprites(self) -> (set: bool)
        ensures
            set == self.spec_render_sprites(),
    {
        self.0 & 0x10 != 0
    }

    #[verifier::when_used_as_spec(spec_rendering)]
    pub fn rendering(self) -> (on: bool)
        ensures
            on == self.spec_rendering(),
    {
        self.render_background() || self.render_sprites()
    }
}

/// The PPU's control register.
#[derive(Clone, Copy, PartialEq, Eq, Structural, Debug)]
pub struct PpuControl(pub u8);

impl PpuControl {
    pub open spec fn spec_nametable_x(self) -> bool {
        self.0 & 0x01 != 0
    }

    pub open spec fn spec_nametable_y(self) -> bool {
        self.0 & 0x02 != 0
    }

    pub open spec fn spec_increment_mode(self) -> bool {
        self.0 & 0x04 != 0
    }

    pub open spec fn spec_pattern_sprite(self) -> bool {
        self.0 & 0x08 != 0
    }

    pub open spec fn spec_pattern_background(self) -> bool {
        self.0 & 0x10 != 0
    }

    pub open spec fn spec_sprite_size(self) -> bool {
        self.0 & 0x20 != 0
    }

    pub open spec fn spec_enable_nmi(self) -> bool {
        self.0 & 0x80 != 0
    }

    #[verifier::when_used_as_spec(spec_nametable_x)]
    pub fn nametable_x(self) -> (set: bool)
        ensures
            set == self.spec_nametable_x(),
    {
        self.0 & 0x01 != 0
    }

    #[verifier::when_used_as_spec(spec_nametable_y)]
    pub fn nametable_y(self) -> (set: bool)
        ensures
            set == self.spec_nametable_y(),
    {
        self.0 & 0x02 != 0
    }

    #[verifier::when_used_as_spec(spec_increment_mode)]
    pub fn increment_mode(self) -> (set: bool)
        ensures
            set == self.spec_increment_mode(),
    {
        self.0 & 0x04 != 0
    }

    #[verifier::when_used_as_spec(spec_pattern_sprite)]
    pub fn pattern_sprite(self) -> (set: bool)
        ensures
            set == self.spec_pattern_sprite(),
    {
        self.0 & 0x08 != 0
    }

    #[verifier::when_used_as_spec(spec_pattern_background)]
    pub fn pattern_background(self) -> (set: bool)
        ensures
            set == self.spec_pattern_background(),
    {
        self.0 & 0x10 != 0
    }

    #[verifier::when_used_as_spec(spec_sprite_size)]
    pub fn sprite_size(self) -> (set: bool)
        ensures
            set == self.spec_sprite_size(),
    {
        self.0 & 0x20 != 0
    }

    #[verifier::when_used_as_spec(spec_enable_nmi)]
    pub fn enable_nmi(self) -> (set: bool)
        ensures
            set == self.spec_enable_nmi(),
    {
        self.0 & 0x80 != 0
    }
}

/// A scroll register: from the low bits up, five bits of coarse x, five of coarse y,
/// the two nametable selects and three bits of fine y. The top bit is unused.
#[derive(Clone, Copy, PartialEq, Eq, Structural, Debug)]
pub struct LoopyRegister(pub u16);

impl LoopyRegister {
    pub open spec fn spec_coarse_x(self) -> u16 {
        self.0 & 0x001F
    }

    pub open spec fn spec_coarse_y(self) -> u16 {
        (self.0 >> 5) & 0x001F
    }

    pub open spec fn spec_nametable_x(self) -> bool {
        self.0 & 0x0400 != 0
    }

    pub open spec fn spec_nametable_y(self) -> bool {
        self.0 & 0x0800 != 0
    }

    pub open spec fn spec_fine_y(self) -> u16 {
        (self.0 >> 12) & 0x0007
    }

    /// The register with the field under `mask`, which starts at bit `shift`, set to
    /// the low bits of `value`.
    pub open spec fn with_field(self, mask: u16, shift: u16, value: u16) -> Self {
        LoopyRegister((self.0 & !mask) | ((value << shift) & mask))
    }

    pub open spec fn with_coarse_x(self, value: u16) -> Self {
        self.with_field(0x001F, 0, value)
    }

    pub open spec fn with_coarse_y(self, value: u16) -> Self {
        self.with_field(0x03E0, 5, value)
    }

    pub open spec fn with_nametable_x(self, on: bool) -> Self {
        self.with_field(0x0400, 10, if on { 1 } else { 0 })
    }

    pub open spec fn with_nametable_y(self, on: bool) -> Self {
        self.with_field(0x0800, 11, if on { 1 } else { 0 })
    }

    pub open spec fn with_fine_y(self, value: u16) -> Self {
        self.with_field(0x7000, 12, value)
    }

    #[verifier::when_used_as_spec(spec_coarse_x)]
    pub fn coarse_x(self) -> (value: u16)
        ensures
            value == self.spec_coarse_x(),
    {
        self.0 & 0x001F
    }

    #[verifier::when_used_as_spec(spec_coarse_y)]
    pub fn coarse_y(self) -> (value: u16)
        ensures
            value == self.spec_coarse_y(),
    {
        (self.0 >> 5) & 0x001F
    }

    #[verifier::when_used_as_spec(spec_nametable_x)]
    pub fn nametable_x(self) -> (set: bool)
        ensures
            set == self.spec_nametable_x(),
    {
        self.0 & 0x0400 != 0
    }

    #[verifier::when_used_as_spec(spec_nametable_y)]
    pub fn nametable_y(self) -> (set: bool)
        ensures
            set == self.spec_nametable_y(),
    {
        self.0 & 0x0800 != 0
    }

    #[verifier::when_used_as_spec(spec_fine_y)]
    pub fn fine_y(self) -> (value: u16)
        ensures
            value == self.spec_fine_y(),
    {
        (self.0 >> 12) & 0x0007
    }

    /// The register one tile further right: past the last column the coarse x wraps
    /// and the horizontal nametable switches.
    pub open spec fn scrolled_x(self) -> Self {
        if self.coarse_x() == 31 {
            self.with_coarse_x(0).with_nametable_x(!self.nametable_x())
        } else {
            self.with_coarse_x(self.coarse_x().wrapping_add(1))
        }
    }

    /// The register one pixel row further down: after fine y 7 the coarse y steps,
    /// wrapping at row 29 into the other vertical nametable and at row 31 in place.
    pub open spec fn scrolled_y(self) -> Self {
        if self.fine_y() < 7 {
            self.with_fine_y(self.fine_y().wrapping_add(1))
        } else if self.coarse_y() == 29 {
            self.with_fine_y(0).with_coarse_y(0).with_nametable_y(!self.nametable_y())
        } else if self.coarse_y() == 31 {
            self.with_fine_y(0).with_coarse_y(0)
        } else {
            self.with_fine_y(0).with_coarse_y(self.coarse_y().wrapping_add(1))
        }
    }

    /// The register with the horizontal position of `from`.
    pub open spec fn with_x_of(self, from: LoopyRegister) -> Self {
        self.with_nametable_x(from.nametable_x()).with_coarse_x(from.coarse_x())
    }

    /// The register with the vertical position of `from`.
    pub open spec fn with_y_of(self, from: LoopyRegister) -> Self {
        self.with_fine_y(from.fine_y()).with_nametable_y(from.nametable_y()).with_coarse_y(
            from.coarse_y(),
        )
    }

    pub fn scroll_x(&mut self)
        ensures
            *final(self) == old(self).scrolled_x(),
    {
        let before = *self;
        if before.coarse_x() == 31 {
            self.set_coarse_x(0);
            self.set_nametable_x(!before.nametable_x());
        } else {
            self.set_coarse_x(before.coarse_x().wrapping_add(1));
        }
    }

    pub fn scroll_y(&mut self)
        ensures
            *final(self) == old(self).scrolled_y(),
    {
        let before = *self;
        if before.fine_y() < 7 {
            self.set_fine_y(before.fine_y().wrapping_add(1));
        } else {
            self.set_fine_y(0);
            if before.coarse_y() == 29 {
                self.set_coarse_y(0);
                self.set_nametable_y(!before.nametable_y());
            } else if before.coarse_y() == 31 {
                self.set_coarse_y(0);
            } else {
                self.set_coarse_y(before.coarse_y().wrapping_add(1));
            }
        }
    }

    pub fn copy_x(&mut self, from: LoopyRegister)
        ensures
            *final(self) == old(self).with_x_of(from),
    {
        self.set_nametable_x(from.nametable_x());
        self.set_coarse_x(from.coarse_x());
    }

    pub fn copy_y(&mut self, from: LoopyRegister)
        ensures
            *final(self) == old(self).with_y_of(from),
    {
        self.set_fine_y(from.fine_y());
        self.set_nametable_y(from.nametable_y());
        self.set_coarse_y(from.coarse_y());
    }

    /// No way of changing a register through its fields sets the unused top bit.
    pub proof fn lemma_stays_in_fifteen_bits(self, from: LoopyRegister, value: u16, on: bool)
        requires
            self.0 <= 0x7FFF,
        ensures
            self.with_coarse_x(value).0 <= 0x7FFF,
            self.with_coarse_y(value).0 <= 0x7FFF,
            self.with_fine_y(value).0 <= 0x7FFF,
            self.with_nametable_x(on).0 <= 0x7FFF,
            self.with_nametable_y(on).0 <= 0x7FFF,
            self.scrolled_x().0 <= 0x7FFF,
            self.scrolled_y().0 <= 0x7FFF,
            self.with_x_of(from).0 <= 0x7FFF,
            self.with_y_of(from).0 <= 0x7FFF,
    {
        let bit: u16 = if on { 1 } else { 0 };
        lemma_fields(self.0, value);
        lemma_fields(self.0, bit);
        // scrolled_x
        lemma_fields(self.0, 0);
        lemma_fields(self.with_coarse_x(0).0, if !self.nametable_x() { 1 } else { 0 });
        lemma_fields(self.0, self.coarse_x().wrapping_add(1));
        // scrolled_y
        lemma_fields(self.0, self.fine_y().wrapping_add(1));
        lemma_fields(self.with_fine_y(0).0, 0);
        lemma_fields(self.with_fine_y(0).with_coarse_y(0).0, if !self.nametable_y() { 1 } else { 0 });
        lemma_fields(self.with_fine_y(0).0, self.coarse_y().wrapping_add(1));
        // with_x_of
        lemma_fields(self.0, if from.nametable_x() { 1 } else { 0 });
        lemma_fields(self.with_nametable_x(from.nametable_x()).0, from.coarse_x());
        // with_y_of
        lemma_fields(self.0, from.fine_y());
        lemma_fields(self.with_fine_y(from.fine_y()).0, if from.nametable_y() { 1 } else { 0 });
        lemma_fields(
            self.with_fine_y(from.fine_y()).with_nametable_y(from.nametable_y()).0,
            from.coarse_y(),
        );
    }

    fn set_field(&mut self, mask: u16, shift: u16, value: u16)
        requires
            shift < 16,
        ensures
            *final(self) == old(self).with_field(mask, shift, value),
    {
        self.0 = (self.0 & !mask) | ((value << shift) & mask);
    }

    pub fn set_coarse_x(&mut self, value: u16)
        ensures
            *final(self) == old(self).with_coarse_x(value),
    {
        self.set_field(0x001F, 0, value);
    }

    pub fn set_coarse_y(&mut self, value: u16)
        ensures
            *final(self) == old(self).with_coarse_y(value),
    {
        self.set_field(0x03E0, 5, value);
    }

    pub fn set_nametable_x(&mut self, on: bool)
        ensures
            *final(self) == old(self).with_nametable_x(on),
    {
        self.set_field(0x0400, 10, if on { 1 } else { 0 });
    }

    pub fn set_nametable_y(&mut self, on: bool)
        ensures
            *final(self) == old(self).with_nametable_y(on),
    {
        self.set_field(0x0800, 11, if on { 1 } else { 0 });
    }

    pub fn set_fine_y(&mut self, value: u16)
        ensures
            *final(self) == old(self).with_fine_y(value),
    {
        self.set_field(0x7000, 12, value);
    }
}

/// Writing a field changes that field to the value's low bits and no other field, and
/// never sets the unused top bit.
pub proof fn lemma_fields(r: u16, v: u16)
    by (bit_vector)
    ensures
        ((r & !0x001Fu16) | ((v << 0u16) & 0x001F)) & 0x001F == v & 0x001F,
        ((r & !0x001Fu16) | ((v << 0u16) & 0x001F)) & !0x001Fu16 == r & !0x001Fu16,
        (((r & !0x03E0u16) | ((v << 5u16) & 0x03E0)) >> 5) & 0x001F == v & 0x001F,
        ((r & !0x03E0u16) | ((v << 5u16) & 0x03E0)) & !0x03E0u16 == r & !0x03E0u16,
        (((r & !0x7000u16) | ((v << 12u16) & 0x7000)) >> 12) & 0x0007 == v & 0x0007,
        ((r & !0x7000u16) | ((v << 12u16) & 0x7000)) & !0x7000u16 == r & !0x7000u16,
        (((r & !0x0400u16) | ((v << 10u16) & 0x0400)) & 0x0400 != 0) == (v & 1 != 0),
        ((r & !0x0400u16) | ((v << 10u16) & 0x0400)) & !0x0400u16 == r & !0x0400u16,
        (((r & !0x0800u16) | ((v << 11u16) & 0x0800)) & 0x0800 != 0) == (v & 1 != 0),
        ((r & !0x0800u16) | ((v << 11u16) & 0x0800)) & !0x0800u16 == r & !0x0800u16,
        r <= 0x7FFF ==> ((r & !0x001Fu16) | ((v << 0u16) & 0x001F)) <= 0x7FFF,
        r <= 0x7FFF ==> ((r & !0x03E0u16) | ((v << 5u16) & 0x03E0)) <= 0x7FFF,
        r <= 0x7FFF ==> ((r & !0x0400u16) | ((v << 10u16) & 0x0400)) <= 0x7FFF,
        r <= 0x7FFF ==> ((r & !0x0800u16) | ((v << 11u16) & 0x0800)) <= 0x7FFF,
        r <= 0x7FFF ==> ((r & !0x7000u16) | ((v << 12u16) & 0x7000)) <= 0x7FFF,
        r & 0x001F <= 31,
        (r >> 5) & 0x001F <= 31,
        (r >> 12) & 0x0007 <= 7,
{
}

} // verus!
