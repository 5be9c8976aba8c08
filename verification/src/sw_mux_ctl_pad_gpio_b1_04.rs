//! Register SW_MUX_CTL_PAD_GPIO_B1_04: the pad multiplexer control of pad
//! GPIO_B1_04.
//!
//! Bits 0:3 hold the field `MUX_MODE`, bit 4 holds the field `SION`. All
//! other bits are reserved and are never changed by a field write.

#![allow(non_camel_case_types)]

use vstd::prelude::*;

verus! {

/// Marker of the register itself.
pub struct SW_MUX_CTL_PAD_GPIO_B1_04;

impl SW_MUX_CTL_PAD_GPIO_B1_04 {
    /// Register SW_MUX_CTL_PAD_GPIO_B1_04 `reset()`'s with value 0x05
    #[inline(always)]
    pub fn reset_value() -> (bits: u32)
        ensures
            bits == 0x05,
    {
        0x05
    }
}

/// Result of reading an enumerated field: a named value, or the raw bits
/// where the bits name no value.
#[derive(Debug, PartialEq, Eq, Structural)]
pub enum Variant<U, T> {
    /// Expected variant.
    Val(T),
    /// Raw bits.
    Res(U),
}

impl<U: Copy, T: Copy> Clone for Variant<U, T> {
    fn clone(&self) -> (r: Self)
        ensures
            r == *self,
    {
        *self
    }
}

impl<U: Copy, T: Copy> Copy for Variant<U, T> {

}

/// Reader of register SW_MUX_CTL_PAD_GPIO_B1_04
#[derive(Clone, Copy, Debug, PartialEq, Eq, Structural)]
pub struct R {
    pub bits: u32,
}

/// Writer for register SW_MUX_CTL_PAD_GPIO_B1_04
#[derive(Clone, Copy, Debug, PartialEq, Eq, Structural)]
pub struct W {
    pub bits: u32,
}

/// MUX Mode Select Field.
///
/// Value on reset: 5
#[derive(Clone, Copy, Debug, PartialEq, Eq, Structural)]
pub enum MUX_MODE_A {
    /// 0: Select mux mode: ALT0 mux port: LCD_DATA16 of instance: lcdif
    ALT0,
    /// 1: Select mux mode: ALT1 mux port: LPSPI4_PCS0 of instance: lpspi4
    ALT1,
    /// 2: Select mux mode: ALT2 mux port: CSI_DATA15 of instance: csi
    ALT2,
    /// 3: Select mux mode: ALT3 mux port: ENET_RX_DATA00 of instance: enet
    ALT3,
    /// 4: Select mux mode: ALT4 mux port: FLEXIO2_FLEXIO20 of instance: flexio2
    ALT4,
    /// 5: Select mux mode: ALT5 mux port: GPIO2_IO20 of instance: gpio2
    ALT5,
    /// 8: Select mux mode: ALT8 mux port: GPT1_CLK of instance: gpt1
    ALT8,
    /// 9: Select mux mode: ALT9 mux port: FLEXIO3_FLEXIO20 of instance: flexio3
    ALT9,
}

impl MUX_MODE_A {
    /// The field value that selects this mode.
    pub open spec fn code(self) -> u8 {
        match self {
            MUX_MODE_A::ALT0 => 0,
            MUX_MODE_A::ALT1 => 1,
            MUX_MODE_A::ALT2 => 2,
            MUX_MODE_A::ALT3 => 3,
            MUX_MODE_A::ALT4 => 4,
            MUX_MODE_A::ALT5 => 5,
            MUX_MODE_A::ALT8 => 8,
            MUX_MODE_A::ALT9 => 9,
        }
    }
}

/// Whether a value of the field `MUX_MODE` names a mode.
pub open spec fn names_mux_mode(bits: u8) -> bool {
    bits <= 5 || bits == 8 || bits == 9
}

impl From<MUX_MODE_A> for u8 {
    #[inline(always)]
    fn from(variant: MUX_MODE_A) -> (bits: u8) {
        match variant {
            MUX_MODE_A::ALT0 => 0,
            MUX_MODE_A::ALT1 => 1,
            MUX_MODE_A::ALT2 => 2,
            MUX_MODE_A::ALT3 => 3,
            MUX_MODE_A::ALT4 => 4,
            MUX_MODE_A::ALT5 => 5,
            MUX_MODE_A::ALT8 => 8,
            MUX_MODE_A::ALT9 => 9,
        }
    }
}

impl vstd::std_specs::convert::FromSpecImpl<MUX_MODE_A> for u8 {
    open spec fn obeys_from_spec() -> bool {
        true
    }

    open spec fn from_spec(variant: MUX_MODE_A) -> u8 {
        variant.code()
    }
}

/// Reader of field `MUX_MODE`
#[derive(Clone, Copy, Debug, PartialEq, Eq, Structural)]
pub struct MUX_MODE_R {
    pub bits: u8,
}

impl MUX_MODE_R {
    /// A reader that holds the given field value.
    #[inline(always)]
    pub fn new(bits: u8) -> (r: Self)
        ensures
            r.bits == bits,
    {
        MUX_MODE_R { bits }
    }

    /// Get enumerated values variant
    #[inline(always)]
    pub fn variant(&self) -> (r: Variant<u8, MUX_MODE_A>)
        ensures
            names_mux_mode(self.bits) <==> r is Val,
            r matches Variant::Val(mode) ==> mode.code() == self.bits,
            r matches Variant::Res(raw) ==> raw == self.bits,
    {
        match self.bits {
            0 => Variant::Val(MUX_MODE_A::ALT0),
            1 => Variant::Val(MUX_MODE_A::ALT1),
            2 => Variant::Val(MUX_MODE_A::ALT2),
            3 => Variant::Val(MUX_MODE_A::ALT3),
            4 => Variant::Val(MUX_MODE_A::ALT4),
            5 => Variant::Val(MUX_MODE_A::ALT5),
            8 => Variant::Val(MUX_MODE_A::ALT8),
            9 => Variant::Val(MUX_MODE_A::ALT9),
            i => Variant::Res(i),
        }
    }

    /// Checks if the value of the field is `ALT0`
    #[inline(always)]
    pub fn is_alt0(&self) -> (r: bool)
        ensures
            r == (self.bits == MUX_MODE_A::ALT0.code()),
    {
        self.bits == u8::from(MUX_MODE_A::ALT0)
    }

    /// Checks if the value of the field is `ALT1`
    #[inline(always)]
    pub fn is_alt1(&self) -> (r: bool)
        ensures
            r == (self.bits == MUX_MODE_A::ALT1.code()),
    {
        self.bits == u8::from(MUX_MODE_A::ALT1)
    }

    /// Checks if the value of the field is `ALT2`
    #[inline(always)]
    pub fn is_alt2(&self) -> (r: bool)
        ensures
            r == (self.bits == MUX_MODE_A::ALT2.code()),
    {
        self.bits == u8::from(MUX_MODE_A::ALT2)
    }

    /// Checks if the value of the field is `ALT3`
    #[inline(always)]
    pub fn is_alt3(&self) -> (r: bool)
        ensures
            r == (self.bits == MUX_MODE_A::ALT3.code()),
    {
        self.bits == u8::from(MUX_MODE_A::ALT3)
    }

    /// Checks if the value of the field is `ALT4`
    #[inline(always)]
    pub fn is_alt4(&self) -> (r: bool)
        ensures
            r == (self.bits == MUX_MODE_A::ALT4.code()),
    {
        self.bits == u8::from(MUX_MODE_A::ALT4)
    }

    /// Checks if the value of the field is `ALT5`
    #[inline(always)]
    pub fn is_alt5(&self) -> (r: bool)
        ensures
            r == (self.bits == MUX_MODE_A::ALT5.code()),
    {
        self.bits == u8::from(MUX_MODE_A::ALT5)
    }

    /// Checks if the value of the field is `ALT8`
    #[inline(always)]
    pub fn is_alt8(&self) -> (r: bool)
        ensures
            r == (self.bits == MUX_MODE_A::ALT8.code()),
    {
        self.bits == u8::from(MUX_MODE_A::ALT8)
    }

    /// Checks if the value of the field is `ALT9`
    #[inline(always)]
    pub fn is_alt9(&self) -> (r: bool)
        ensures
            r == (self.bits == MUX_MODE_A::ALT9.code()),
    {
        self.bits == u8::from(MUX_MODE_A::ALT9)
    }
}

/// The register value that results from writing `value` to the field
/// `MUX_MODE` of a register that held `bits`: bits 0:3 are replaced, every
/// other bit is kept.
pub open spec fn with_mux_mode(bits: u32, value: u8) -> u32 {
    (bits & !0x0fu32) | ((value as u32) & 0x0fu32)
}

/// The register value that results from writing `value` to the field `SION`
/// of a register that held `bits`: bit 4 is replaced, every other bit is
/// kept.
pub open spec fn with_sion(bits: u32, value: bool) -> u32 {
    (bits & !(0x01u32 << 4)) | ((if value { 1u32 } else { 0u32 } & 0x01u32) << 4)
}

/// Write proxy for field `MUX_MODE`
pub struct MUX_MODE_W<'a> {
    pub w: &'a mut W,
}

impl<'a> MUX_MODE_W<'a> {
    /// Writes `variant` to the field
    #[inline(always)]
    pub fn variant(self, variant: MUX_MODE_A) -> (w: &'a mut W)
        ensures
            w.bits == with_mux_mode(old(self.w).bits, variant.code()),
            *final(self.w) == *final(w),
    {
        self.bits(u8::from(variant))
    }

    /// Select mux mode: ALT0 mux port: LCD_DATA16 of instance: lcdif
    #[inline(always)]
    pub fn alt0(self) -> (w: &'a mut W)
        ensures
            w.bits == with_mux_mode(old(self.w).bits, 0),
            *final(self.w) == *final(w),
    {
        self.variant(MUX_MODE_A::ALT0)
    }

    /// Select mux mode: ALT1 mux port: LPSPI4_PCS0 of instance: lpspi4
    #[inline(always)]
    pub fn alt1(self) -> (w: &'a mut W)
        ensures
            w.bits == with_mux_mode(old(self.w).bits, 1),
            *final(self.w) == *final(w),
    {
        self.variant(MUX_MODE_A::ALT1)
    }

    /// Select mux mode: ALT2 mux port: CSI_DATA15 of instance: csi
    #[inline(always)]
    pub fn alt2(self) -> (w: &'a mut W)
        ensures
            w.bits == with_mux_mode(old(self.w).bits, 2),
            *final(self.w) == *final(w),
    {
        self.variant(MUX_MODE_A::ALT2)
    }

    /// Select mux mode: ALT3 mux port: ENET_RX_DATA00 of instance: enet
    #[inline(always)]
    pub fn alt3(self) -> (w: &'a mut W)
        ensures
            w.bits == with_mux_mode(old(self.w).bits, 3),
            *final(self.w) == *final(w),
    {
        self.variant(MUX_MODE_A::ALT3)
    }

    /// Select mux mode: ALT4 mux port: FLEXIO2_FLEXIO20 of instance: flexio2
    #[inline(always)]
    pub fn alt4(self) -> (w: &'a mut W)
        ensures
            w.bits == with_mux_mode(old(self.w).bits, 4),
            *final(self.w) == *final(w),
    {
        self.variant(MUX_MODE_A::ALT4)
    }

    /// Select mux mode: ALT5 mux port: GPIO2_IO20 of instance: gpio2
    #[inline(always)]
    pub fn alt5(self) -> (w: &'a mut W)
        ensures
            w.bits == with_mux_mode(old(self.w).bits, 5),
            *final(self.w) == *final(w),
    {
        self.variant(MUX_MODE_A::ALT5)
    }

    /// Select mux mode: ALT8 mux port: GPT1_CLK of instance: gpt1
    #[inline(always)]
    pub fn alt8(self) -> (w: &'a mut W)
        ensures
            w.bits == with_mux_mode(old(self.w).bits, 8),
            *final(self.w) == *final(w),
    {
        self.variant(MUX_MODE_A::ALT8)
    }

    /// Select mux mode: ALT9 mux port: FLEXIO3_FLEXIO20 of instance: flexio3
    #[inline(always)]
    pub fn alt9(self) -> (w: &'a mut W)
        ensures
            w.bits == with_mux_mode(old(self.w).bits, 9),
            *final(self.w) == *final(w),
    {
        self.variant(MUX_MODE_A::ALT9)
    }

    /// Writes raw bits to the field. Only the low four bits of `value` are
    /// used.
    #[inline(always)]
    pub fn bits(self, value: u8) -> (w: &'a mut W)
        ensures
            w.bits == with_mux_mode(old(self.w).bits, value),
            *final(self.w) == *final(w),
    {
        let MUX_MODE_W { w } = self;
        w.bits = (w.bits & !0x0fu32) | ((value as u32) & 0x0fu32);
        w
    }
}

/// Software Input On Field.
///
/// Value on reset: 0
#[derive(Clone, Copy, Debug, PartialEq, Eq, Structural)]
pub enum SION_A {
    /// 0: Input Path is determined by functionality
    DISABLED,
    /// 1: Force input path of pad GPIO_B1_04
    ENABLED,
}

impl SION_A {
    /// The value of the field bit that selects this setting.
    pub open spec fn bit(self) -> bool {
        self == SION_A::ENABLED
    }
}

impl From<SION_A> for bool {
    #[inline(always)]
    fn from(variant: SION_A) -> (bit: bool) {
        match variant {
            SION_A::DISABLED => false,
            SION_A::ENABLED => true,
        }
    }
}

impl vstd::std_specs::convert::FromSpecImpl<SION_A> for bool {
    open spec fn obeys_from_spec() -> bool {
        true
    }

    open spec fn from_spec(variant: SION_A) -> bool {
        variant.bit()
    }
}

/// Reader of field `SION`
#[derive(Clone, Copy, Debug, PartialEq, Eq, Structural)]
pub struct SION_R {
    pub bits: bool,
}

impl SION_R {
    /// A reader that holds the given field bit.
    #[inline(always)]
    pub fn new(bits: bool) -> (r: Self)
        ensures
            r.bits == bits,
    {
        SION_R { bits }
    }

    /// Get enumerated values variant
    #[inline(always)]
    pub fn variant(&self) -> (r: SION_A)
        ensures
            r.bit() == self.bits,
    {
        match self.bits {
            false => SION_A::DISABLED,
            true => SION_A::ENABLED,
        }
    }

    /// Checks if the value of the field is `DISABLED`
    #[inline(always)]
    pub fn is_disabled(&self) -> (r: bool)
        ensures
            r == !self.bits,
    {
        self.bits == bool::from(SION_A::DISABLED)
    }

    /// Checks if the value of the field is `ENABLED`
    #[inline(always)]
    pub fn is_enabled(&self) -> (r: bool)
        ensures
            r == self.bits,
    {
        self.bits == bool::from(SION_A::ENABLED)
    }
}

/// Write proxy for field `SION`
pub struct SION_W<'a> {
    pub w: &'a mut W,
}

impl<'a> SION_W<'a> {
    /// Writes `variant` to the field
    #[inline(always)]
    pub fn variant(self, variant: SION_A) -> (w: &'a mut W)
        ensures
            w.bits == with_sion(old(self.w).bits, variant.bit()),
            *final(self.w) == *final(w),
    {
        self.bit(bool::from(variant))
    }

    /// Input Path is determined by functionality
    #[inline(always)]
    pub fn disabled(self) -> (w: &'a mut W)
        ensures
            w.bits == with_sion(old(self.w).bits, false),
            *final(self.w) == *final(w),
    {
        self.variant(SION_A::DISABLED)
    }

    /// Force input path of pad GPIO_B1_04
    #[inline(always)]
    pub fn enabled(self) -> (w: &'a mut W)
        ensures
            w.bits == with_sion(old(self.w).bits, true),
            *final(self.w) == *final(w),
    {
        self.variant(SION_A::ENABLED)
    }

    /// Sets the field bit
    #[inline(always)]
    pub fn set_bit(self) -> (w: &'a mut W)
        ensures
            w.bits == with_sion(old(self.w).bits, true),
            *final(self.w) == *final(w),
    {
        self.bit(true)
    }

    /// Clears the field bit
    #[inline(always)]
    pub fn clear_bit(self) -> (w: &'a mut W)
        ensures
            w.bits == with_sion(old(self.w).bits, false),
            *final(self.w) == *final(w),
    {
        self.bit(false)
    }

    /// Writes raw bits to the field
    #[inline(always)]
    pub fn bit(self, value: bool) -> (w: &'a mut W)
        ensures
            w.bits == with_sion(old(self.w).bits, value),
            *final(self.w) == *final(w),
    {
        let SION_W { w } = self;
        let raw: u32 = if value { 1 } else { 0 };
        w.bits = (w.bits & !(0x01u32 << 4)) | ((raw & 0x01u32) << 4);
        w
    }
}

impl R {
    /// A reader of the given register value.
    #[inline(always)]
    pub fn new(bits: u32) -> (r: Self)
        ensures
            r.bits == bits,
    {
        R { bits }
    }

    /// Bits 0:3 - MUX Mode Select Field.
    #[inline(always)]
    pub fn mux_mode(&self) -> (r: MUX_MODE_R)
        ensures
            r.bits == self.bits & 0x0fu32,
    {
        let bits: u32 = self.bits;
        let field: u32 = bits & 0x0fu32;
        assert(field < 256) by (bit_vector)
            requires
                field == bits & 0x0fu32,
        ;
        MUX_MODE_R::new(field as u8)
    }

    /// Bit 4 - Software Input On Field.
    #[inline(always)]
    pub fn sion(&self) -> (r: SION_R)
        ensures
            r.bits == (((self.bits >> 4) & 0x01u32) != 0),
    {
        SION_R::new(((self.bits >> 4) & 0x01u32) != 0)
    }
}

impl W {
    /// A writer that starts from the given register value.
    #[inline(always)]
    pub fn new(bits: u32) -> (w: Self)
        ensures
            w.bits == bits,
    {
        W { bits }
    }

    /// Bits 0:3 - MUX Mode Select Field.
    #[inline(always)]
    pub fn mux_mode(&mut self) -> (p: MUX_MODE_W<'_>)
        ensures
            *p.w == *old(self),
            *final(self) == *final(p.w),
    {
        MUX_MODE_W { w: self }
    }

    /// Bit 4 - Software Input On Field.
    #[inline(always)]
    pub fn sion(&mut self) -> (p: SION_W<'_>)
        ensures
            *p.w == *old(self),
            *final(self) == *final(p.w),
    {
        SION_W { w: self }
    }
}

/// A write to the field `MUX_MODE` is read back as written, and leaves the
/// field `SION` and the reserved bits as they were.
pub proof fn lemma_mux_mode_write_read(bits: u32, value: u8)
    requires
        value <= 0x0f,
    ensures
        with_mux_mode(bits, value) & 0x0fu32 == value,
        with_mux_mode(bits, value) & !0x0fu32 == bits & !0x0fu32,
        (with_mux_mode(bits, value) >> 4) & 0x01u32 == (bits >> 4) & 0x01u32,
{
    let v: u32 = value as u32;
    let n: u32 = (bits & !0x0fu32) | (v & 0x0fu32);
    assert(n & 0x0fu32 == v && n & !0x0fu32 == bits & !0x0fu32 && (n >> 4) & 0x01u32 == (bits >> 4)
        & 0x01u32) by (bit_vector)
        requires
            v <= 0x0f,
            n == (bits & !0x0fu32) | (v & 0x0fu32),
    ;
}

/// A write to the field `SION` is read back as written, and leaves the
/// field `MUX_MODE` and the reserved bits as they were.
pub proof fn lemma_sion_write_read(bits: u32, value: bool)
    ensures
        (((with_sion(bits, value) >> 4) & 0x01u32) != 0) == value,
        with_sion(bits, value) & !0x10u32 == bits & !0x10u32,
        with_sion(bits, value) & 0x0fu32 == bits & 0x0fu32,
{
    let raw: u32 = if value { 1u32 } else { 0u32 };
    let n: u32 = (bits & !(0x01u32 << 4)) | ((raw & 0x01u32) << 4);
    assert(((n >> 4) & 0x01u32) == raw && n & !0x10u32 == bits & !0x10u32 && n & 0x0fu32 == bits
        & 0x0fu32) by (bit_vector)
        requires
            raw <= 1,
            n == (bits & !(0x01u32 << 4)) | ((raw & 0x01u32) << 4),
    ;
}

} // verus!
