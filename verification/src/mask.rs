//! The mask byte and the four outputs it drives.

use vstd::prelude::*;

verus! {

/// The mask that switches every output on.
pub const ALL_ON: u8 = 0x0f;

/// The mask that switches every output off.
pub const ALL_OFF: u8 = 0x00;

/// Whether bit `i` of `m` is 1, bit 0 being the least significant.
pub open spec fn bit(m: u8, i: u8) -> bool {
    (m >> i) & 1u8 == 1u8
}

/// The four outputs; `true` is on. Which pin level lights an output is left to
/// the board.
#[derive(Clone, Copy, Debug, PartialEq, Eq, Structural)]
pub struct Leds {
    pub led1: bool,
    pub led2: bool,
    pub led3: bool,
    pub led4: bool,
}

impl Leds {
    /// The outputs that a mask asks for: output `i + 1` follows bit `i`.
    pub open spec fn of_mask(m: u8) -> Leds {
        Leds { led1: bit(m, 0), led2: bit(m, 1), led3: bit(m, 2), led4: bit(m, 3) }
    }

    /// All four outputs off.
    pub open spec fn dark() -> Leds {
        Leds { led1: false, led2: false, led3: false, led4: false }
    }

    /// Output `i`, counted from 0; off for an `i` that names no output.
    pub open spec fn output(self, i: int) -> bool {
        if i == 0 {
            self.led1
        } else if i == 1 {
            self.led2
        } else if i == 2 {
            self.led3
        } else if i == 3 {
            self.led4
        } else {
            false
        }
    }

    /// The mask with exactly the bits of the outputs that are on.
    pub open spec fn mask(self) -> u8 {
        (if self.led1 { 1u8 } else { 0u8 }) | (if self.led2 { 2u8 } else { 0u8 })
            | (if self.led3 { 4u8 } else { 0u8 }) | (if self.led4 { 8u8 } else { 0u8 })
    }

    /// Outputs as they are at power-up: all off.
    pub fn new() -> (r: Leds)
        ensures
            r == Leds::dark(),
    {
        Leds { led1: false, led2: false, led3: false, led4: false }
    }

    /// Switches every output off.
    pub fn all_off(&mut self)
        ensures
            *final(self) == Leds::dark(),
    {
        self.led1 = false;
        self.led2 = false;
        self.led3 = false;
        self.led4 = false;
    }

    /// Sets each output from its bit of `mask`; bits 4 to 7 are not looked at.
    pub fn apply_mask(&mut self, mask: u8)
        ensures
            *final(self) == Leds::of_mask(mask),
            forall|i: u8| 0 <= i < 4 ==> final(self).output(i as int) == #[trigger] bit(mask, i),
    {
        assert(((mask & 0x01u8) != 0) == bit(mask, 0)) by (bit_vector);
        assert(((mask & 0x02u8) != 0) == bit(mask, 1)) by (bit_vector);
        assert(((mask & 0x04u8) != 0) == bit(mask, 2)) by (bit_vector);
        assert(((mask & 0x08u8) != 0) == bit(mask, 3)) by (bit_vector);
        self.led1 = (mask & 0x01) != 0;
        self.led2 = (mask & 0x02) != 0;
        self.led3 = (mask & 0x04) != 0;
        self.led4 = (mask & 0x08) != 0;
    }

    /// Whether output `i`, counted from 0, is on.
    pub fn is_on(&self, i: usize) -> (r: bool)
        ensures
            r == self.output(i as int),
    {
        if i == 0 {
            self.led1
        } else if i == 1 {
            self.led2
        } else if i == 2 {
            self.led3
        } else if i == 3 {
            self.led4
        } else {
            false
        }
    }

    /// The mask that would produce these outputs.
    pub fn to_mask(&self) -> (m: u8)
        ensures
            m == self.mask(),
            m <= ALL_ON,
            Leds::of_mask(m) == *self,
    {
        let m = mask_from_toggles(self.led1, self.led2, self.led3, self.led4);
        m
    }
}

/// The mask for four switches: bit `i` is set exactly when switch `i + 1` is on.
pub fn mask_from_toggles(led1: bool, led2: bool, led3: bool, led4: bool) -> (m: u8)
    ensures
        m == (Leds { led1, led2, led3, led4 }).mask(),
        Leds::of_mask(m) == (Leds { led1, led2, led3, led4 }),
        m <= ALL_ON,
{
    let b1: u8 = if led1 { 0x01 } else { 0 };
    let b2: u8 = if led2 { 0x02 } else { 0 };
    let b3: u8 = if led3 { 0x04 } else { 0 };
    let b4: u8 = if led4 { 0x08 } else { 0 };
    let m: u8 = b1 | b2 | b3 | b4;
    proof {
        lemma_mask_round_trip(Leds { led1, led2, led3, led4 });
    }
    m
}

/// The mask of four outputs lights exactly those outputs and uses no bit
/// above bit 3.
pub proof fn lemma_mask_round_trip(leds: Leds)
    ensures
        Leds::of_mask(leds.mask()) == leds,
        leds.mask() <= ALL_ON,
{
    let a: u8 = if leds.led1 { 1u8 } else { 0u8 };
    let b: u8 = if leds.led2 { 2u8 } else { 0u8 };
    let c: u8 = if leds.led3 { 4u8 } else { 0u8 };
    let d: u8 = if leds.led4 { 8u8 } else { 0u8 };
    assert((a == 0 || a == 1) && (b == 0 || b == 2) && (c == 0 || c == 4) && (d == 0 || d == 8)
        ==> {
        let m = a | b | c | d;
        &&& m <= 0x0fu8
        &&& (((m >> 0u8) & 1u8 == 1u8) == (a == 1))
        &&& (((m >> 1u8) & 1u8 == 1u8) == (b == 2))
        &&& (((m >> 2u8) & 1u8 == 1u8) == (c == 4))
        &&& (((m >> 3u8) & 1u8 == 1u8) == (d == 8))
    }) by (bit_vector);
}

/// Bits 4 to 7 of a mask change no output.
pub proof fn lemma_high_bits_ignored(m: u8, n: u8)
    requires
        m & ALL_ON == n & ALL_ON,
    ensures
        Leds::of_mask(m) == Leds::of_mask(n),
{
    assert(m & 0x0fu8 == n & 0x0fu8 ==> {
        &&& ((m >> 0u8) & 1u8 == 1u8) == ((n >> 0u8) & 1u8 == 1u8)
        &&& ((m >> 1u8) & 1u8 == 1u8) == ((n >> 1u8) & 1u8 == 1u8)
        &&& ((m >> 2u8) & 1u8 == 1u8) == ((n >> 2u8) & 1u8 == 1u8)
        &&& ((m >> 3u8) & 1u8 == 1u8) == ((n >> 3u8) & 1u8 == 1u8)
    }) by (bit_vector);
}

} // verus!
