use vstd::prelude::*;

verus! {

/// One game pad: the byte that the host keeps up to date and the shift register that
/// the console latches and then drains bit by bit.
///
/// From the most significant bit down the buttons are A, B, Select, Start, Up, Down,
/// Left, Right.
#[derive(Copy, Clone, Debug, PartialEq, Eq, Structural)]
pub struct Controller {
    pub state_data: u8,
    pub live_data: u8,
}

/// Whether the `n`-th read after a strobe, counted from 0, finds a pressed button when
/// `latched` was captured: the reads go from bit 7 down to bit 0.
pub open spec fn button_bit(latched: u8, n: int) -> bool {
    0 <= n < 8 && crate::utils::has_bit(latched as int, crate::utils::pow2_small(7 - n))
}

/// The shift register `n` reads after `latched` was captured.
pub open spec fn drained(latched: u8, n: nat) -> u8
    decreases n,
{
    if n == 0 {
        latched
    } else {
        ((drained(latched, (n - 1) as nat) * 2) % 256) as u8
    }
}

proof fn lemma_shift(x: u8)
    by (bit_vector)
    ensures
        x >> 7 == x / 128,
        x << 1 == (x % 128) * 2,
{
}

impl Controller {
    pub fn reset(&mut self)
        ensures
            final(self).state_data == 0,
            final(self).live_data == 0,
    {
        self.state_data = 0;
        self.live_data = 0;
    }

    /// Hands out the top bit of the shift register and moves the rest up by one.
    pub fn read(&mut self) -> (state: u8)
        ensures
            state == old(self).state_data / 128,
            (state == 1) == button_bit(old(self).state_data, 0),
            state <= 1,
            final(self).state_data == drained(old(self).state_data, 1),
            final(self).live_data == old(self).live_data,
    {
        proof {
            lemma_shift(self.state_data);
            reveal_with_fuel(drained, 2);
            reveal(crate::utils::has_bit);
            crate::utils::lemma_u8_test(self.state_data);
        }
        let state = self.state_data >> 7;
        self.state_data = self.state_data << 1;
        state
    }

    /// The strobe: captures the live byte in the shift register.
    pub fn write(&mut self)
        ensures
            final(self).state_data == old(self).live_data,
            final(self).live_data == old(self).live_data,
    {
        self.state_data = self.live_data;
    }

    pub fn write_live(&mut self, state: u8)
        ensures
            final(self).live_data == state,
            final(self).state_data == old(self).state_data,
    {
        self.live_data = state;
    }
}

pub fn new() -> (controller: Controller)
    ensures
        controller.state_data == 0,
        controller.live_data == 0,
{
    Controller { state_data: 0, live_data: 0 }
}

/// After a strobe the reads hand out the buttons from bit 7 down to bit 0: the `n`-th
/// read, counted from 0, sees the top bit of the register drained `n` times, and that is
/// bit 7 - n of the latched byte.
pub proof fn lemma_read_order(latched: u8, n: nat)
    requires
        n < 8,
    ensures
        (drained(latched, n) / 128 == 1) == button_bit(latched, n as int),
{
    reveal(crate::utils::has_bit);
    lemma_drained_bit(latched, n, 7);
}

/// Draining `k` times moves bit j - k of the latched byte up to bit j.
proof fn lemma_drained_bit(latched: u8, k: nat, j: int)
    requires
        k <= j < 8,
    ensures
        crate::utils::has_bit(drained(latched, k) as int, crate::utils::pow2_small(j))
            == crate::utils::has_bit(latched as int, crate::utils::pow2_small(j - k)),
    decreases k,
{
    reveal(crate::utils::has_bit);
    if k > 0 {
        let before = drained(latched, (k - 1) as nat);
        lemma_shift(before);
        lemma_shift_bits(before);
        assert(drained(latched, k) == before << 1);
        lemma_drained_bit(latched, (k - 1) as nat, j - 1);
    }
}

proof fn lemma_shift_bits(x: u8)
    by (bit_vector)
    ensures
        ((x << 1) / 2) % 2 == (x / 1) % 2,
        ((x << 1) / 4) % 2 == (x / 2) % 2,
        ((x << 1) / 8) % 2 == (x / 4) % 2,
        ((x << 1) / 16) % 2 == (x / 8) % 2,
        ((x << 1) / 32) % 2 == (x / 16) % 2,
        ((x << 1) / 64) % 2 == (x / 32) % 2,
        ((x << 1) / 128) % 2 == (x / 64) % 2,
{
}

} // verus!
