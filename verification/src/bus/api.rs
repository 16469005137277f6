use vstd::array::spec_array_update;
use vstd::prelude::*;

use crate::bus::interface::{after_read_at, answer, answered, replay};
use crate::bus::types::{Bus, Context, Data, Reach};
use crate::cartridge;
use crate::cartridge::loader::{refusal, LoadError};
use crate::controller;
use crate::controller::Controller;
use crate::mos;
use crate::mos::types::Access;
use crate::ppu;
use crate::ppu::render::{beam_ticked, lemma_ticked_beam, raises_nmi, same_beam, screen_ticked, ticked};
use crate::ppu::types::PPU;

verus! {

//  The transfer to the sprite memory

/// A transfer to the sprite memory as far as its own steps go.
pub struct Transfer {
    /// The half steps done, or -1 while the transfer waits.
    pub cycle: int,
    /// The byte that is read and not yet written.
    pub byte: u8,
    /// The transfer is under way.
    pub hold: bool,
    /// The sprite memory.
    pub oam: Seq<u8>,
}

/// One step of a transfer. A transfer that waits begins. An even half step reads
/// the byte `read` from the page, the odd one behind it writes that byte to the sprite
/// memory in the same place; with the last byte written the transfer is over.
pub open spec fn transfer_step(t: Transfer, read: u8) -> Transfer {
    if t.cycle < 0 {
        Transfer { cycle: t.cycle + 1, ..t }
    } else if t.cycle % 2 == 0 {
        Transfer { cycle: t.cycle + 1, byte: read, ..t }
    } else {
        Transfer {
            cycle: t.cycle + 1,
            hold: t.cycle / 2 != 255,
            oam: t.oam.update(t.cycle / 2, t.byte),
            ..t
        }
    }
}

/// A transfer after `n` steps, where the page holds `source`.
pub open spec fn transfer_run(t: Transfer, source: Seq<u8>, n: nat) -> Transfer
    decreases n,
{
    if n == 0 {
        t
    } else {
        let before = transfer_run(t, source, (n - 1) as nat);
        transfer_step(before, source[before.cycle / 2])
    }
}

/// How far a transfer has come after `n` steps.
proof fn lemma_transfer_progress(t: Transfer, source: Seq<u8>, n: nat)
    requires
        t.hold,
        t.cycle == 0 || t.cycle == -1,
        source.len() == 256,
        t.oam.len() == 256,
        t.cycle + n <= 512,
    ensures
        ({
            let r = transfer_run(t, source, n);
            &&& r.cycle == t.cycle + n
            &&& r.oam.len() == 256
            &&& r.hold == (r.cycle < 512)
            &&& r.cycle >= 0 && r.cycle % 2 == 1 ==> r.byte == source[r.cycle / 2]
            &&& forall|j: int| 0 <= j < r.cycle / 2 ==> r.oam[j] == source[j]
        }),
    decreases n,
{
    if n > 0 {
        lemma_transfer_progress(t, source, (n - 1) as nat);
    }
}

/// A transfer copies the 256 bytes of its page to the sprite memory in their order.
/// It takes 512 steps, and one more where it has to wait for an even cycle, and it holds
/// the processor until the last of them.
pub proof fn lemma_transfer_copies(t: Transfer, source: Seq<u8>)
    requires
        t.hold,
        t.cycle == 0 || t.cycle == -1,
        source.len() == 256,
        t.oam.len() == 256,
    ensures
        transfer_run(t, source, (512 - t.cycle) as nat).oam == source,
        !transfer_run(t, source, (512 - t.cycle) as nat).hold,
        forall|n: nat| n < 512 - t.cycle ==> (#[trigger] transfer_run(t, source, n)).hold,
{
    lemma_transfer_progress(t, source, (512 - t.cycle) as nat);
    assert(transfer_run(t, source, (512 - t.cycle) as nat).oam =~= source);
    assert forall|n: nat| n < 512 - t.cycle implies (#[trigger] transfer_run(t, source, n)).hold by {
        lemma_transfer_progress(t, source, n);
    }
}

//  The beam

/// The ticks that the frame has left when the beam is at dot `cycle` of line
/// `scanline`. A frame has 262 lines of 341 dots, and a tick moves the beam by one dot,
/// but by two from the first dot of the first line.
pub open spec fn ticks_left(scanline: int, cycle: int) -> int {
    let dot = (scanline + 1) * 341 + cycle;
    if dot <= 341 {
        262 * 341 - 1 - dot
    } else {
        262 * 341 - dot
    }
}

/// A tick that does not complete the frame leaves one tick less to it, and the tick
/// that completes it is the last one left and puts the beam at the start of the line
/// before the first.
pub proof fn lemma_tick_counts(c: ppu::types::Context)
    requires
        -1 <= c.scanline <= 260,
        0 <= c.cycle <= 340,
        !c.complete,
    ensures
        ticks_left(c.scanline as int, c.cycle as int) > 0,
        beam_ticked(c).complete ==> {
            &&& ticks_left(c.scanline as int, c.cycle as int) == 1
            &&& beam_ticked(c).scanline == -1
            &&& beam_ticked(c).cycle == 0
        },
        !beam_ticked(c).complete ==> {
            &&& ticks_left(beam_ticked(c).scanline as int, beam_ticked(c).cycle as int) == ticks_left(
                c.scanline as int,
                c.cycle as int,
            ) - 1
            &&& ticks_left(beam_ticked(c).scanline as int, beam_ticked(c).cycle as int) > 0
        },
{
}

/// A tick behind `n` ticks makes `n + 1` ticks.
proof fn lemma_one_more_tick(first: Bus, mid: Bus, last: Bus, n: nat)
    requires
        first.ticked_times(&mid, n),
        mid.ticked_to(&last),
    ensures
        first.ticked_times(&last, n + 1),
{
    assert((n + 1 - 1) as nat == n);
}

/// A clock that has counted `k` ticks counts one more.
proof fn lemma_clock_counts(base: u64, k: int, clock: u64)
    requires
        0 <= k,
        clock == (base + k) % 0x1_0000_0000_0000_0000,
    ensures
        clock.wrapping_add(1) == (base + k + 1) % 0x1_0000_0000_0000_0000,
{
}

impl Bus {
    /// The transfer to the sprite memory that the bus holds.
    pub open spec fn transfer(&self) -> Transfer {
        Transfer {
            cycle: self.context.dma_cycle as int,
            byte: self.context.dma_byte,
            hold: self.context.dma_hold,
            oam: self.ppu.oam_data@,
        }
    }

    /// The address that the transfer reads next.
    pub open spec fn dma_source(&self) -> u16 {
        (0x100 * self.context.dma_page + self.context.dma_cycle / 2) as u16
    }

    /// `after` is the bus one step of its transfer later. A transfer that waits
    /// begins. The step that reads is a read of the processor's side like every other, and
    /// what it gets is kept; the step that writes puts that byte into the sprite memory.
    /// No step touches the processor.
    pub open spec fn dma_stepped(&self, after: &Bus) -> bool {
        let cycle = self.context.dma_cycle;
        &&& after.reach() == (if cycle < 0 {
            Reach { context: Context { dma_cycle: (cycle + 1) as i32, ..self.context }, ..self.reach() }
        } else if cycle % 2 == 0 {
            let read = after_read_at(self.reach(), self.dma_source());
            Reach {
                context: Context {
                    dma_byte: answer(self.reach(), self.dma_source()),
                    dma_cycle: (cycle + 1) as i32,
                    ..self.context
                },
                ..read
            }
        } else {
            Reach {
                ppu: PPU {
                    oam_data: spec_array_update(self.ppu.oam_data, cycle as int / 2, self.context.dma_byte),
                    ..self.ppu
                },
                context: Context {
                    dma_cycle: (cycle + 1) as i32,
                    dma_hold: cycle / 2 != 255,
                    ..self.context
                },
                ..self.reach()
            }
        })
        &&& after.transfer() == transfer_step(self.transfer(), answer(self.reach(), self.dma_source()))
        &&& after.cpu == self.cpu
        &&& after.data.display@ == self.data.display@
        &&& after.cart.header == self.cart.header
        &&& after.nmi_line == self.nmi_line
        &&& after.wf()
    }

    /// The bus with its trace empty and its present state for the origin.
    pub open spec fn anchored_here(&self) -> Bus {
        Bus { trace: Ghost(Seq::empty()), origin: Ghost(self.reach()), ..*self }
    }

    /// `after` is the bus once the processor has had its turn: a step of the
    /// transfer while one is under way, else a tick of the processor. The trace of `after`
    /// holds the accesses of that tick, each read of them has got what the bus held for it,
    /// and what the processor can reach is what these accesses leave.
    pub open spec fn cpu_slot(&self, after: &Bus) -> bool {
        if self.context.dma_hold {
            self.dma_stepped(after)
        } else {
            &&& mos::primitive::ticked(&self.anchored_here(), after)
            &&& after.reach() == replay(self.reach(), after.trace@)
            &&& answered(self.reach(), after.trace@)
        }
    }

    /// `after` is the bus once the picture unit has ticked: the unit and the screen
    /// are as the tick leaves them, the interrupt line is pulled where the tick asks for
    /// the interrupt, and nothing else has changed.
    pub open spec fn ppu_slot(&self, after: &Bus) -> bool {
        &&& after.ppu@ == ticked(self.ppu@, self.video_view())
        &&& after.data.display@ == screen_ticked(self.data.display@, self.ppu@, self.video_view())
        &&& after.video_view() == self.video_view()
        &&& after.nmi_line == (self.nmi_line || raises_nmi(self.ppu@))
        &&& after.ppu_frozen() == self.ppu_frozen()
        &&& after.wf()
    }

    /// `after` is the bus once the processor has answered the interrupt line: where
    /// the line is pulled, the processor enters the handler and the line is released. The
    /// trace of `after` holds the accesses of the entry, and what the processor can reach is
    /// what these accesses leave.
    pub open spec fn nmi_slot(&self, after: &Bus) -> bool {
        if self.nmi_line {
            let released = Bus { nmi_line: false, ..self.anchored_here() };
            let o = mos::instructions::interrupt(self.cpu, 0xFFFA, after.trace@, 0);
            &&& after.trace@ =~= o.accesses
            &&& after.cpu == o.mos
            &&& after.cpu_frozen() == released.cpu_frozen()
            &&& after.reach() == replay(self.reach(), after.trace@)
            &&& answered(self.reach(), after.trace@)
            &&& after.wf()
        } else {
            *after == *self
        }
    }

    /// `after` is `self` a tick of the master clock later, by way of `a`, `b` and `c`:
    /// the processor has its turn with every third tick, then the picture unit ticks, then
    /// the processor answers the interrupt line, and the clock counts the tick.
    pub open spec fn tick_via(&self, a: &Bus, b: &Bus, c: &Bus, after: &Bus) -> bool {
        &&& if self.context.clock % 3 == 0 {
            self.cpu_slot(a)
        } else {
            *a == *self
        }
        &&& a.ppu_slot(b)
        &&& b.nmi_slot(c)
        &&& *after == (Bus {
            context: Context { clock: c.context.clock.wrapping_add(1), ..c.context },
            ..*c
        })
    }

    /// Whether the console is well-formed, which every operation on it asks for and
    /// keeps.
    pub fn intact(&self) -> (ok: bool)
        ensures
            ok == self.wf(),
    {
        self.cart.intact() && -1 <= self.context.dma_cycle && self.context.dma_cycle <= 512 && (
        !self.context.dma_hold || self.context.dma_cycle < 512) && self.ppu.intact()
    }

    /// Forgets the accesses made so far: the trace is empty again, and the present
    /// state is its origin.
    pub fn anchor(&mut self)
        ensures
            *final(self) == old(self).anchored_here(),
            final(self).anchored(),
    {
        proof {
            self.origin@ = self.reach();
            self.trace@ = Seq::empty();
        }
    }

    /// Copies the picture.
    pub fn copy_to_screen(&self, screen: &mut [u8; 61440])
        ensures
            *final(screen) == self.data.display,
    {
        *screen = self.data.display;
    }

    /// `after` is `self` a tick of the master clock later.
    #[verifier::opaque]
    pub open spec fn ticked_to(&self, after: &Bus) -> bool {
        exists|a: Bus, b: Bus, c: Bus| #[trigger] self.tick_via(&a, &b, &c, after)
    }

    /// `after` is `self` `n` ticks of the master clock later.
    pub open spec fn ticked_times(&self, after: &Bus, n: nat) -> bool
        decreases n,
    {
        if n == 0 {
            *after == *self
        } else {
            exists|mid: Bus| self.ticked_times(&mid, (n - 1) as nat) && #[trigger] mid.ticked_to(after)
        }
    }

    /// The bus with the note taken that the frame is complete.
    pub open spec fn noted(&self) -> Bus {
        Bus {
            ppu: PPU { context: ppu::types::Context { complete: false, ..self.ppu.context }, ..self.ppu },
            ..*self
        }
    }

    pub fn set_controller_a(&mut self, state: u8)
        ensures
            *final(self) == (Bus {
                controller_a: Controller { live_data: state, ..old(self).controller_a },
                ..*old(self)
            }),
    {
        self.controller_a.write_live(state);
    }

    pub fn set_controller_b(&mut self, state: u8)
        ensures
            *final(self) == (Bus {
                controller_b: Controller { live_data: state, ..old(self).controller_b },
                ..*old(self)
            }),
    {
        self.controller_b.write_live(state);
    }

    fn tick_dma_r(&mut self, offset: u16)
        requires
            old(self).wf(),
            old(self).context.dma_hold,
            0 <= old(self).context.dma_cycle < 512,
            old(self).context.dma_cycle % 2 == 0,
            offset == old(self).context.dma_cycle / 2,
        ensures
            old(self).dma_stepped(final(self)),
    {
        let page = self.context.dma_page as u16;
        let address = 0x100 * page + offset;
        self.anchor();
        let byte = mos::types::Bus::read_byte(self, address);
        self.context.dma_byte = byte;
        self.context.dma_cycle += 1;
    }

    fn tick_dma_w(&mut self, offset: u16)
        requires
            old(self).wf(),
            old(self).context.dma_hold,
            0 <= old(self).context.dma_cycle < 512,
            old(self).context.dma_cycle % 2 == 1,
            offset == old(self).context.dma_cycle / 2,
        ensures
            old(self).dma_stepped(final(self)),
    {
        let byte = self.context.dma_byte;
        ppu::interface::dma_port(self, offset, byte);
        self.context.dma_cycle += 1;
        if offset == 255 {
            self.context.dma_hold = false;
        }
    }

    fn tick_dma(&mut self)
        requires
            old(self).wf(),
            old(self).context.dma_hold,
            old(self).context.dma_cycle < 512,
        ensures
            old(self).dma_stepped(final(self)),
    {
        let dma_cycle = self.context.dma_cycle;
        if dma_cycle < 0 {
            self.context.dma_cycle = dma_cycle + 1;
        } else {
            let offset = dma_cycle / 2;
            if dma_cycle % 2 == 0 {
                self.tick_dma_r(offset as u16);
            } else {
                self.tick_dma_w(offset as u16);
            }
        }
    }

    fn tick_cpu(&mut self)
        requires
            old(self).wf(),
        ensures
            old(self).cpu_slot(final(self)),
            final(self).wf(),
            same_beam(final(self).ppu.context, old(self).ppu.context),
            final(self).context.clock == old(self).context.clock,
            final(self).data.display@ == old(self).data.display@,
            final(self).nmi_line == old(self).nmi_line,
            final(self).cart.header == old(self).cart.header,
    {
        let dma_hold = self.context.dma_hold;
        if dma_hold {
            self.tick_dma();
        } else {
            self.anchor();
            mos::primitive::tick(self);
        }
    }

    fn tick_ppu(&mut self)
        requires
            old(self).wf(),
        ensures
            old(self).ppu_slot(final(self)),
            final(self).wf(),
    {
        ppu::render::tick(self);
    }

    /// Lets the processor answer the interrupt line.
    fn tick_nmi(&mut self)
        requires
            old(self).wf(),
        ensures
            old(self).nmi_slot(final(self)),
            final(self).wf(),
            !final(self).nmi_line,
            same_beam(final(self).ppu.context, old(self).ppu.context),
            final(self).context.clock == old(self).context.clock,
    {
        if self.nmi_line {
            self.nmi_line = false;
            self.anchor();
            mos::instructions::nmi(self);
        }
    }

    /// Advances the console by one tick of the master clock.
    pub fn tick(&mut self)
        requires
            old(self).wf(),
        ensures
            old(self).ticked_to(final(self)),
            same_beam(final(self).ppu.context, beam_ticked(old(self).ppu.context)),
            final(self).context.clock == old(self).context.clock.wrapping_add(1),
            final(self).wf(),
    {
        let clock = self.context.clock;
        if clock % 3 == 0 {
            self.tick_cpu();
        }
        let ghost a = *self;
        self.tick_ppu();
        let ghost b = *self;
        self.tick_nmi();
        let ghost c = *self;
        self.context.clock = clock.wrapping_add(1);
        proof {
            lemma_ticked_beam(a.ppu@, a.video_view());
            assert(old(self).tick_via(&a, &b, &c, self));
            reveal(Bus::ticked_to);
        }
    }

    /// Ticks until the picture unit has completed a frame, and takes note of it: the
    /// console is ticked as often as the frame has ticks left, which puts the beam at the
    /// start of the line before the first. Where the frame that is under way was completed
    /// before and nobody took note, nothing is ticked.
    pub fn frame(&mut self)
        requires
            old(self).wf(),
        ensures
            final(self).wf(),
            !final(self).ppu.context.complete,
            !old(self).ppu.context.complete ==> exists|last: Bus|
                {
                    &&& #[trigger] old(self).ticked_times(
                        &last,
                        ticks_left(
                            old(self).ppu.context.scanline as int,
                            old(self).ppu.context.cycle as int,
                        ) as nat,
                    )
                    &&& *final(self) == last.noted()
                },
            old(self).ppu.context.complete ==> *final(self) == old(self).noted(),
            !old(self).ppu.context.complete ==> {
                &&& final(self).ppu.context.scanline == -1
                &&& final(self).ppu.context.cycle == 0
                &&& final(self).context.clock as int == (old(self).context.clock + ticks_left(
                    old(self).ppu.context.scanline as int,
                    old(self).ppu.context.cycle as int,
                )) % 0x1_0000_0000_0000_0000
            },
            old(self).ppu.context.complete ==> {
                &&& final(self).ppu.context.scanline == old(self).ppu.context.scanline
                &&& final(self).ppu.context.cycle == old(self).ppu.context.cycle
                &&& final(self).context.clock == old(self).context.clock
            },
    {
        let ghost start = ticks_left(self.ppu.context.scanline as int, self.ppu.context.cycle as int);
        while !self.ppu.context.complete
            invariant
                self.wf(),
                start == ticks_left(
                    old(self).ppu.context.scanline as int,
                    old(self).ppu.context.cycle as int,
                ),
                old(self).ppu.context.complete ==> *self == *old(self),
                !old(self).ppu.context.complete && !self.ppu.context.complete ==> old(
                    self,
                ).ticked_times(
                    self,
                    (start - ticks_left(
                        self.ppu.context.scanline as int,
                        self.ppu.context.cycle as int,
                    )) as nat,
                ),
                !old(self).ppu.context.complete && self.ppu.context.complete ==> old(
                    self,
                ).ticked_times(self, start as nat),
                !old(self).ppu.context.complete && !self.ppu.context.complete ==> {
                    let left = ticks_left(self.ppu.context.scanline as int, self.ppu.context.cycle as int);
                    &&& 0 < left <= start
                    &&& self.context.clock as int == (old(self).context.clock + start - left)
                        % 0x1_0000_0000_0000_0000
                },
                !old(self).ppu.context.complete && self.ppu.context.complete ==> {
                    &&& self.ppu.context.scanline == -1
                    &&& self.ppu.context.cycle == 0
                    &&& self.context.clock as int == (old(self).context.clock + start)
                        % 0x1_0000_0000_0000_0000
                },
            decreases
                    if self.ppu.context.complete {
                        0
                    } else {
                        ticks_left(self.ppu.context.scanline as int, self.ppu.context.cycle as int)
                    },
        {
            let ghost before = *self;
            self.tick();
            proof {
                lemma_tick_counts(before.ppu.context);
                lemma_clock_counts(
                    old(self).context.clock,
                    start - ticks_left(
                        before.ppu.context.scanline as int,
                        before.ppu.context.cycle as int,
                    ),
                    before.context.clock,
                );
                let done = (start - ticks_left(
                    before.ppu.context.scanline as int,
                    before.ppu.context.cycle as int,
                )) as nat;
                lemma_one_more_tick(*old(self), before, *self, done);
            }
        }
        let ghost last = *self;
        self.complete();
        proof {
            if !old(self).ppu.context.complete {
                assert(old(self).ticked_times(&last, start as nat) && *self == last.noted());
            }
        }
    }

    /// Takes note that the frame is complete: clears the flag that says so.
    pub fn complete(&mut self)
        ensures
            *final(self) == old(self).noted(),
    {
        self.ppu.context.complete = false;
    }

    /// The colour of a pixel of the picture, as an index into the console's palette.
    pub fn get_pixel(&self, x: usize, y: usize) -> (color: u8)
        requires
            x < 256,
            y < 240,
        ensures
            color == self.data.display[y * 256 + x],
    {
        let address = y * 256 + x;
        self.data.display[address]
    }
}

/// Builds a console round the cartridge in the file `rom`. A file that the cartridge
/// loader refuses is refused for its reason. Else the memories are clear, the picture unit
/// is at power-on, the controllers are at rest, and the processor is as a reset leaves
/// it: its program counter comes from the cartridge's vector at 0xFFFC, its stack pointer
/// is three below zero, interrupts are disabled, and seven cycles are owed.
pub fn load(rom: &[u8]) -> (result: Result<Bus, LoadError>)
    ensures
        match result {
            Ok(bus) => {
                &&& refusal(rom@) is None
                &&& bus.wf()
                &&& bus.cart.header == cartridge::loader::header_of(rom@.subrange(4, 16))
                &&& bus.cart.mapper.contents().prg == rom@.subrange(
                    cartridge::loader::trainer_end(bus.cart.header),
                    cartridge::loader::prg_end(bus.cart.header),
                )
                &&& bus.cart.mapper.contents().chr == cartridge::loader::chr_of(rom@, bus.cart.header)
                &&& bus.context == (Context {
                    dma_page: 0,
                    dma_byte: 0,
                    dma_cycle: 0,
                    dma_hold: false,
                    clock: 0,
                })
                &&& ppu::types::power_on(bus.ppu)
                &&& bus.controller_a == (Controller { state_data: 0, live_data: 0 })
                &&& bus.controller_b == (Controller { state_data: 0, live_data: 0 })
                &&& !bus.nmi_line
                &&& forall|i: int| 0 <= i < 0x800 ==> bus.data.cpu_ram[i] == 0
                &&& forall|i: int| 0 <= i < 0x800 ==> bus.data.nt_ram[i] == 0
                &&& forall|i: int| 0 <= i < 0x20 ==> bus.data.pal_ram[i] == 0
                &&& forall|i: int| 0 <= i < 61440 ==> bus.data.display[i] == 0
                &&& bus.cpu.registers.pc == crate::utils::word(
                    bus.cart.mapper.cpu_seen(0xFFFD),
                    bus.cart.mapper.cpu_seen(0xFFFC),
                )
                &&& bus.cpu.registers.sp == 0xFD
                &&& bus.cpu.registers.ps == 0x04
                &&& bus.cpu.cycles == 7
                &&& bus.cpu.clock == 0
                &&& bus.cpu.context == (mos::types::Context {
                    complete: false,
                    decimal_enabled: false,
                    super_instruction: false,
                })
                &&& bus.cpu.registers.acc == 0 && bus.cpu.registers.idx == 0 && bus.cpu.registers.idy
                    == 0
                &&& bus.trace@ == Seq::<Access>::empty()
                &&& bus.anchored()
            },
            Err(e) => refusal(rom@) == Some(e),
        },
{
    let cart = cartridge::loader::load(rom)?;
    let context = Context { dma_page: 0, dma_byte: 0, dma_cycle: 0, dma_hold: false, clock: 0 };
    let mut cpu = mos::types::new();
    cpu.registers.pc = crate::utils::join_bytes(cart.cpu_peek(0xFFFD), cart.cpu_peek(0xFFFC));
    cpu.registers.sp = 0xFD;
    cpu.registers.ps = 0x04;
    cpu.cycles = 7;
    cpu.context.complete = false;
    let ppu = ppu::types::new();
    let data = Data { cpu_ram: [0;0x800], nt_ram: [0;0x800], pal_ram: [0;0x20], display: [0;61440] };
    let controller_a = controller::new();
    let controller_b = controller::new();

    let mut bus = Bus {
        context,
        cpu,
        ppu,
        cart,
        data,
        controller_a,
        controller_b,
        nmi_line: false,
        trace: Ghost(Seq::empty()),
        origin: Ghost(arbitrary()),
    };
    bus.anchor();
    Ok(bus)
}

} // verus!
