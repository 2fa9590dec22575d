use vstd::prelude::*;
use vstd::string::StringSliceAdditionalSpecFns;

verus! {

/// An x86 I/O port base address; the registers of a device sit at small
/// offsets from it.
#[derive(Clone, Copy, Debug, PartialEq, Eq, Structural)]
pub struct PORT(pub u16);

/// Offset of the line status register from the base of a serial line.
pub const LINE_STATUS: u16 = 5;

/// A one-byte write to an I/O port.
#[derive(Clone, Copy, Debug, PartialEq, Eq, Structural)]
pub struct PortWrite {
    pub port: u16,
    pub value: u8,
}

impl PORT {
    /// The port at base address `port`.
    pub fn new(port: u16) -> (p: Self)
        ensures
            p.0 == port,
    {
        PORT(port)
    }

    /// A port at base address `port` in place of this one.
    pub fn change(&self, port: u16) -> (p: Self)
        ensures
            p.0 == port,
    {
        PORT(port)
    }

    /// The I/O address of the register at `offset` from the base.
    pub fn register(&self, offset: u16) -> (a: u16)
        requires
            self.0 + offset <= u16::MAX,
        ensures
            a == self.0 + offset,
    {
        self.0 + offset
    }

    /// The I/O address of the line status register (offset `LINE_STATUS`),
    /// from which the byte given to `recieved` and `is_transmit_empty` is read.
    pub fn status_port(&self) -> (a: u16)
        requires
            self.0 + LINE_STATUS <= u16::MAX,
        ensures
            a == self.0 + LINE_STATUS,
    {
        self.0 + LINE_STATUS
    }

    /// The data-ready bit (bit 0) of a line status byte read from
    /// `status_port`.
    pub fn recieved(&self, line_status: u8) -> (r: u8)
        ensures
            r == line_status % 2,
    {
        let r: u8 = line_status & 1;
        assert(r == line_status % 2) by (bit_vector)
            requires r == line_status & 1;
        r
    }

    /// The I/O address that a blocking read takes its byte from once data is
    /// ready: the base address added to itself.
    pub fn read_port(&self) -> (a: u16)
        requires
            self.0 + self.0 <= u16::MAX,
        ensures
            a == self.0 + self.0,
    {
        self.0 + self.0
    }
}

/// A configured 16550-compatible serial line.
#[derive(Clone, Copy, Debug, PartialEq, Eq, Structural)]
pub struct Serial {
    pub port: PORT,
}

/// Outcome of a serial operation.
#[derive(Clone, Copy, Debug, PartialEq, Eq, Structural)]
pub enum SerialStatus {
    Success,
}

impl Serial {
    /// Whether a line status byte read from `self.port.status_port()` has the
    /// transmitter-holding-register-empty bit (bit 5) clear; `write` waits
    /// while this holds.
    pub fn is_transmit_empty(&self, line_status: u8) -> (b: bool)
        ensures
            b == ((line_status / 32) % 2 == 0),
    {
        let bit: u8 = line_status & 0x20;
        assert((bit == 0) == ((line_status / 32) % 2 == 0)) by (bit_vector)
            requires bit == line_status & 0x20;
        bit == 0
    }

    /// The port writes that send `string`: each of its UTF-8 bytes, in
    /// order, to the data register (offset 0).
    pub fn write_ops(&self, string: &str) -> (w: Vec<PortWrite>)
        ensures
            w@.len() == string.spec_bytes().len(),
            forall|i: int|
                0 <= i < w@.len() ==> #[trigger] w@[i] == (PortWrite {
                    port: self.port.0,
                    value: string.spec_bytes()[i],
                }),
    {
        let bytes = string.as_bytes();
        let mut w: Vec<PortWrite> = Vec::new();
        let mut i: usize = 0;
        while i < bytes.len()
            invariant
                bytes@ == string.spec_bytes(),
                i <= bytes@.len(),
                w@.len() == i,
                forall|j: int|
                    0 <= j < i ==> #[trigger] w@[j] == (PortWrite {
                        port: self.port.0,
                        value: bytes@[j],
                    }),
            decreases bytes@.len() - i,
        {
            w.push(PortWrite { port: self.port.0, value: bytes[i] });
            i = i + 1;
        }
        w
    }
}


/// What the line reports back to the setup sequence.
#[derive(Clone, Copy, Debug, PartialEq, Eq, Structural)]
pub enum SerialEvent {
    /// The previous action was carried out (or the sequence begins).
    Ack,
    /// The byte that the requested read returned.
    Received(u8),
}

/// What the setup sequence asks for next.
#[derive(Clone, Copy, Debug, PartialEq, Eq, Structural)]
pub enum SerialInitAction {
    /// Write a byte to a port.
    Out(PortWrite),
    /// Read a byte from a port and report it with `SerialEvent::Received`.
    In(u16),
    /// The line passed its loopback test and is configured.
    Ready(Serial),
    /// The loopback test returned the wrong byte: there is no usable line.
    Failed,
    /// The sequence is over; nothing more to do.
    Done,
}

/// Number of configuration writes before the loopback read.
pub const SERIAL_INIT_WRITES: u8 = 9;

/// The byte sent in loopback mode to test the chip.
pub const LOOPBACK_TEST_BYTE: u8 = 0xAE;

/// The configuration writes, as (register offset, value): interrupts off,
/// divisor latch on, divisor 3 (38400 baud), 8N1, FIFO on and cleared with a
/// 14-byte threshold, IRQs on with RTS/DSR, loopback mode, and the test byte.
pub open spec fn init_program() -> Seq<(u16, u8)> {
    seq![
        (1u16, 0x00u8),
        (3u16, 0x80u8),
        (0u16, 0x03u8),
        (1u16, 0x00u8),
        (3u16, 0x03u8),
        (2u16, 0xC7u8),
        (4u16, 0x0Bu8),
        (4u16, 0x1Eu8),
        (0u16, 0xAEu8),
    ]
}

/// The write to the modem control register that leaves loopback mode for
/// normal operation with IRQs, RTS, DSR and OUT1/OUT2 set.
pub open spec fn normal_mode_write(base: u16) -> PortWrite {
    PortWrite { port: (base + 4) as u16, value: 0x0F }
}

/// One step of the setup sequence of the line at `state.0`, which has
/// reached stage `state.1`: the next state and the action to carry out.
pub open spec fn step_spec(state: (u16, u8), event: SerialEvent) -> ((u16, u8), SerialInitAction) {
    let base = state.0;
    let stage = state.1;
    if stage < SERIAL_INIT_WRITES {
        let (offset, value) = init_program()[stage as int];
        (
            (base, (stage + 1) as u8),
            SerialInitAction::Out(PortWrite { port: (base + offset) as u16, value }),
        )
    } else if stage == SERIAL_INIT_WRITES {
        ((base, 10), SerialInitAction::In(base))
    } else if stage == 10 {
        match event {
            SerialEvent::Received(b) => if b == LOOPBACK_TEST_BYTE {
                ((base, 11), SerialInitAction::Out(normal_mode_write(base)))
            } else {
                ((base, 12), SerialInitAction::Failed)
            },
            SerialEvent::Ack => ((base, 10), SerialInitAction::In(base)),
        }
    } else if stage == 11 {
        ((base, 12), SerialInitAction::Ready(Serial { port: PORT(base) }))
    } else {
        ((base, 12), SerialInitAction::Done)
    }
}

/// The actions that the setup sequence emits when fed `events` in turn.
pub open spec fn run_spec(state: (u16, u8), events: Seq<SerialEvent>) -> Seq<SerialInitAction>
    decreases events.len(),
{
    if events.len() == 0 {
        seq![]
    } else {
        let (next, action) = step_spec(state, events[0]);
        seq![action] + run_spec(next, events.drop_first())
    }
}

/// The setup sequence of a serial line: nine configuration writes, a
/// loopback read, then either the switch to normal mode or failure.
pub struct SerialSetup {
    port: PORT,
    stage: u8,
}

impl SerialSetup {
    #[verifier::type_invariant]
    spec fn inv(self) -> bool {
        &&& self.port.0 + 4 <= u16::MAX
        &&& self.stage <= 12
    }

    /// The base address and the stage reached.
    pub closed spec fn view(&self) -> (u16, u8) {
        (self.port.0, self.stage)
    }

    /// Whether a line at `port` can be driven: its registers up to offset 4
    /// have addresses that fit in 16 bits.
    pub open spec fn valid_base(port: PORT) -> bool {
        port.0 + 4 <= u16::MAX
    }

    /// The sequence for the line at `port`, before its first step.
    pub fn new(port: PORT) -> (s: Self)
        requires
            Self::valid_base(port),
        ensures
            s@ == (port.0, 0u8),
    {
        SerialSetup { port, stage: 0 }
    }

    /// The register offset and value of configuration write `i`.
    fn program(i: u8) -> (r: (u16, u8))
        requires
            i < SERIAL_INIT_WRITES,
        ensures
            r == init_program()[i as int],
    {
        match i {
            0 => (1, 0x00),
            1 => (3, 0x80),
            2 => (0, 0x03),
            3 => (1, 0x00),
            4 => (3, 0x03),
            5 => (2, 0xC7),
            6 => (4, 0x0B),
            7 => (4, 0x1E),
            _ => (0, 0xAE),
        }
    }

    /// Advances the sequence by one step on `event` and returns the action
    /// to carry out next.
    pub fn step(&mut self, event: SerialEvent) -> (a: SerialInitAction)
        ensures
            (final(self)@, a) == step_spec(old(self)@, event),
            old(self)@.1 == 10 && event == SerialEvent::Received(0xAE) ==> a
                == SerialInitAction::Out(PortWrite { port: (old(self)@.0 + 4) as u16, value: 0x0F }),
            old(self)@.1 == 10 && event == SerialEvent::Received(0xAE) ==> final(self)@.1 == 11,
            old(self)@.1 == 11 ==> a == SerialInitAction::Ready(Serial { port: PORT(old(self)@.0) }),
    {
        proof {
            use_type_invariant(&*self);
        }
        let base = self.port.0;
        let stage = self.stage;
        if stage < SERIAL_INIT_WRITES {
            let (offset, value) = Self::program(stage);
            self.stage = stage + 1;
            SerialInitAction::Out(PortWrite { port: base + offset, value })
        } else if stage == SERIAL_INIT_WRITES {
            self.stage = 10;
            SerialInitAction::In(base)
        } else if stage == 10 {
            match event {
                SerialEvent::Received(b) => {
                    if b == LOOPBACK_TEST_BYTE {
                        self.stage = 11;
                        SerialInitAction::Out(PortWrite { port: base + 4, value: 0x0F })
                    } else {
                        self.stage = 12;
                        SerialInitAction::Failed
                    }
                },
                SerialEvent::Ack => SerialInitAction::In(base),
            }
        } else if stage == 11 {
            self.stage = 12;
            SerialInitAction::Ready(Serial { port: self.port })
        } else {
            self.stage = 12;
            SerialInitAction::Done
        }
    }
}


/// The events of one setup: an acknowledgement for each of the nine writes
/// and for the start of the read, the byte that the loopback read returned,
/// and the acknowledgement of the last write.
pub open spec fn setup_events(echo: u8) -> Seq<SerialEvent> {
    Seq::new(10, |i: int| SerialEvent::Ack) + seq![SerialEvent::Received(echo), SerialEvent::Ack]
}

/// The nine configuration writes for the line at `base`, in order.
pub open spec fn init_writes(base: u16) -> Seq<SerialInitAction> {
    Seq::new(
        9,
        |i: int|
            SerialInitAction::Out(
                PortWrite {
                    port: (base + init_program()[i].0) as u16,
                    value: init_program()[i].1,
                },
            ),
    )
}

/// Setting up the line at `base` writes the nine configuration bytes, reads
/// the loopback byte from the data register, and then succeeds with a line on
/// that same port exactly when the byte read back is the test byte (after
/// switching to normal mode); any other byte ends it in failure.
pub proof fn lemma_setup_outcome(base: u16, echo: u8)
    requires
        base + 4 <= u16::MAX,
    ensures
        run_spec((base, 0u8), setup_events(echo)) == init_writes(base) + seq![
            SerialInitAction::In(base),
        ] + if echo == LOOPBACK_TEST_BYTE {
            seq![
                SerialInitAction::Out(normal_mode_write(base)),
                SerialInitAction::Ready(Serial { port: PORT(base) }),
            ]
        } else {
            seq![SerialInitAction::Failed, SerialInitAction::Done]
        },
{
    let ev = setup_events(echo);
    let tail = if echo == LOOPBACK_TEST_BYTE {
        seq![
            SerialInitAction::Out(normal_mode_write(base)),
            SerialInitAction::Ready(Serial { port: PORT(base) }),
        ]
    } else {
        seq![SerialInitAction::Failed, SerialInitAction::Done]
    };
    let after_read: (u16, u8) = if echo == LOOPBACK_TEST_BYTE { (base, 11u8) } else { (base, 12u8) };
    assert(run_spec((base, 12u8), ev.subrange(12, 12)) =~= seq![]);
    assert(run_spec(after_read, ev.subrange(11, 12)) =~= tail.subrange(1, 2)) by {
        assert(ev.subrange(11, 12).drop_first() =~= ev.subrange(12, 12));
    }
    assert(run_spec((base, 10u8), ev.subrange(10, 12)) =~= tail) by {
        assert(ev.subrange(10, 12).drop_first() =~= ev.subrange(11, 12));
    }
    assert(run_spec((base, 9u8), ev.subrange(9, 12)) =~= seq![SerialInitAction::In(base)] + tail) by {
        assert(ev.subrange(9, 12).drop_first() =~= ev.subrange(10, 12));
    }
    lemma_run_writes(base, 0, ev.subrange(9, 12));
    assert(ev =~= Seq::new((9 - 0) as nat, |j: int| SerialEvent::Ack) + ev.subrange(9, 12));
    assert(init_writes(base).subrange(0, 9) =~= init_writes(base));
}

/// From configuration write `i` on, acknowledging each write emits the rest
/// of the writes in order and leaves the sequence at the loopback read.
proof fn lemma_run_writes(base: u16, i: int, rest: Seq<SerialEvent>)
    requires
        0 <= i <= 9,
    ensures
        run_spec((base, i as u8), Seq::new((9 - i) as nat, |j: int| SerialEvent::Ack) + rest)
            == init_writes(base).subrange(i, 9) + run_spec((base, 9u8), rest),
    decreases 9 - i,
{
    let evs = Seq::new((9 - i) as nat, |j: int| SerialEvent::Ack) + rest;
    if i == 9 {
        assert(evs =~= rest);
        assert(init_writes(base).subrange(i, 9) =~= seq![]);
    } else {
        lemma_run_writes(base, i + 1, rest);
        assert(evs.drop_first() =~= Seq::new((9 - (i + 1)) as nat, |j: int| SerialEvent::Ack)
            + rest);
        assert(init_writes(base).subrange(i, 9) =~= seq![init_writes(base)[i]]
            + init_writes(base).subrange(i + 1, 9));
    }
}

/// For every base, a setup run starts with these writes, in order, as
/// (port, value): (base+1, 0x00) interrupts off, (base+3, 0x80) divisor latch
/// on, (base+0, 0x03) and (base+1, 0x00) divisor 3, (base+3, 0x03) 8N1 with
/// the latch off, (base+2, 0xC7) FIFO on, (base+4, 0x0B) IRQs with RTS/DSR,
/// (base+4, 0x1E) loopback, (base+0, 0xAE) the test byte; then it reads base.
pub proof fn lemma_config_writes(base: u16, echo: u8)
    requires
        base + 4 <= u16::MAX,
    ensures
        ({
            let r = run_spec((base, 0u8), setup_events(echo));
            let out = |p: int, v: u8| SerialInitAction::Out(PortWrite { port: p as u16, value: v });
            &&& r[0] == out(base + 1, 0x00)
            &&& r[1] == out(base + 3, 0x80)
            &&& r[2] == out(base + 0, 0x03)
            &&& r[3] == out(base + 1, 0x00)
            &&& r[4] == out(base + 3, 0x03)
            &&& r[5] == out(base + 2, 0xC7)
            &&& r[6] == out(base + 4, 0x0B)
            &&& r[7] == out(base + 4, 0x1E)
            &&& r[8] == out(base + 0, 0xAE)
            &&& r[9] == SerialInitAction::In(base)
        }),
{
    lemma_setup_outcome(base, echo);
    let tail = if echo == LOOPBACK_TEST_BYTE {
        seq![
            SerialInitAction::Out(normal_mode_write(base)),
            SerialInitAction::Ready(Serial { port: PORT(base) }),
        ]
    } else {
        seq![SerialInitAction::Failed, SerialInitAction::Done]
    };
    let r = init_writes(base) + seq![SerialInitAction::In(base)] + tail;
    assert forall|i: int| 0 <= i < 9 implies r[i] == init_writes(base)[i] by {}
    assert(r[9] == SerialInitAction::In(base));
}

/// When the loopback read returns the test byte 0xAE, the next action, for
/// every base, writes 0x0F to the modem control register at base + 4 (leaving
/// loopback mode), and the step after that reports the line on that base as
/// ready; in a whole setup run that write is the eleventh action.
pub proof fn lemma_loopback_pass_sets_normal_mode(base: u16)
    requires
        base + 4 <= u16::MAX,
    ensures
        step_spec((base, 10u8), SerialEvent::Received(0xAE)) == ((base, 11u8), SerialInitAction::Out(
            PortWrite { port: (base + 4) as u16, value: 0x0F },
        )),
        step_spec((base, 11u8), SerialEvent::Ack).1 == SerialInitAction::Ready(
            Serial { port: PORT(base) },
        ),
        run_spec((base, 0u8), setup_events(0xAE))[10] == SerialInitAction::Out(
            PortWrite { port: (base + 4) as u16, value: 0x0F },
        ),
        run_spec((base, 0u8), setup_events(0xAE))[11] == SerialInitAction::Ready(
            Serial { port: PORT(base) },
        ),
{
    lemma_setup_outcome(base, 0xAE);
    let tail = seq![
        SerialInitAction::Out(normal_mode_write(base)),
        SerialInitAction::Ready(Serial { port: PORT(base) }),
    ];
    assert((init_writes(base) + seq![SerialInitAction::In(base)] + tail)[10] == tail[0]);
    assert((init_writes(base) + seq![SerialInitAction::In(base)] + tail)[11] == tail[1]);
}

/// Every byte that the setup sequence writes goes to a register of the line
/// itself, at offset 0 to 4 from its base.
pub proof fn lemma_writes_stay_in_device(state: (u16, u8), event: SerialEvent)
    requires
        state.0 + 4 <= u16::MAX,
    ensures
        step_spec(state, event).1 matches SerialInitAction::Out(w) ==> state.0 <= w.port <= state.0
            + 4,
        step_spec(state, event).0.0 == state.0,
{
}

} // verus!
