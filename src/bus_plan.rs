//! Register choreography as data: the sequence of bus operations the modem
//! receives for each driver step. The register model executes a plan on its
//! registers; the hardware port executes the same plan over SPI, GPIO and
//! the clock.

use crate::config::{Mode, RadioConfig};
use crate::defines::{Bandwidth, CodingRate, LoRaDelay, LoRaMode, LoRaRegister, SpreadingFactor};
use crate::registers::{
    bandwidth_field, coding_rate_field, crc_field, dio_mapping_for, dio_mapping_value, frf_bytes,
    frf_bytes_spec, op_mode_for, op_mode_value, pa_config_for, pa_config_value,
    spreading_factor_field, with_bandwidth, with_coding_rate, with_crc, with_spreading_factor,
};
use crate::sx1278::{addr, reset_registers, REGISTER_COUNT};
use crate::registers::{lna_boost, lna_boost_value};
use vstd::prelude::*;

verus! {

/// A bit field updated by reading its register, changing the field and
/// writing the register back.
#[derive(Debug, Clone, Copy, PartialEq, Eq, Structural)]
pub enum Field {
    Bandwidth(Bandwidth),
    CodingRate(CodingRate),
    SpreadingFactor(SpreadingFactor),
    Crc,
    Dio0(Mode),
    /// The LNA boost bits (`| 0x03`) set before a transmission.
    LnaBoost,
}

/// The register value after `f` is applied to `old`.
pub open spec fn field_value(f: Field, old: u8) -> u8 {
    match f {
        Field::Bandwidth(b) => with_bandwidth(old, b),
        Field::CodingRate(c) => with_coding_rate(old, c),
        Field::SpreadingFactor(s) => with_spreading_factor(old, s),
        Field::Crc => with_crc(old),
        Field::Dio0(m) => dio_mapping_value(old, m),
        Field::LnaBoost => lna_boost_value(old),
    }
}

pub fn apply_field(f: Field, old: u8) -> (r: u8)
    ensures
        r == field_value(f, old),
{
    match f {
        Field::Bandwidth(b) => bandwidth_field(old, b),
        Field::CodingRate(c) => coding_rate_field(old, c),
        Field::SpreadingFactor(s) => spreading_factor_field(old, s),
        Field::Crc => crc_field(old),
        Field::Dio0(m) => dio_mapping_for(old, m),
        Field::LnaBoost => lna_boost(old),
    }
}

/// One operation on the modem's bus.
#[derive(Debug, Clone, Copy, PartialEq, Eq, Structural)]
pub enum BusOp {
    /// Pulse the reset line: every register returns to its reset value.
    Reset,
    /// Write a register.
    Write(LoRaRegister, u8),
    /// Read a register, update one field, write it back.
    Modify(LoRaRegister, Field),
    /// Read a register; the value is one of the plan's results.
    Read(LoRaRegister),
    /// Wait this many milliseconds; registers are unchanged.
    Settle(u64),
    /// Wait for a rising edge on DIO0 (the completion interrupt); registers are unchanged.
    WaitDio0,
}

/// The registers after one operation that does not touch the FIFO.
pub open spec fn reg_effect(regs: Seq<u8>, op: BusOp) -> Seq<u8> {
    match op {
        BusOp::Reset => reset_registers(),
        BusOp::Write(r, v) => regs.update(addr(r), v),
        BusOp::Modify(r, f) => regs.update(addr(r), field_value(f, regs[addr(r)])),
        BusOp::Read(_) => regs,
        BusOp::Settle(_) => regs,
        BusOp::WaitDio0 => regs,
    }
}

/// The registers after the operations of `ops`, first to last, none of
/// which touches the FIFO.
pub open spec fn run_regs(regs: Seq<u8>, ops: Seq<BusOp>) -> Seq<u8>
    decreases ops.len(),
{
    if ops.len() == 0 {
        regs
    } else {
        run_regs(reg_effect(regs, ops[0]), ops.drop_first())
    }
}

/// Running `ops` and then `op` is running `ops.push(op)`.
pub proof fn lemma_run_regs_push(regs: Seq<u8>, ops: Seq<BusOp>, op: BusOp)
    ensures
        run_regs(regs, ops.push(op)) == reg_effect(run_regs(regs, ops), op),
    decreases ops.len(),
{
    let pushed = ops.push(op);
    assert(pushed[0] == if ops.len() == 0 {
        op
    } else {
        ops[0]
    });
    if ops.len() == 0 {
        assert(pushed.drop_first() =~= Seq::<BusOp>::empty());
        assert(run_regs(reg_effect(regs, op), Seq::<BusOp>::empty()) == reg_effect(regs, op));
    } else {
        assert(pushed.drop_first() =~= ops.drop_first().push(op));
        lemma_run_regs_push(reg_effect(regs, ops[0]), ops.drop_first(), op);
    }
}

fn settle() -> (r: BusOp)
    ensures
        r == BusOp::Settle(10),
{
    BusOp::Settle(LoRaDelay::LORA_DELAY_10MS.millis())
}

fn push_op(plan: &mut Vec<BusOp>, op: BusOp, regs: Ghost<Seq<u8>>)
    requires
        !touches_fifo(op),
        no_fifo_access(old(plan)@),
    ensures
        final(plan)@ == old(plan)@.push(op),
        no_fifo_access(final(plan)@),
        run_regs(regs@, final(plan)@) == reg_effect(run_regs(regs@, old(plan)@), op),
{
    proof {
        lemma_run_regs_push(regs@, plan@, op);
    }
    plan.push(op);
}

/// The operations that switch the modem to mode `m`: write `OP_MODE`, settle.
pub fn mode_plan(m: LoRaMode) -> (r: Vec<BusOp>)
    ensures
        r@ == seq![BusOp::Write(LoRaRegister::OP_MODE, op_mode_value(m)), BusOp::Settle(10)],
{
    let mut plan: Vec<BusOp> = Vec::new();
    plan.push(BusOp::Write(LoRaRegister::OP_MODE, op_mode_for(m)));
    plan.push(settle());
    plan
}

/// The registers after the radio parameters of `cfg` are written to `regs`:
/// frequency, bandwidth, coding rate, spreading factor, CRC on, transmit
/// power, `MODEM_CONFIG_3`.
pub open spec fn radio_configured(regs: Seq<u8>, cfg: RadioConfig) -> Seq<u8> {
    let (msb, mid, lsb) = frf_bytes_spec(cfg.frequency);
    let r1 = regs.update(addr(LoRaRegister::FRF_MSB), msb).update(
        addr(LoRaRegister::FRF_MID),
        mid,
    ).update(addr(LoRaRegister::FRF_LSB), lsb);
    let r2 = r1.update(
        addr(LoRaRegister::MODEM_CONFIG_1),
        with_bandwidth(r1[addr(LoRaRegister::MODEM_CONFIG_1)], cfg.bandwidth),
    );
    let r3 = r2.update(
        addr(LoRaRegister::MODEM_CONFIG_1),
        with_coding_rate(r2[addr(LoRaRegister::MODEM_CONFIG_1)], cfg.coding_rate),
    );
    let r4 = r3.update(
        addr(LoRaRegister::MODEM_CONFIG_2),
        with_spreading_factor(r3[addr(LoRaRegister::MODEM_CONFIG_2)], cfg.spreading_factor),
    );
    let r5 = r4.update(
        addr(LoRaRegister::MODEM_CONFIG_2),
        with_crc(r4[addr(LoRaRegister::MODEM_CONFIG_2)]),
    );
    let r6 = r5.update(addr(LoRaRegister::PA_CONFIG), pa_config_value(cfg.tx_power));
    r6.update(addr(LoRaRegister::MODEM_CONFIG_3), 0x04)
}

/// The registers after the whole start-up sequence: reset, sleep, radio
/// parameters, DIO0 mapping for the role, and `MODEM_CONFIG_3`.
pub open spec fn lora_configured(cfg: RadioConfig, mode: Mode) -> Seq<u8> {
    let r1 = reset_registers().update(addr(LoRaRegister::OP_MODE), op_mode_value(LoRaMode::SLEEP));
    let r2 = radio_configured(r1, cfg);
    let r3 = r2.update(
        addr(LoRaRegister::DIO_MAPPING_1),
        dio_mapping_value(r2[addr(LoRaRegister::DIO_MAPPING_1)], mode),
    );
    r3.update(addr(LoRaRegister::MODEM_CONFIG_3), 0x04)
}

/// Appends the radio parameter steps, each followed by the 10 ms settle.
fn push_radio_plan(plan: &mut Vec<BusOp>, cfg: &RadioConfig, regs: Ghost<Seq<u8>>)
    requires
        run_regs(regs@, old(plan)@).len() == REGISTER_COUNT,
        no_fifo_access(old(plan)@),
    ensures
        no_fifo_access(final(plan)@),
        run_regs(regs@, final(plan)@) == radio_configured(run_regs(regs@, old(plan)@), *cfg),
{
    let ghost start = run_regs(regs@, plan@);
    let (msb, mid, lsb) = frf_bytes(cfg.frequency);
    push_op(plan, BusOp::Write(LoRaRegister::FRF_MSB, msb), regs);
    push_op(plan, BusOp::Write(LoRaRegister::FRF_MID, mid), regs);
    push_op(plan, BusOp::Write(LoRaRegister::FRF_LSB, lsb), regs);
    push_op(plan, settle(), regs);
    push_op(plan, BusOp::Modify(LoRaRegister::MODEM_CONFIG_1, Field::Bandwidth(cfg.bandwidth)), regs);
    push_op(plan, settle(), regs);
    push_op(
        plan,
        BusOp::Modify(LoRaRegister::MODEM_CONFIG_1, Field::CodingRate(cfg.coding_rate)),
        regs,
    );
    push_op(plan, settle(), regs);
    push_op(
        plan,
        BusOp::Modify(LoRaRegister::MODEM_CONFIG_2, Field::SpreadingFactor(cfg.spreading_factor)),
        regs,
    );
    push_op(plan, settle(), regs);
    push_op(plan, BusOp::Modify(LoRaRegister::MODEM_CONFIG_2, Field::Crc), regs);
    push_op(plan, settle(), regs);
    push_op(plan, BusOp::Write(LoRaRegister::PA_CONFIG, pa_config_for(cfg.tx_power)), regs);
    push_op(plan, settle(), regs);
    push_op(plan, BusOp::Write(LoRaRegister::MODEM_CONFIG_3, 0x04), regs);
    push_op(plan, settle(), regs);
    assert(run_regs(regs@, plan@) =~= radio_configured(start, *cfg));
}

/// The start-up sequence: reset, sleep, radio parameters, DIO0 mapping for
/// `mode`, `MODEM_CONFIG_3`, each step followed by a 10 ms settle. From any
/// register contents it leads to `lora_configured(cfg, mode)`.
pub fn configure_plan(cfg: &RadioConfig, mode: Mode) -> (r: Vec<BusOp>)
    ensures
        r@.len() > 0,
        r@[0] == BusOp::Reset,
        no_fifo_access(r@),
        run_regs(reset_registers(), r@.drop_first()) == lora_configured(*cfg, mode),
{
    let ghost regs = reset_registers();
    let mut plan: Vec<BusOp> = Vec::new();
    push_op(&mut plan, BusOp::Write(LoRaRegister::OP_MODE, op_mode_for(LoRaMode::SLEEP)), Ghost(regs));
    push_op(&mut plan, settle(), Ghost(regs));
    push_radio_plan(&mut plan, cfg, Ghost(regs));
    push_op(&mut plan, BusOp::Modify(LoRaRegister::DIO_MAPPING_1, Field::Dio0(mode)), Ghost(regs));
    push_op(&mut plan, settle(), Ghost(regs));
    push_op(&mut plan, BusOp::Write(LoRaRegister::MODEM_CONFIG_3, 0x04), Ghost(regs));
    push_op(&mut plan, settle(), Ghost(regs));
    assert(run_regs(regs, plan@) =~= lora_configured(*cfg, mode));
    let ghost tail = plan@;
    let mut full: Vec<BusOp> = Vec::new();
    full.push(BusOp::Reset);
    full.append(&mut plan);
    assert(full@.drop_first() =~= tail);
    assert(forall|i: int| 1 <= i < full@.len() ==> full@[i] == tail[i - 1]);
    full
}

/// One FIFO write per byte, in order.
pub open spec fn fifo_writes(bytes: Seq<u8>) -> Seq<BusOp> {
    Seq::new(bytes.len(), |i: int| BusOp::Write(LoRaRegister::FIFO, bytes[i]))
}

/// The operations that send `bytes` once the FIFO's transmit base `tx_base`
/// is known: point the FIFO there, write the length and the bytes, enter
/// transmit, wait for TxDone on DIO0, go to sleep.
pub open spec fn send_plan_spec(tx_base: u8, bytes: Seq<u8>) -> Seq<BusOp> {
    seq![
        BusOp::Write(LoRaRegister::FIFO_ADDR_PTR, tx_base),
        BusOp::Write(LoRaRegister::PAYLOAD_LENGTH, bytes.len() as u8),
    ] + fifo_writes(bytes) + seq![
        BusOp::Write(LoRaRegister::OP_MODE, op_mode_value(LoRaMode::TX)),
        BusOp::Settle(10),
        BusOp::WaitDio0,
        BusOp::Write(LoRaRegister::OP_MODE, op_mode_value(LoRaMode::SLEEP)),
        BusOp::Settle(10),
    ]
}

pub fn send_plan(tx_base: u8, buffer: &[u8]) -> (r: Vec<BusOp>)
    requires
        buffer@.len() <= 255,
    ensures
        r@ == send_plan_spec(tx_base, buffer@),
{
    let mut plan: Vec<BusOp> = Vec::new();
    plan.push(BusOp::Write(LoRaRegister::FIFO_ADDR_PTR, tx_base));
    plan.push(BusOp::Write(LoRaRegister::PAYLOAD_LENGTH, buffer.len() as u8));
    let n = buffer.len();
    let mut i: usize = 0;
    while i < n
        invariant
            n == buffer@.len(),
            i <= n,
            plan@ == seq![
                BusOp::Write(LoRaRegister::FIFO_ADDR_PTR, tx_base),
                BusOp::Write(LoRaRegister::PAYLOAD_LENGTH, n as u8),
            ] + fifo_writes(buffer@.subrange(0, i as int)),
        decreases n - i,
    {
        plan.push(BusOp::Write(LoRaRegister::FIFO, buffer[i]));
        i = i + 1;
        assert(fifo_writes(buffer@.subrange(0, i as int)) =~= fifo_writes(
            buffer@.subrange(0, i - 1),
        ).push(BusOp::Write(LoRaRegister::FIFO, buffer@[i - 1])));
    }
    assert(buffer@.subrange(0, n as int) =~= buffer@);
    let mut tail = mode_plan(LoRaMode::TX);
    plan.append(&mut tail);
    plan.push(BusOp::WaitDio0);
    let mut sleep = mode_plan(LoRaMode::SLEEP);
    plan.append(&mut sleep);
    assert(plan@ =~= send_plan_spec(tx_base, buffer@));
    plan
}

/// Whether an operation reads or writes the FIFO.
pub open spec fn touches_fifo(op: BusOp) -> bool {
    match op {
        BusOp::Write(r, _) => r == LoRaRegister::FIFO,
        BusOp::Modify(r, _) => r == LoRaRegister::FIFO,
        BusOp::Read(r) => r == LoRaRegister::FIFO,
        _ => false,
    }
}

/// No operation of `ops` touches the FIFO.
pub open spec fn no_fifo_access(ops: Seq<BusOp>) -> bool {
    forall|i: int| 0 <= i < ops.len() ==> !touches_fifo(#[trigger] ops[i])
}

pub const FIFO_SIZE: usize = 256;

/// The modem's registers, and the 256-byte data buffer behind the FIFO
/// register. Accesses to the FIFO register go to the buffer at
/// `FIFO_ADDR_PTR`, which then advances by one (modulo 256).
pub ghost struct ModemState {
    pub regs: Seq<u8>,
    pub fifo: Seq<u8>,
}

pub open spec fn state_wf(s: ModemState) -> bool {
    s.regs.len() == REGISTER_COUNT && s.fifo.len() == FIFO_SIZE
}

/// The FIFO address pointer.
pub open spec fn fifo_ptr(s: ModemState) -> u8 {
    s.regs[addr(LoRaRegister::FIFO_ADDR_PTR)]
}

/// The registers with the FIFO address pointer moved on by `k` bytes.
pub open spec fn advance_ptr(regs: Seq<u8>, k: int) -> Seq<u8> {
    regs.update(
        addr(LoRaRegister::FIFO_ADDR_PTR),
        ((regs[addr(LoRaRegister::FIFO_ADDR_PTR)] + k) % 256) as u8,
    )
}

/// The state after `v` is written to register `r`.
pub open spec fn write_reg(s: ModemState, r: LoRaRegister, v: u8) -> ModemState {
    if r == LoRaRegister::FIFO {
        ModemState { regs: advance_ptr(s.regs, 1), fifo: s.fifo.update(fifo_ptr(s) as int, v) }
    } else {
        ModemState { regs: s.regs.update(addr(r), v), fifo: s.fifo }
    }
}

/// The value a read of register `r` returns.
pub open spec fn read_value(s: ModemState, r: LoRaRegister) -> u8 {
    if r == LoRaRegister::FIFO {
        s.fifo[fifo_ptr(s) as int]
    } else {
        s.regs[addr(r)]
    }
}

/// The state after a read of register `r`.
pub open spec fn after_read(s: ModemState, r: LoRaRegister) -> ModemState {
    if r == LoRaRegister::FIFO {
        ModemState { regs: advance_ptr(s.regs, 1), fifo: s.fifo }
    } else {
        s
    }
}

/// The state after one operation.
pub open spec fn op_effect(s: ModemState, op: BusOp) -> ModemState {
    match op {
        BusOp::Reset => ModemState { regs: reset_registers(), fifo: s.fifo },
        BusOp::Write(r, v) => write_reg(s, r, v),
        BusOp::Modify(r, f) => write_reg(after_read(s, r), r, field_value(f, read_value(s, r))),
        BusOp::Read(r) => after_read(s, r),
        BusOp::Settle(_) => s,
        BusOp::WaitDio0 => s,
    }
}

/// What one operation reads.
pub open spec fn op_reads(s: ModemState, op: BusOp) -> Seq<u8> {
    match op {
        BusOp::Read(r) => seq![read_value(s, r)],
        _ => seq![],
    }
}

/// The state after the operations of `ops`, first to last.
pub open spec fn run_ops(s: ModemState, ops: Seq<BusOp>) -> ModemState
    decreases ops.len(),
{
    if ops.len() == 0 {
        s
    } else {
        run_ops(op_effect(s, ops[0]), ops.drop_first())
    }
}

/// The values the reads of `ops` return, in order.
pub open spec fn run_reads(s: ModemState, ops: Seq<BusOp>) -> Seq<u8>
    decreases ops.len(),
{
    if ops.len() == 0 {
        seq![]
    } else {
        op_reads(s, ops[0]) + run_reads(op_effect(s, ops[0]), ops.drop_first())
    }
}

/// Running `ops` and then `op` is running `ops.push(op)`.
pub proof fn lemma_run_ops_push(s: ModemState, ops: Seq<BusOp>, op: BusOp)
    ensures
        run_ops(s, ops.push(op)) == op_effect(run_ops(s, ops), op),
        run_reads(s, ops.push(op)) == run_reads(s, ops) + op_reads(run_ops(s, ops), op),
    decreases ops.len(),
{
    let pushed = ops.push(op);
    if ops.len() == 0 {
        assert(pushed[0] == op);
        assert(pushed.drop_first() =~= Seq::<BusOp>::empty());
        let e = Seq::<BusOp>::empty();
        assert(run_ops(op_effect(s, op), e) == op_effect(s, op));
        assert(run_reads(op_effect(s, op), e) == Seq::<u8>::empty());
        assert(run_ops(s, ops) == s);
        assert(run_reads(s, ops) == Seq::<u8>::empty());
        assert(run_reads(s, pushed) =~= run_reads(s, ops) + op_reads(run_ops(s, ops), op));
    } else {
        assert(pushed[0] == ops[0]);
        assert(pushed.drop_first() =~= ops.drop_first().push(op));
        lemma_run_ops_push(op_effect(s, ops[0]), ops.drop_first(), op);
        assert(run_reads(s, pushed) =~= run_reads(s, ops) + op_reads(run_ops(s, ops), op));
    }
}

/// Running `a` and then `b` is running `a + b`.
pub proof fn lemma_run_ops_append(s: ModemState, a: Seq<BusOp>, b: Seq<BusOp>)
    ensures
        run_ops(s, a + b) == run_ops(run_ops(s, a), b),
        run_reads(s, a + b) == run_reads(s, a) + run_reads(run_ops(s, a), b),
    decreases a.len(),
{
    if a.len() == 0 {
        assert(a + b =~= b);
        assert(run_reads(s, a + b) =~= run_reads(s, a) + run_reads(run_ops(s, a), b));
    } else {
        assert((a + b)[0] == a[0]);
        assert((a + b).drop_first() =~= a.drop_first() + b);
        lemma_run_ops_append(op_effect(s, a[0]), a.drop_first(), b);
        assert(run_reads(s, a + b) =~= run_reads(s, a) + run_reads(run_ops(s, a), b));
    }
}

/// Operations that leave the FIFO alone act on the registers as `run_regs`
/// says and read nothing from the buffer.
pub proof fn lemma_frame(s: ModemState, ops: Seq<BusOp>)
    requires
        no_fifo_access(ops),
    ensures
        run_ops(s, ops) == (ModemState { regs: run_regs(s.regs, ops), fifo: s.fifo }),
    decreases ops.len(),
{
    if ops.len() > 0 {
        assert(!touches_fifo(ops[0]));
        assert(no_fifo_access(ops.drop_first())) by {
            assert forall|i: int| 0 <= i < ops.drop_first().len() implies !touches_fifo(
                #[trigger] ops.drop_first()[i],
            ) by {
                assert(ops.drop_first()[i] == ops[i + 1]);
            }
        }
        assert(op_effect(s, ops[0]) == (ModemState {
            regs: reg_effect(s.regs, ops[0]),
            fifo: s.fifo,
        }));
        lemma_frame(op_effect(s, ops[0]), ops.drop_first());
    }
}

/// The buffer after `bytes` (at most 256 of them) are stored from `start`
/// on, wrapping at the end.
pub open spec fn fifo_stored(fifo: Seq<u8>, start: u8, bytes: Seq<u8>) -> Seq<u8> {
    Seq::new(
        FIFO_SIZE as nat,
        |j: int|
            if (j - start) % 256 < bytes.len() {
                bytes[(j - start) % 256]
            } else {
                fifo[j]
            },
    )
}

/// `n` bytes of the buffer from `start` on, wrapping at the end.
pub open spec fn fifo_from(fifo: Seq<u8>, start: u8, n: nat) -> Seq<u8> {
    Seq::new(n, |i: int| fifo[(start + i) % 256])
}

proof fn lemma_mod_step(p: int, n: int)
    requires
        0 <= p < 256,
        0 <= n,
    ensures
        ((p + n) % 256 + 1) % 256 == (p + n + 1) % 256,
{
    assert(((p + n) % 256 + 1) % 256 == (p + n + 1) % 256) by (nonlinear_arith)
        requires
            0 <= p < 256,
            0 <= n,
    ;
}

proof fn lemma_offset(j: int, p: int, n: int)
    requires
        0 <= j < 256,
        0 <= p < 256,
        0 <= n < 256,
    ensures
        (j == (p + n) % 256) <==> ((j - p) % 256 == n),
{
    assert((j == (p + n) % 256) <==> ((j - p) % 256 == n)) by (nonlinear_arith)
        requires
            0 <= j < 256,
            0 <= p < 256,
            0 <= n < 256,
    ;
}

proof fn lemma_stored_step(fifo: Seq<u8>, p: u8, bytes: Seq<u8>, b: u8)
    requires
        fifo.len() == FIFO_SIZE,
        bytes.len() < 256,
    ensures
        fifo_stored(fifo, p, bytes).update((p + bytes.len()) % 256, b) == fifo_stored(
            fifo,
            p,
            bytes.push(b),
        ),
{
    let n = bytes.len() as int;
    let lhs = fifo_stored(fifo, p, bytes).update((p + n) % 256, b);
    let rhs = fifo_stored(fifo, p, bytes.push(b));
    assert forall|j: int| 0 <= j < 256 implies lhs[j] == rhs[j] by {
        lemma_offset(j, p as int, n);
    }
    assert(lhs =~= rhs);
}

/// Writing `bytes` to the FIFO register stores them from the pointer on and
/// moves the pointer past them.
pub proof fn lemma_fifo_writes(s: ModemState, bytes: Seq<u8>)
    requires
        state_wf(s),
        bytes.len() <= 255,
    ensures
        run_ops(s, fifo_writes(bytes)) == (ModemState {
            regs: advance_ptr(s.regs, bytes.len() as int),
            fifo: fifo_stored(s.fifo, fifo_ptr(s), bytes),
        }),
        run_reads(s, fifo_writes(bytes)) == Seq::<u8>::empty(),
    decreases bytes.len(),
{
    let p = fifo_ptr(s);
    if bytes.len() == 0 {
        assert(fifo_writes(bytes) =~= Seq::<BusOp>::empty());
        assert(advance_ptr(s.regs, 0) =~= s.regs);
        assert(fifo_stored(s.fifo, p, bytes) =~= s.fifo);
    } else {
        let n = bytes.len() - 1;
        let init = bytes.drop_last();
        let b = bytes.last();
        let w = BusOp::Write(LoRaRegister::FIFO, b);
        assert(fifo_writes(bytes) =~= fifo_writes(init).push(w));
        lemma_fifo_writes(s, init);
        lemma_run_ops_push(s, fifo_writes(init), w);
        let mid = run_ops(s, fifo_writes(init));
        assert(fifo_ptr(mid) == (p + n) % 256);
        lemma_mod_step(p as int, n);
        assert(advance_ptr(mid.regs, 1) =~= advance_ptr(s.regs, bytes.len() as int));
        assert(init.push(b) =~= bytes);
        lemma_stored_step(s.fifo, p, init, b);
        assert(op_effect(mid, w) == write_reg(mid, LoRaRegister::FIFO, b));
    }
}

/// `n` reads of the FIFO register return the buffer from the pointer on
/// and move the pointer past them.
pub proof fn lemma_fifo_reads(s: ModemState, n: nat)
    requires
        state_wf(s),
    ensures
        run_ops(s, Seq::new(n, |i: int| BusOp::Read(LoRaRegister::FIFO))) == (ModemState {
            regs: advance_ptr(s.regs, n as int),
            fifo: s.fifo,
        }),
        run_reads(s, Seq::new(n, |i: int| BusOp::Read(LoRaRegister::FIFO))) == fifo_from(
            s.fifo,
            fifo_ptr(s),
            n,
        ),
    decreases n,
{
    let ops = Seq::new(n, |i: int| BusOp::Read(LoRaRegister::FIFO));
    if n == 0 {
        assert(ops =~= Seq::<BusOp>::empty());
        assert(advance_ptr(s.regs, 0) =~= s.regs);
        assert(fifo_from(s.fifo, fifo_ptr(s), n) =~= Seq::<u8>::empty());
    } else {
        let m = (n - 1) as nat;
        let init = Seq::new(m, |i: int| BusOp::Read(LoRaRegister::FIFO));
        assert(ops =~= init.push(BusOp::Read(LoRaRegister::FIFO)));
        lemma_fifo_reads(s, m);
        lemma_run_ops_push(s, init, BusOp::Read(LoRaRegister::FIFO));
        let mid = run_ops(s, init);
        assert(fifo_ptr(mid) == (fifo_ptr(s) + m) % 256);
        lemma_mod_step(fifo_ptr(s) as int, m as int);
        assert(advance_ptr(mid.regs, 1) =~= advance_ptr(s.regs, n as int));
        assert(fifo_from(s.fifo, fifo_ptr(s), m).push(mid.fifo[fifo_ptr(mid) as int])
            =~= fifo_from(s.fifo, fifo_ptr(s), n));
    }
}

/// The first part of a reception: enter continuous receive, wait for RxDone
/// on DIO0, read the IRQ flags, enter standby, read the packet's length and
/// its start in the buffer.
pub open spec fn receive_plan_spec() -> Seq<BusOp> {
    seq![
        BusOp::Write(LoRaRegister::OP_MODE, op_mode_value(LoRaMode::RX_CONTINUOUS)),
        BusOp::Settle(10),
        BusOp::WaitDio0,
        BusOp::Read(LoRaRegister::IRQ_FLAGS),
        BusOp::Write(LoRaRegister::OP_MODE, op_mode_value(LoRaMode::STDBY)),
        BusOp::Settle(10),
        BusOp::Read(LoRaRegister::RX_NB_BYTES),
        BusOp::Read(LoRaRegister::FIFO_RX_CURRENT_ADDR),
    ]
}

pub fn receive_plan() -> (r: Vec<BusOp>)
    ensures
        r@ == receive_plan_spec(),
{
    let mut plan = mode_plan(LoRaMode::RX_CONTINUOUS);
    plan.push(BusOp::WaitDio0);
    plan.push(BusOp::Read(LoRaRegister::IRQ_FLAGS));
    let mut standby = mode_plan(LoRaMode::STDBY);
    plan.append(&mut standby);
    plan.push(BusOp::Read(LoRaRegister::RX_NB_BYTES));
    plan.push(BusOp::Read(LoRaRegister::FIFO_RX_CURRENT_ADDR));
    assert(plan@ =~= receive_plan_spec());
    plan
}

/// The second part of a reception: point the FIFO at `start` and read the
/// `n` bytes of the packet.
pub open spec fn fifo_read_plan_spec(start: u8, n: u8) -> Seq<BusOp> {
    seq![BusOp::Write(LoRaRegister::FIFO_ADDR_PTR, start)] + Seq::new(
        n as nat,
        |i: int| BusOp::Read(LoRaRegister::FIFO),
    )
}

/// The second part of a reception from what the first part read
/// (`[irq_flags, length, start]`).
pub fn fifo_read_plan(header: &Vec<u8>) -> (r: Vec<BusOp>)
    requires
        header@.len() == 3,
    ensures
        r@ == fifo_read_plan_spec(header@[2], header@[1]),
{
    let start = header[2];
    let n = header[1];
    let mut plan: Vec<BusOp> = Vec::new();
    plan.push(BusOp::Write(LoRaRegister::FIFO_ADDR_PTR, start));
    let mut i: u8 = 0;
    while i < n
        invariant
            i <= n,
            n == header@[1],
            start == header@[2],
            plan@ == seq![BusOp::Write(LoRaRegister::FIFO_ADDR_PTR, start)] + Seq::new(
                i as nat,
                |k: int| BusOp::Read(LoRaRegister::FIFO),
            ),
        decreases n - i,
    {
        plan.push(BusOp::Read(LoRaRegister::FIFO));
        i = i + 1;
        assert(plan@ =~= seq![BusOp::Write(LoRaRegister::FIFO_ADDR_PTR, start)] + Seq::new(
            i as nat,
            |k: int| BusOp::Read(LoRaRegister::FIFO),
        ));
    }
    plan
}

/// The steps before each transmission: raise the LNA boost, enter standby.
pub open spec fn transmit_prepare_plan_spec() -> Seq<BusOp> {
    seq![
        BusOp::Modify(LoRaRegister::LNA, Field::LnaBoost),
        BusOp::Write(LoRaRegister::OP_MODE, op_mode_value(LoRaMode::STDBY)),
        BusOp::Settle(10),
    ]
}

pub fn transmit_prepare_plan() -> (r: Vec<BusOp>)
    ensures
        r@ == transmit_prepare_plan_spec(),
{
    let mut plan: Vec<BusOp> = Vec::new();
    plan.push(BusOp::Modify(LoRaRegister::LNA, Field::LnaBoost));
    let mut standby = mode_plan(LoRaMode::STDBY);
    plan.append(&mut standby);
    assert(plan@ =~= transmit_prepare_plan_spec());
    plan
}

} // verus!
