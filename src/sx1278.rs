//! The SX1278 modem as a register file: every driver operation is the
//! sequence of register reads and writes the chip receives, applied to a
//! model of its 112 registers and its 256-byte data buffer. Reads return
//! what the register holds; accesses to the FIFO register go to the buffer
//! at `FIFO_ADDR_PTR`, which then moves on by one.

use crate::bus_plan::{
    advance_ptr, after_read, apply_field, configure_plan, fifo_from, fifo_ptr, fifo_read_plan,
    fifo_read_plan_spec, fifo_stored, fifo_writes, lemma_fifo_reads, lemma_fifo_writes,
    lemma_frame, lemma_run_ops_append, lemma_run_ops_push, lora_configured, mode_plan, op_effect,
    op_reads, radio_configured, read_value, receive_plan, receive_plan_spec, run_ops, run_reads,
    run_regs, send_plan, send_plan_spec, state_wf, write_reg, BusOp, ModemState, FIFO_SIZE,
};
use crate::config::{LoRaConfig, Mode, RadioConfig};
use crate::defines::{
    bandwidth_code, coding_rate_code, mode_bits, reg_addr, spreading_factor_code, Bandwidth,
    CodingRate, LoRaMode, LoRaRegister, SpreadingFactor,
};
use crate::registers::{
    bandwidth_field, bandwidth_from_field, coding_rate_field, coding_rate_from_field, crc_error_in,
    crc_error_flagged, crc_field, dio_mapping_for, dio_mapping_value, frequency_from_frf,
    frequency_of, frf_bytes, frf_bytes_spec, op_mode_value, pa_config_for,
    pa_config_value, rssi_from_raw, rssi_value, snr_from_raw, snr_value, spreading_factor_field,
    spreading_factor_from_field, with_bandwidth, with_coding_rate, with_crc, with_spreading_factor,
    bandwidth_of, coding_rate_of, spreading_factor_of, lemma_bandwidth_round_trip,
    lemma_coding_rate_round_trip, lemma_crc_keeps_spreading_factor, lemma_frequency_round_trip,
    lemma_modem_config_1_fields_independent, lemma_spreading_factor_round_trip,
};
use vstd::prelude::*;

verus! {

pub const REGISTER_COUNT: usize = 112;

/// The value every register holds after a reset of the model.
pub const RESET_VALUE: u8 = 1;

/// Register addresses used below, as plain numbers for the contracts.
pub open spec fn addr(r: LoRaRegister) -> int {
    reg_addr(r) as int
}

/// The registers after a reset.
pub open spec fn reset_registers() -> Seq<u8> {
    Seq::new(REGISTER_COUNT as nat, |i: int| RESET_VALUE)
}

/// The bus operations of one reception from state `s`.
pub open spec fn receive_ops(s: ModemState) -> Seq<BusOp> {
    receive_plan_spec() + fifo_read_plan_spec(
        s.regs[addr(LoRaRegister::FIFO_RX_CURRENT_ADDR)],
        s.regs[addr(LoRaRegister::RX_NB_BYTES)],
    )
}

/// The modem, modelled by the contents of its registers and of the
/// 256-byte data buffer behind its FIFO register.
pub struct SX1278 {
    registers: Vec<u8>,
    fifo: Vec<u8>,
    mode: Mode,
}

impl View for SX1278 {
    type V = Seq<u8>;

    closed spec fn view(&self) -> Seq<u8> {
        self.registers@
    }
}

impl SX1278 {
    /// The data buffer behind the FIFO register.
    pub closed spec fn fifo_data(&self) -> Seq<u8> {
        self.fifo@
    }

    /// Registers and buffer together.
    pub open spec fn state(&self) -> ModemState {
        ModemState { regs: self@, fifo: self.fifo_data() }
    }

    /// The model holds one byte per register and 256 bytes of buffer.
    pub open spec fn wf(&self) -> bool {
        self@.len() == REGISTER_COUNT && self.fifo_data().len() == FIFO_SIZE
    }

    /// The role the modem was configured for.
    pub closed spec fn role(&self) -> Mode {
        self.mode
    }

    /// A modem in the role `lora_config` asks for, its registers as after a
    /// reset and its buffer cleared.
    pub fn from_config(lora_config: &LoRaConfig) -> (r: SX1278)
        ensures
            r.wf(),
            r@ == reset_registers(),
            r.fifo_data() == Seq::new(FIFO_SIZE as nat, |i: int| 0u8),
            r.role() == lora_config.mode,
    {
        let mut registers: Vec<u8> = Vec::new();
        let mut i: usize = 0;
        while i < REGISTER_COUNT
            invariant
                i <= REGISTER_COUNT,
                registers@ == Seq::new(i as nat, |j: int| RESET_VALUE),
            decreases REGISTER_COUNT - i,
        {
            registers.push(RESET_VALUE);
            i = i + 1;
        }
        let mut fifo: Vec<u8> = Vec::new();
        let mut k: usize = 0;
        while k < FIFO_SIZE
            invariant
                k <= FIFO_SIZE,
                fifo@ == Seq::new(k as nat, |j: int| 0u8),
            decreases FIFO_SIZE - k,
        {
            fifo.push(0);
            k = k + 1;
        }
        SX1278 { registers, fifo, mode: lora_config.mode }
    }

    pub fn get_mode(&self) -> (r: Mode)
        ensures
            r == self.role(),
    {
        self.mode
    }

    /// Reads `register` into `value`; a read of the FIFO register takes the
    /// buffer byte at the FIFO pointer and moves the pointer on.
    pub fn spi_read_register(&mut self, register: LoRaRegister, value: &mut u8)
        requires
            old(self).wf(),
        ensures
            final(self).wf(),
            final(self).role() == old(self).role(),
            *final(value) == read_value(old(self).state(), register),
            final(self).state() == after_read(old(self).state(), register),
    {
        if register == LoRaRegister::FIFO {
            let p = self.read(LoRaRegister::FIFO_ADDR_PTR);
            *value = self.fifo[p as usize];
            self.advance_fifo_ptr();
        } else {
            *value = self.read(register);
        }
    }

    /// Writes `value` to `register`; a write to the FIFO register stores the
    /// byte in the buffer at the FIFO pointer and moves the pointer on.
    pub fn spi_write_register(&mut self, register: LoRaRegister, value: u8)
        requires
            old(self).wf(),
        ensures
            final(self).wf(),
            final(self).role() == old(self).role(),
            final(self).state() == write_reg(old(self).state(), register, value),
    {
        if register == LoRaRegister::FIFO {
            let p = self.read(LoRaRegister::FIFO_ADDR_PTR);
            self.fifo.set(p as usize, value);
            self.advance_fifo_ptr();
        } else {
            let a = register.addr();
            self.registers.set(a as usize, value);
        }
    }

    fn advance_fifo_ptr(&mut self)
        requires
            old(self).wf(),
        ensures
            final(self).wf(),
            final(self).role() == old(self).role(),
            final(self).fifo_data() == old(self).fifo_data(),
            final(self)@ == advance_ptr(old(self)@, 1),
    {
        let a = LoRaRegister::FIFO_ADDR_PTR.addr();
        let p = self.registers[a as usize];
        let next: u8 = if p == 255 {
            0
        } else {
            p + 1
        };
        self.registers.set(a as usize, next);
    }

    /// The value of a register other than the FIFO.
    fn read(&self, register: LoRaRegister) -> (r: u8)
        requires
            self.wf(),
            register != LoRaRegister::FIFO,
        ensures
            r == self@[addr(register)],
    {
        let a = register.addr();
        self.registers[a as usize]
    }

    /// Brings every register back to its reset value; the buffer is kept.
    pub fn reset(&mut self)
        requires
            old(self).wf(),
        ensures
            final(self).wf(),
            final(self)@ == reset_registers(),
            final(self).role() == old(self).role(),
            final(self).fifo_data() == old(self).fifo_data(),
    {
        let mut i: usize = 0;
        while i < REGISTER_COUNT
            invariant
                i <= REGISTER_COUNT,
                self@.len() == REGISTER_COUNT,
                self.fifo_data() == old(self).fifo_data(),
                self.mode == old(self).mode,
                forall|j: int| 0 <= j < i ==> self@[j] == RESET_VALUE,
            decreases REGISTER_COUNT - i,
        {
            self.registers.set(i, RESET_VALUE);
            i = i + 1;
        }
        assert(self@ == reset_registers());
    }

    /// Fills `buffer` with successive reads of the FIFO register: the buffer
    /// bytes from the FIFO pointer on.
    pub fn read_fifo(&mut self, buffer: &mut Vec<u8>)
        requires
            old(self).wf(),
        ensures
            final(self).wf(),
            final(self).role() == old(self).role(),
            final(buffer)@ == fifo_from(
                old(self).fifo_data(),
                fifo_ptr(old(self).state()),
                old(buffer)@.len(),
            ),
            final(self).state() == (ModemState {
                regs: advance_ptr(old(self)@, old(buffer)@.len() as int),
                fifo: old(self).fifo_data(),
            }),
    {
        let n = buffer.len();
        let ghost s0 = self.state();
        let mut i: usize = 0;
        proof {
            lemma_fifo_reads(s0, 0);
        }
        while i < n
            invariant
                self.wf(),
                state_wf(s0),
                self.mode == old(self).mode,
                s0 == old(self).state(),
                i <= n,
                n == old(buffer)@.len(),
                buffer@.len() == n,
                self.state() == run_ops(s0, Seq::new(i as nat, |k: int| BusOp::Read(LoRaRegister::FIFO))),
                run_ops(s0, Seq::new(i as nat, |k: int| BusOp::Read(LoRaRegister::FIFO))) == (ModemState {
                    regs: advance_ptr(s0.regs, i as int),
                    fifo: s0.fifo,
                }),
                forall|j: int| 0 <= j < i ==> buffer@[j] == fifo_from(s0.fifo, fifo_ptr(s0), n as nat)[j],
            decreases n - i,
        {
            let ghost before = self.state();
            let mut value: u8 = 0;
            self.spi_read_register(LoRaRegister::FIFO, &mut value);
            buffer.set(i, value);
            proof {
                let ops = Seq::new(i as nat, |k: int| BusOp::Read(LoRaRegister::FIFO));
                lemma_run_ops_push(s0, ops, BusOp::Read(LoRaRegister::FIFO));
                assert(ops.push(BusOp::Read(LoRaRegister::FIFO)) =~= Seq::new(
                    (i + 1) as nat,
                    |k: int| BusOp::Read(LoRaRegister::FIFO),
                ));
                lemma_fifo_reads(s0, (i + 1) as nat);
                assert(fifo_ptr(before) == (fifo_ptr(s0) + i) % 256);
            }
            i = i + 1;
        }
        assert(buffer@ =~= fifo_from(s0.fifo, fifo_ptr(s0), n as nat));
    }

    /// Writes the bytes of `buffer` one after another to the FIFO register:
    /// they are stored from the FIFO pointer on.
    pub fn write_fifo(&mut self, buffer: Vec<u8>)
        requires
            old(self).wf(),
            buffer@.len() <= 255,
        ensures
            final(self).wf(),
            final(self).role() == old(self).role(),
            final(self).state() == (ModemState {
                regs: advance_ptr(old(self)@, buffer@.len() as int),
                fifo: fifo_stored(old(self).fifo_data(), fifo_ptr(old(self).state()), buffer@),
            }),
    {
        let n = buffer.len();
        let ghost s0 = self.state();
        let mut i: usize = 0;
        proof {
            assert(buffer@.subrange(0, 0) =~= Seq::<u8>::empty());
            lemma_fifo_writes(s0, buffer@.subrange(0, 0));
        }
        while i < n
            invariant
                self.wf(),
                state_wf(s0),
                self.mode == old(self).mode,
                s0 == old(self).state(),
                i <= n,
                n == buffer@.len(),
                n <= 255,
                self.state() == run_ops(s0, fifo_writes(buffer@.subrange(0, i as int))),
            decreases n - i,
        {
            self.spi_write_register(LoRaRegister::FIFO, buffer[i]);
            proof {
                let done = buffer@.subrange(0, i as int);
                lemma_run_ops_push(s0, fifo_writes(done), BusOp::Write(LoRaRegister::FIFO, buffer@[i as int]));
                assert(fifo_writes(done).push(BusOp::Write(LoRaRegister::FIFO, buffer@[i as int]))
                    =~= fifo_writes(buffer@.subrange(0, i + 1)));
            }
            i = i + 1;
        }
        proof {
            assert(buffer@.subrange(0, n as int) =~= buffer@);
            lemma_fifo_writes(s0, buffer@);
        }
    }

    fn set_op_mode(&mut self, m: LoRaMode)
        requires
            old(self).wf(),
        ensures
            final(self).wf(),
            final(self).role() == old(self).role(),
            final(self).fifo_data() == old(self).fifo_data(),
            final(self)@ == old(self)@.update(addr(LoRaRegister::OP_MODE), op_mode_value(m)),
    {
        let plan = mode_plan(m);
        proof {
            reveal_with_fuel(run_ops, 3);
            assert(plan@.drop_first().drop_first() =~= Seq::<BusOp>::empty());
        }
        self.execute(&plan);
    }

    pub fn standby_mode(&mut self)
        requires
            old(self).wf(),
        ensures
            final(self).wf(),
            final(self).role() == old(self).role(),
            final(self).fifo_data() == old(self).fifo_data(),
            final(self)@ == old(self)@.update(
                addr(LoRaRegister::OP_MODE),
                op_mode_value(LoRaMode::STDBY),
            ),
    {
        self.set_op_mode(LoRaMode::STDBY);
    }

    pub fn sleep_mode(&mut self)
        requires
            old(self).wf(),
        ensures
            final(self).wf(),
            final(self).role() == old(self).role(),
            final(self).fifo_data() == old(self).fifo_data(),
            final(self)@ == old(self)@.update(
                addr(LoRaRegister::OP_MODE),
                op_mode_value(LoRaMode::SLEEP),
            ),
    {
        self.set_op_mode(LoRaMode::SLEEP);
    }

    pub fn receive_mode(&mut self)
        requires
            old(self).wf(),
        ensures
            final(self).wf(),
            final(self).role() == old(self).role(),
            final(self).fifo_data() == old(self).fifo_data(),
            final(self)@ == old(self)@.update(
                addr(LoRaRegister::OP_MODE),
                op_mode_value(LoRaMode::RX_CONTINUOUS),
            ),
    {
        self.set_op_mode(LoRaMode::RX_CONTINUOUS);
    }

    pub fn transmit_mode(&mut self)
        requires
            old(self).wf(),
        ensures
            final(self).wf(),
            final(self).role() == old(self).role(),
            final(self).fifo_data() == old(self).fifo_data(),
            final(self)@ == old(self)@.update(
                addr(LoRaRegister::OP_MODE),
                op_mode_value(LoRaMode::TX),
            ),
    {
        self.set_op_mode(LoRaMode::TX);
    }

    /// Selects the boost pin at `level` dBm, clamped to 2..=17.
    pub fn set_tx_power(&mut self, level: u8)
        requires
            old(self).wf(),
        ensures
            final(self).wf(),
            final(self).role() == old(self).role(),
            final(self).fifo_data() == old(self).fifo_data(),
            final(self)@ == old(self)@.update(addr(LoRaRegister::PA_CONFIG), pa_config_value(level)),
    {
        let value = pa_config_for(level);
        self.spi_write_register(LoRaRegister::PA_CONFIG, value);
    }

    /// Writes the carrier frequency to the three FRF registers, most significant first.
    pub fn set_frequency(&mut self, frequency: u64)
        requires
            old(self).wf(),
        ensures
            final(self).wf(),
            final(self).role() == old(self).role(),
            final(self).fifo_data() == old(self).fifo_data(),
            ({
                let (msb, mid, lsb) = frf_bytes_spec(frequency);
                final(self)@ == old(self)@.update(addr(LoRaRegister::FRF_MSB), msb).update(
                    addr(LoRaRegister::FRF_MID),
                    mid,
                ).update(addr(LoRaRegister::FRF_LSB), lsb)
            }),
    {
        let (msb, mid, lsb) = frf_bytes(frequency);
        self.spi_write_register(LoRaRegister::FRF_MSB, msb);
        self.spi_write_register(LoRaRegister::FRF_MID, mid);
        self.spi_write_register(LoRaRegister::FRF_LSB, lsb);
    }

    pub fn set_bandwidth(&mut self, bandwidth: Bandwidth)
        requires
            old(self).wf(),
        ensures
            final(self).wf(),
            final(self).role() == old(self).role(),
            final(self).fifo_data() == old(self).fifo_data(),
            final(self)@ == old(self)@.update(
                addr(LoRaRegister::MODEM_CONFIG_1),
                with_bandwidth(old(self)@[addr(LoRaRegister::MODEM_CONFIG_1)], bandwidth),
            ),
    {
        let value = self.read(LoRaRegister::MODEM_CONFIG_1);
        self.spi_write_register(LoRaRegister::MODEM_CONFIG_1, bandwidth_field(value, bandwidth));
    }

    pub fn set_coding_rate(&mut self, coding_rate: CodingRate)
        requires
            old(self).wf(),
        ensures
            final(self).wf(),
            final(self).role() == old(self).role(),
            final(self).fifo_data() == old(self).fifo_data(),
            final(self)@ == old(self)@.update(
                addr(LoRaRegister::MODEM_CONFIG_1),
                with_coding_rate(old(self)@[addr(LoRaRegister::MODEM_CONFIG_1)], coding_rate),
            ),
    {
        let value = self.read(LoRaRegister::MODEM_CONFIG_1);
        self.spi_write_register(
            LoRaRegister::MODEM_CONFIG_1,
            coding_rate_field(value, coding_rate),
        );
    }

    pub fn set_spreading_factor(&mut self, spreading_factor: SpreadingFactor)
        requires
            old(self).wf(),
        ensures
            final(self).wf(),
            final(self).role() == old(self).role(),
            final(self).fifo_data() == old(self).fifo_data(),
            final(self)@ == old(self)@.update(
                addr(LoRaRegister::MODEM_CONFIG_2),
                with_spreading_factor(
                    old(self)@[addr(LoRaRegister::MODEM_CONFIG_2)],
                    spreading_factor,
                ),
            ),
    {
        let value = self.read(LoRaRegister::MODEM_CONFIG_2);
        self.spi_write_register(
            LoRaRegister::MODEM_CONFIG_2,
            spreading_factor_field(value, spreading_factor),
        );
    }

    pub fn enable_crc(&mut self)
        requires
            old(self).wf(),
        ensures
            final(self).wf(),
            final(self).role() == old(self).role(),
            final(self).fifo_data() == old(self).fifo_data(),
            final(self)@ == old(self)@.update(
                addr(LoRaRegister::MODEM_CONFIG_2),
                with_crc(old(self)@[addr(LoRaRegister::MODEM_CONFIG_2)]),
            ),
    {
        let value = self.read(LoRaRegister::MODEM_CONFIG_2);
        self.spi_write_register(LoRaRegister::MODEM_CONFIG_2, crc_field(value));
    }

    pub fn get_bandwidth(&self) -> (r: u8)
        requires
            self.wf(),
        ensures
            r == bandwidth_of(self@[addr(LoRaRegister::MODEM_CONFIG_1)]),
    {
        bandwidth_from_field(self.read(LoRaRegister::MODEM_CONFIG_1))
    }

    pub fn get_coding_rate(&self) -> (r: u8)
        requires
            self.wf(),
        ensures
            r == coding_rate_of(self@[addr(LoRaRegister::MODEM_CONFIG_1)]),
    {
        coding_rate_from_field(self.read(LoRaRegister::MODEM_CONFIG_1))
    }

    pub fn get_spreading_factor(&self) -> (r: u8)
        requires
            self.wf(),
        ensures
            r == spreading_factor_of(self@[addr(LoRaRegister::MODEM_CONFIG_2)]),
    {
        spreading_factor_from_field(self.read(LoRaRegister::MODEM_CONFIG_2))
    }

    /// The carrier frequency the FRF registers select, in Hz.
    pub fn get_frequency(&self) -> (r: u64)
        requires
            self.wf(),
        ensures
            r == frequency_of(
                self@[addr(LoRaRegister::FRF_MSB)],
                self@[addr(LoRaRegister::FRF_MID)],
                self@[addr(LoRaRegister::FRF_LSB)],
            ),
    {
        let msb = self.read(LoRaRegister::FRF_MSB);
        let mid = self.read(LoRaRegister::FRF_MID);
        let lsb = self.read(LoRaRegister::FRF_LSB);
        frequency_from_frf(msb, mid, lsb)
    }

    /// Raises `has_crc_error` when `IRQ_FLAGS` reports a payload CRC error;
    /// never lowers it.
    pub fn has_crc_error(&self, has_crc_error: &mut bool)
        requires
            self.wf(),
        ensures
            *final(has_crc_error) == (*old(has_crc_error) || crc_error_in(
                self@[addr(LoRaRegister::IRQ_FLAGS)],
            )),
    {
        let irq = self.read(LoRaRegister::IRQ_FLAGS);
        if crc_error_flagged(irq) {
            *has_crc_error = true;
        }
    }

    /// Writes the radio parameters: frequency, bandwidth, coding rate,
    /// spreading factor, CRC on, transmit power, then `MODEM_CONFIG_3`.
    pub fn config_radio(&mut self, radio_config: &RadioConfig)
        requires
            old(self).wf(),
        ensures
            final(self).wf(),
            final(self).role() == old(self).role(),
            final(self).fifo_data() == old(self).fifo_data(),
            final(self)@ == radio_configured(old(self)@, *radio_config),
    {
        self.set_frequency(radio_config.frequency);
        self.set_bandwidth(radio_config.bandwidth);
        self.set_coding_rate(radio_config.coding_rate);
        self.set_spreading_factor(radio_config.spreading_factor);
        self.enable_crc();
        self.set_tx_power(radio_config.tx_power);
        self.spi_write_register(LoRaRegister::MODEM_CONFIG_3, 0x04);
    }

    /// Maps DIO0 to TxDone for a transmitter; a receiver keeps RxDone.
    pub fn config_dio(&mut self)
        requires
            old(self).wf(),
        ensures
            final(self).wf(),
            final(self).role() == old(self).role(),
            final(self).fifo_data() == old(self).fifo_data(),
            final(self)@ == old(self)@.update(
                addr(LoRaRegister::DIO_MAPPING_1),
                dio_mapping_value(old(self)@[addr(LoRaRegister::DIO_MAPPING_1)], old(self).role()),
            ),
    {
        let initial = self.read(LoRaRegister::DIO_MAPPING_1);
        let value = dio_mapping_for(initial, self.mode);
        self.spi_write_register(LoRaRegister::DIO_MAPPING_1, value);
    }

    /// The start-up sequence: reset, sleep, radio parameters, DIO0 mapping,
    /// `MODEM_CONFIG_3`.
    pub fn configure_lora(&mut self, radio_config: &RadioConfig)
        requires
            old(self).wf(),
        ensures
            final(self).wf(),
            final(self).role() == old(self).role(),
            final(self).fifo_data() == old(self).fifo_data(),
            final(self)@ == lora_configured(*radio_config, old(self).role()),
    {
        let plan = configure_plan(radio_config, self.mode);
        proof {
            lemma_frame(self.state(), plan@);
            assert(run_regs(self@, plan@) == run_regs(reset_registers(), plan@.drop_first()));
        }
        self.execute(&plan);
    }

    /// Performs the operations of `ops`, first to last; returns what their
    /// reads returned.
    pub fn execute(&mut self, ops: &Vec<BusOp>) -> (reads: Vec<u8>)
        requires
            old(self).wf(),
        ensures
            final(self).wf(),
            final(self).role() == old(self).role(),
            final(self).state() == run_ops(old(self).state(), ops@),
            reads@ == run_reads(old(self).state(), ops@),
    {
        let n = ops.len();
        let mut reads: Vec<u8> = Vec::new();
        let mut i: usize = 0;
        assert(ops@.subrange(0, n as int) =~= ops@);
        while i < n
            invariant
                self.wf(),
                self.mode == old(self).mode,
                i <= n,
                n == ops@.len(),
                run_ops(old(self).state(), ops@) == run_ops(
                    self.state(),
                    ops@.subrange(i as int, n as int),
                ),
                run_reads(old(self).state(), ops@) == reads@ + run_reads(
                    self.state(),
                    ops@.subrange(i as int, n as int),
                ),
            decreases n - i,
        {
            let ghost before = self.state();
            let ghost before_reads = reads@;
            let op = ops[i];
            match op {
                BusOp::Reset => self.reset(),
                BusOp::Write(r, v) => self.spi_write_register(r, v),
                BusOp::Modify(r, f) => {
                    let mut value: u8 = 0;
                    self.spi_read_register(r, &mut value);
                    self.spi_write_register(r, apply_field(f, value));
                },
                BusOp::Read(r) => {
                    let mut value: u8 = 0;
                    self.spi_read_register(r, &mut value);
                    reads.push(value);
                },
                BusOp::Settle(_) => {},
                BusOp::WaitDio0 => {},
            }
            proof {
                let rest = ops@.subrange(i as int, n as int);
                assert(rest[0] == op);
                assert(rest.drop_first() =~= ops@.subrange(i + 1, n as int));
                assert(self.state() == op_effect(before, op));
                assert(reads@ == before_reads + op_reads(before, op));
                assert(before_reads + (op_reads(before, op) + run_reads(
                    op_effect(before, op),
                    rest.drop_first(),
                )) =~= reads@ + run_reads(self.state(), rest.drop_first()));
            }
            i = i + 1;
        }
        assert(ops@.subrange(n as int, n as int) =~= Seq::<BusOp>::empty());
        assert(reads@ + Seq::<u8>::empty() =~= reads@);
        reads
    }

    /// Receives one packet: the operations of `receive_plan_spec` (enter
    /// continuous receive, wait for RxDone, read the IRQ flags, enter
    /// standby, read the length and start), then those of
    /// `fifo_read_plan_spec` (point the FIFO at the start and read the
    /// packet's bytes from the buffer). A CRC error raises `crc_error`.
    pub fn receive_packet(&mut self, crc_error: &mut bool) -> (r: Vec<u8>)
        requires
            old(self).wf(),
        ensures
            final(self).wf(),
            final(self).role() == old(self).role(),
            final(self).state() == run_ops(old(self).state(), receive_ops(old(self).state())),
            *final(crc_error) == (*old(crc_error) || crc_error_in(
                old(self)@[addr(LoRaRegister::IRQ_FLAGS)],
            )),
            r@ == fifo_from(
                old(self).fifo_data(),
                old(self)@[addr(LoRaRegister::FIFO_RX_CURRENT_ADDR)],
                old(self)@[addr(LoRaRegister::RX_NB_BYTES)] as nat,
            ),
            final(self).fifo_data() == old(self).fifo_data(),
            final(self)@ == old(self)@.update(
                addr(LoRaRegister::OP_MODE),
                op_mode_value(LoRaMode::STDBY),
            ).update(
                addr(LoRaRegister::FIFO_ADDR_PTR),
                ((old(self)@[addr(LoRaRegister::FIFO_RX_CURRENT_ADDR)] + old(
                    self,
                )@[addr(LoRaRegister::RX_NB_BYTES)]) % 256) as u8,
            ),
    {
        let ghost s0 = self.state();
        let plan = receive_plan();
        let header = self.execute(&plan);
        let ghost s1 = self.state();
        proof {
            reveal_with_fuel(run_ops, 9);
            reveal_with_fuel(run_reads, 9);
            assert(s1 == (ModemState {
                regs: s0.regs.update(
                    addr(LoRaRegister::OP_MODE),
                    op_mode_value(LoRaMode::RX_CONTINUOUS),
                ).update(addr(LoRaRegister::OP_MODE), op_mode_value(LoRaMode::STDBY)),
                fifo: s0.fifo,
            }));
            assert(header@ =~= seq![
                s0.regs[addr(LoRaRegister::IRQ_FLAGS)],
                s0.regs[addr(LoRaRegister::RX_NB_BYTES)],
                s0.regs[addr(LoRaRegister::FIFO_RX_CURRENT_ADDR)],
            ]);
        }
        if crc_error_flagged(header[0]) {
            *crc_error = true;
        }
        let rest = fifo_read_plan(&header);
        let data = self.execute(&rest);
        proof {
            let start = header@[2];
            let n = header@[1];
            let pointed = seq![BusOp::Write(LoRaRegister::FIFO_ADDR_PTR, start)];
            let reads = Seq::new(n as nat, |i: int| BusOp::Read(LoRaRegister::FIFO));
            assert(rest@ == pointed + reads);
            lemma_run_ops_append(s1, pointed, reads);
            let s2 = run_ops(s1, pointed);
            assert(s2 == write_reg(s1, LoRaRegister::FIFO_ADDR_PTR, start));
            assert(run_reads(s1, pointed) =~= Seq::<u8>::empty());
            lemma_fifo_reads(s2, n as nat);
            lemma_run_ops_append(s0, plan@, rest@);
            assert(self@ =~= s0.regs.update(
                addr(LoRaRegister::OP_MODE),
                op_mode_value(LoRaMode::STDBY),
            ).update(addr(LoRaRegister::FIFO_ADDR_PTR), ((start + n) % 256) as u8));
        }
        data
    }

    /// Sends `buffer`: the operations of `send_plan_spec` (point the FIFO at
    /// the transmit base, write the length and the bytes, enter transmit,
    /// wait for TxDone, go to sleep).
    pub fn send_packet(&mut self, buffer: Vec<u8>)
        requires
            old(self).wf(),
            buffer@.len() <= 255,
        ensures
            final(self).wf(),
            final(self).role() == old(self).role(),
            final(self).state() == run_ops(
                old(self).state(),
                send_plan_spec(old(self)@[addr(LoRaRegister::FIFO_TX_BASE_ADDR)], buffer@),
            ),
            ({
                let base = old(self)@[addr(LoRaRegister::FIFO_TX_BASE_ADDR)];
                let r1 = old(self)@.update(addr(LoRaRegister::FIFO_ADDR_PTR), base).update(
                    addr(LoRaRegister::PAYLOAD_LENGTH),
                    buffer@.len() as u8,
                );
                &&& final(self)@ == advance_ptr(r1, buffer@.len() as int).update(
                    addr(LoRaRegister::OP_MODE),
                    op_mode_value(LoRaMode::SLEEP),
                )
                &&& final(self).fifo_data() == fifo_stored(old(self).fifo_data(), base, buffer@)
            }),
    {
        let tx_address = self.read(LoRaRegister::FIFO_TX_BASE_ADDR);
        let plan = send_plan(tx_address, buffer.as_slice());
        proof {
            reveal_with_fuel(run_ops, 6);
            let head = seq![
                BusOp::Write(LoRaRegister::FIFO_ADDR_PTR, tx_address),
                BusOp::Write(LoRaRegister::PAYLOAD_LENGTH, buffer@.len() as u8),
            ];
            let tail = seq![
                BusOp::Write(LoRaRegister::OP_MODE, op_mode_value(LoRaMode::TX)),
                BusOp::Settle(10),
                BusOp::WaitDio0,
                BusOp::Write(LoRaRegister::OP_MODE, op_mode_value(LoRaMode::SLEEP)),
                BusOp::Settle(10),
            ];
            let writes = fifo_writes(buffer@);
            let s0 = self.state();
            lemma_run_ops_append(s0, head + writes, tail);
            lemma_run_ops_append(s0, head, writes);
            assert(head.drop_first().drop_first() =~= Seq::<BusOp>::empty());
            let s1 = run_ops(s0, head);
            assert(s1.regs == s0.regs.update(
                addr(LoRaRegister::FIFO_ADDR_PTR),
                tx_address,
            ).update(addr(LoRaRegister::PAYLOAD_LENGTH), buffer@.len() as u8));
            assert(s1.fifo == s0.fifo);
            lemma_fifo_writes(s1, buffer@);
            let s2 = run_ops(s1, writes);
            assert(run_ops(s2, tail).regs =~= s2.regs.update(
                addr(LoRaRegister::OP_MODE),
                op_mode_value(LoRaMode::SLEEP),
            ));
        }
        self.execute(&plan);
    }

    /// SNR of the last packet, from `PKT_SNR_VALUE`.
    pub fn get_packet_snr(&self) -> (r: u8)
        requires
            self.wf(),
        ensures
            r == snr_value(self@[addr(LoRaRegister::PKT_SNR_VALUE)]),
    {
        snr_from_raw(self.read(LoRaRegister::PKT_SNR_VALUE))
    }

    /// RSSI in dBm of the last packet, from `PKT_RSSI_VALUE` and the carrier frequency.
    pub fn get_packet_rssi(&self) -> (r: i16)
        requires
            self.wf(),
        ensures
            r == rssi_value(
                frequency_of(
                    self@[addr(LoRaRegister::FRF_MSB)],
                    self@[addr(LoRaRegister::FRF_MID)],
                    self@[addr(LoRaRegister::FRF_LSB)],
                ),
                self@[addr(LoRaRegister::PKT_RSSI_VALUE)],
            ),
    {
        let frequency = self.get_frequency();
        rssi_from_raw(frequency, self.read(LoRaRegister::PKT_RSSI_VALUE))
    }
}

/// After the start-up sequence the read-back helpers report the configured
/// bandwidth, coding rate and spreading factor, the frequency to within one
/// synthesizer step (below 1.024 GHz), the clamped transmit power on the boost
/// pin, and the modem asleep in LoRa mode.
pub proof fn lemma_configured_parameters(cfg: RadioConfig, mode: Mode)
    ensures
        ({
            let regs = lora_configured(cfg, mode);
            &&& regs.len() == REGISTER_COUNT
            &&& bandwidth_of(regs[addr(LoRaRegister::MODEM_CONFIG_1)]) == bandwidth_code(
                cfg.bandwidth,
            )
            &&& coding_rate_of(regs[addr(LoRaRegister::MODEM_CONFIG_1)]) == coding_rate_code(
                cfg.coding_rate,
            )
            &&& spreading_factor_of(regs[addr(LoRaRegister::MODEM_CONFIG_2)])
                == spreading_factor_code(cfg.spreading_factor)
            &&& regs[addr(LoRaRegister::PA_CONFIG)] == pa_config_value(cfg.tx_power)
            &&& regs[addr(LoRaRegister::OP_MODE)] == op_mode_value(LoRaMode::SLEEP)
            &&& cfg.frequency < 1_024_000_000 ==> cfg.frequency - 62 <= frequency_of(
                regs[addr(LoRaRegister::FRF_MSB)],
                regs[addr(LoRaRegister::FRF_MID)],
                regs[addr(LoRaRegister::FRF_LSB)],
            ) <= cfg.frequency
        }),
{
    let r0 = reset_registers().update(addr(LoRaRegister::OP_MODE), op_mode_value(LoRaMode::SLEEP));
    let c1 = r0[addr(LoRaRegister::MODEM_CONFIG_1)];
    let c2 = r0[addr(LoRaRegister::MODEM_CONFIG_2)];
    lemma_bandwidth_round_trip(c1, cfg.bandwidth);
    lemma_modem_config_1_fields_independent(
        with_bandwidth(c1, cfg.bandwidth),
        cfg.bandwidth,
        cfg.coding_rate,
    );
    lemma_coding_rate_round_trip(with_bandwidth(c1, cfg.bandwidth), cfg.coding_rate);
    lemma_spreading_factor_round_trip(c2, cfg.spreading_factor);
    lemma_crc_keeps_spreading_factor(with_spreading_factor(c2, cfg.spreading_factor));
    if cfg.frequency < 1_024_000_000 {
        lemma_frequency_round_trip(cfg.frequency);
    }
}

/// Each mode transition leaves `OP_MODE` holding the LoRa bit and that mode,
/// and changes no other register.
pub proof fn lemma_mode_transition(regs: Seq<u8>, m: LoRaMode, other: int)
    requires
        regs.len() == REGISTER_COUNT,
        0 <= other < REGISTER_COUNT,
        other != addr(LoRaRegister::OP_MODE),
    ensures
        regs.update(addr(LoRaRegister::OP_MODE), op_mode_value(m))[addr(LoRaRegister::OP_MODE)]
            == 0x80u8 | mode_bits(m),
        regs.update(addr(LoRaRegister::OP_MODE), op_mode_value(m))[other] == regs[other],
{
}

} // verus!
