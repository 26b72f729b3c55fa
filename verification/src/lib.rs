mod builder;
mod error;
mod sonyflake;

pub use crate::builder::{
    is_private_ipv4, lower_16_bit_private_ip, lower_16_bit_private_ip_from, private_ipv4,
    spec_first_private_v4, spec_is_private_ipv4, spec_lower_16, spec_private_ipv4,
    spec_start_ticks, Builder, DefaultMachineId, DefaultMachineIdCheck, HostInterface,
    InterfaceAddress, MachineIdCheck, MachineIdProvider, SONYFLAKE_EPOCH_TICKS,
};
pub use crate::error::Error;
pub use crate::sonyflake::{
    decompose, lemma_compose_decompose, lemma_compose_order, lemma_decompose_compose,
    lemma_run_ids_strictly_increase, lex_le, lex_lt, spec_advance, spec_compose,
    spec_machine_id_part, spec_outcome, spec_run, spec_run_outcome, spec_sequence_part,
    spec_ticks, spec_time_part, to_sonyflake_time, DecomposedSonyflake, Internals, InternalsPred,
    SharedSonyflake, Sonyflake, Timestamp, BIT_LEN_MACHINE_ID, BIT_LEN_SEQUENCE, BIT_LEN_TIME,
    MASK_SEQUENCE, MAX_TICKS, SONYFLAKE_TIME_UNIT, TIME_LIMIT,
};
