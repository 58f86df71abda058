//! Verified core of the `mw::com` communication API: E2E Profile 4m protection with
//! CRC-32/AUTOSAR, method-argument buffer layout, the method-call protocol, field-publisher
//! capability handling, and the producer type-state validator.
use vstd::prelude::*;

pub mod args_layout;
pub mod bytes;
pub mod concept;
pub mod crc;
pub mod e2e;
pub mod envelope;
pub mod field_publisher;
pub mod lola_method;
pub mod method_call;
pub mod mock_runtime;
pub mod mock_sample;
pub mod typestate;

verus! {
}
