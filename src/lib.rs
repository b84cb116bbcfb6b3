//! Slow-fill path of a cross-chain relay spoke: canonical leaf encoding,
//! Merkle inclusion checks and the fill-status lifecycle.
pub mod bytes;
pub mod keccak;
pub mod merkle;
pub mod relay;
pub mod slow_fill;
pub mod state;

pub use merkle::{commutative_keccak256, process_proof, verify_merkle_proof};
pub use relay::{get_v3_relay_hash, is_relay_hash_valid, V3RelayData, V3SlowFill};
pub use slow_fill::{
    current_time, execute_v3_slow_relay_leaf, request_v3_slow_fill, ExecuteV3SlowRelayLeaf,
    FilledV3Relay, RequestedV3SlowFill, SlowFillExecution, SlowFillTransfer, SlowFillV3Relay,
    V3RelayExecutionEventInfo,
};
pub use state::{CustomError, FillStatus, FillStatusAccount, FillType, RootBundle, State};
