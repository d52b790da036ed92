//! Building, storing, cancelling and proving transactions.
pub mod building;
pub mod conduct;
pub mod functions;
pub mod history;
pub mod laws;
pub mod log;
pub mod proving;

pub use crate::payment_proof::{
    _decode_payment_proof_message, create_payment_proof_signature, payment_proof_message,
    try_decode_payment_proof_message,
};
pub use building::{
    add_inputs_to_slate, add_output_to_slate, complete_tx, estimate_send_tx, new_tx_slate,
};
pub use log::{cancel_tx, update_message, update_stored_tx};
pub use proving::verify_slate_payment_proof;
