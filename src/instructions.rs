//! One module per instruction: the records it reads and writes, the
//! constraints they must meet, and the handler that applies it.

pub mod close_exhibition;
pub mod init_state;
pub mod set_state;
pub mod cancel_exhibition;
pub mod init_exhibition;
pub mod deposit_token;
pub mod withdraw_token;
pub mod buy_token;
