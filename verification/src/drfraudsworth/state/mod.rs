pub mod epoch_state;
pub mod pool_state;
