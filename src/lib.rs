//! A fixed-capacity record store for a catalog of collectible items, and the
//! register / update / exchange transitions that keep it consistent.
//!
//! `record` holds a record, its byte layout and its codec; `storage` the
//! slot-addressed region; `validator` the ownership check; `engine` the three
//! transitions.

pub mod engine;
pub mod error;
pub mod record;
pub mod storage;
pub mod validator;

pub use engine::{add_record, buy_record, update_record, AddRecord, BuyRecord, UpdateRecord};
pub use error::RecordError;
pub use record::{NFTRecord, Pubkey};
pub use storage::{
    read_record, save_nft_data_to_repository, Repository, NFT_COUNT, NFT_RECORD_SIZE,
    REPOSITORY_SIZE,
};
pub use validator::{get_nft_data_from_repository, validate_record};
