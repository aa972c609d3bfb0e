//! Verified core of the MTGO collection manager: the incremental archive
//! manager that folds price-history snapshots into one ZIP container, the
//! locator of the card data files, and the plain data types behind the
//! collection views.

pub mod archive;
mod container;
pub mod paths;

pub mod browser;
pub mod card;
pub mod column;
pub mod stats;
pub mod table;
pub mod views;
