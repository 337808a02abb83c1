//! Per-chip constant tables: flash sizes, efuse layouts, ROM data tables,
//! register blocks and version-field decoding for each supported chip.

pub mod esp32;
pub mod esp32c2;
pub mod esp32c3;
pub mod esp32c5;
pub mod esp32c61;
pub mod esp32h2;
pub mod esp32p4;
pub mod esp32s2;
pub mod esp32s3;
