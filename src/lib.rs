//! Radio-interferometer visibility datasets and the mapping between them and
//! the hierarchical file layout that stores them.
//!
//! Floating-point values are carried as their IEEE-754 bit patterns: the
//! library moves them and never computes with them.

pub mod agree;
pub mod baseline;
pub mod catalog;
pub mod codec;
pub mod enums;
pub mod history;
pub mod meta;
pub mod model;
pub mod shape;
pub mod text;
pub mod uvdata;

pub use baseline::{antnums_to_baseline, baseline_to_antnums, count_distinct};
pub use catalog::{CatTypes, Catalog, EphemVal, SiderealVal, UnphasedVal};
pub use codec::{
    read_file, write_file, Field, FormatError, StoredArrays, StoredData, StoredFile, StoredHeader,
};
pub use enums::{BltOrder, BltOrders, EqConvention, Orientation, PhaseType, VisUnit};
pub use history::{print_version_str, stamp_history, VERSION_STR};
pub use meta::{ArrayMetaData, UVMeta};
pub use model::{ComplexBits, Cube, DoubleBits, SingleBits};
pub use shape::{ShapeError, StoredArray};
pub use uvdata::UVData;
