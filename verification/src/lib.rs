//! Capability traits for bridging wrapper values with their fixed-layout
//! inner representations, together with a few self-contained numeric
//! helper contracts and a length-tolerant bulk copy for slices.

pub mod convert;
pub mod num;
pub mod slice;
pub mod wrap;

pub use convert::AsPtr;
pub use convert::AsPtrMut;
pub use num::AlignDownwards;
pub use num::AlignUpwards;
pub use num::Clamped;
pub use num::IntValue;
pub use num::IsInRange;
pub use slice::CloneFromSliceFlex;
pub use slice::CopyFromSliceFlex;
pub use wrap::convert_tag;
pub use wrap::InnerCopy;
pub use wrap::InnerRefer;
pub use wrap::Mode;
pub use wrap::TagRepr;
pub use wrap::Wrapper;

