//! A compile-time-checked "guarded float": a value tagged as belonging to a
//! restricted subset of floating-point values (currently: finite, neither NaN
//! nor an infinity), carried through the library as its raw IEEE 754 bit
//! pattern. Construction funnels through a validating entry point; once a
//! guard exists, the wrapped bits satisfy the tag's predicate.

pub use self::bits::{Bits32, Bits64};
pub use self::error::Error;
pub use self::float::{Float, FloatBits, WithKind};
pub use self::guard::FloatGuard;
pub use self::marker::{Deflated, Finite, FpMarker};

mod bits;
mod error;
mod float;
mod guard;
mod marker;
