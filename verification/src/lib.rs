//! Safe handles for `libgbm`, the Generic Buffer Manager.
//!
//! The buffer manager lets a caller request buffers from the platform's
//! memory management system while staying portable.  The foreign objects
//! (devices, surfaces, buffer objects) are reached through addresses handed
//! out by the C library; this crate keeps those addresses in shared,
//! reference-counted handles ([`Ptr`]) that release the object when the last
//! handle goes away, and exposes them through [`AsRaw`].

pub use drm_fourcc::{DrmFourcc as Format, DrmModifier as Modifier};

mod buffer_object;
mod pointer_text;
mod ptr;
mod raw;

pub use buffer_object::{BufferObject, GbmBo, GbmDevice};
pub use pointer_text::{
    hex_digit, hex_digit_value, hex_digits, hex_value, is_plain_hex_numeral, lemma_hex_digits_shape,
    lemma_hex_value_of_digits, lemma_pointer_text_injective, lemma_pointer_text_shows_address,
    pointer_text,
};
pub use ptr::{lemma_agreeing_handles, Ptr};
pub use raw::AsRaw;
