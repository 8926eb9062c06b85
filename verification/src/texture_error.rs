//! The errors of texture loading that the library's own logic raises.

use crate::text::{decimal, decimal_string};
use vstd::prelude::*;
use vstd::string::*;

verus! {

/// Why a texture array could not be built. (Reading files and decoding images
/// fail with errors of their own, which the caller reports.)
#[derive(Debug)]
pub enum TextureLoadError {
    /// No image has a non-zero size to take the array's dimensions from.
    NoTexturesFound,
    /// The named texture has dimensions `(width, height)` but the array's are
    /// `(expected width, expected height)`.
    DimensionMismatch(String, u32, u32, u32, u32),
    /// The texture registry could not be built.
    RegistryError(String),
}

/// The message that describes an error.
pub open spec fn texture_load_error_message(e: TextureLoadError) -> Seq<char> {
    match e {
        TextureLoadError::NoTexturesFound => "No valid textures found to determine dimensions."@,
        TextureLoadError::DimensionMismatch(name, w, h, exp_w, exp_h) => "Texture '"@ + name@
            + "' has dimensions "@ + decimal(w as nat) + "x"@ + decimal(h as nat) + ", but expected "@
            + decimal(exp_w as nat) + "x"@ + decimal(exp_h as nat) + "."@,
        TextureLoadError::RegistryError(err) => "Texture registry error: "@ + err@,
    }
}

impl From<String> for TextureLoadError {
    /// A registry error with the given message.
    fn from(err: String) -> (r: Self) {
        TextureLoadError::RegistryError(err)
    }
}

impl vstd::std_specs::convert::FromSpecImpl<String> for TextureLoadError {
    open spec fn obeys_from_spec() -> bool {
        true
    }

    open spec fn from_spec(v: String) -> TextureLoadError {
        TextureLoadError::RegistryError(v)
    }
}

impl TextureLoadError {
    /// The human-readable message for this error.
    pub fn message(&self) -> (r: String)
        ensures
            r@ == texture_load_error_message(*self),
    {
        match self {
            TextureLoadError::NoTexturesFound => {
                String::from_str("No valid textures found to determine dimensions.")
            },
            TextureLoadError::DimensionMismatch(name, w, h, exp_w, exp_h) => {
                let mut r = String::from_str("Texture '");
                r.append(name.as_str());
                r.append("' has dimensions ");
                let w_text = decimal_string(*w as u64);
                r.append(w_text.as_str());
                r.append("x");
                let h_text = decimal_string(*h as u64);
                r.append(h_text.as_str());
                r.append(", but expected ");
                let exp_w_text = decimal_string(*exp_w as u64);
                r.append(exp_w_text.as_str());
                r.append("x");
                let exp_h_text = decimal_string(*exp_h as u64);
                r.append(exp_h_text.as_str());
                r.append(".");
                r
            },
            TextureLoadError::RegistryError(err) => {
                let mut r = String::from_str("Texture registry error: ");
                r.append(err.as_str());
                r
            },
        }
    }
}

} // verus!
