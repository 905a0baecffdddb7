//! Decoding of AAMVA driver's-license and identification-card barcode payloads.
//!
//! A payload is parsed into its header and the raw data elements of each subfile
//! ([`parse_barcode`]), and the raw elements are decoded into typed fields
//! ([`decode_barcode`]). Each function states in its contract what it returns, over the
//! specification functions of its module.

pub mod text;
pub mod issuer;
pub mod subfile;
pub mod header;
pub mod data;
pub mod fields;
pub mod name;
pub mod date;
pub mod decoded;

pub use data::{Data, parse_barcode};
pub use date::Date;
pub use decoded::{DecodedData, UnderAgeUntil, decode_barcode};
pub use fields::{Address, EyeColor, HairColor, Height, Race, Sex, Truncation, Weight};
pub use header::{Header, HeaderField, ParseError, parse_header};
pub use issuer::{IssuerCountry, IssuerIdentification};
pub use name::Name;
pub use subfile::{
    DataElement, Subfile, SubfileDesignator, SubfileType, UnknownSubfileType, parse_data_element,
};
