//! Data portions: the byte buffers a payload generator sends, either loaded
//! from a JSON array of strings or made up as default filler.
pub mod portions;
