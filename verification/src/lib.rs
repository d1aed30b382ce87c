//! An affinely extended ordered numeric type: an ordered numeric domain
//! augmented with a positive and a negative infinity, together with a total
//! order and the four arithmetic operators of the extended number line.

pub mod domain;
pub mod extended_num;
