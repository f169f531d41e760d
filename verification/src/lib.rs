//! Decoding of Matlab 7.3 variables: shaped numeric arrays and struct field lists.

pub mod error;
pub mod structure;
pub mod matrix;
pub mod variable;

pub use error::{Error, ErrorView, StoreError, StoreErrorView};
pub use structure::{
    Answer, AnswerView, DecoderView, MatStruct, Request, StructDecoder, CLASS_CAPACITY,
};
pub use variable::{array, Dataset, DatasetView, MatVar, MatVarView};
pub use matrix::{Matrix, MatrixView};
