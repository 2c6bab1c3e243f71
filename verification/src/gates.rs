pub use crate::http::gates::{
    decode, encode, encode_checked, GateErrorResponse, GateResult, Gates, Undecoded,
};
