//! Client-side logic for the automation interface of the iTunes media player:
//! the identifiers and dispatch-table layout the host fixes, the decoding of
//! what a dispatch call hands back, the queries built on top of that, and the
//! order in which a query asks the host.

pub mod guid;
pub mod hresult;
pub mod itunes;
pub mod reads;
pub mod track;
pub mod vtable;
