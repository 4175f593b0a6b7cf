//! A per-direction translation actor: a verified bounded request queue, the
//! decision logic of the worker loop that owns a translation model, and the
//! outcome rules of the handle that callers hold.

pub mod queue;
pub mod settings;
pub mod translation_api;
pub mod translator;
pub mod worker;
