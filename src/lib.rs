use vstd::prelude::*;

pub mod config;
pub mod download;
pub mod download_queue;
pub mod download_state;
pub mod events;
pub mod lines;
pub mod store;
pub mod text;
pub mod worker;
pub mod youtube_dl;

verus! {

/// The body of the health check.
pub fn get_health_check() -> (r: String)
    ensures
        r@ == "Ok!"@,
{
    "Ok!".to_owned()
}

} // verus!
