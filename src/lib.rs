// Polls a streaming platform for a user's live broadcasts and announces the new ones to a
// chat webhook, once per run.
//
// - broadcast: the platform's records (broadcasts, credentials, list envelopes)
// - dedup: the persisted state and the filter that keeps only broadcasts not yet announced
// - text: placeholder replacement in URL templates
// - notify: the webhook message built from the new broadcasts
// - platform: requests to the platform and how they fail
// - session: one run as a state machine over credential reuse, re-authentication,
//   querying, notifying and persisting
use vstd::prelude::*;

pub mod broadcast;
pub mod dedup;
pub mod notify;
pub mod platform;
pub mod session;
pub mod text;

verus! {

} // verus!
