//! A speech session: the identity and addresses with which captured
//! transcripts are forwarded to the brain and the core.
use vstd::prelude::*;
use crate::endpoint::strip_trailing_slashes;
use crate::protocol::{SpeechTurn, TurnView};

verus! {

pub struct StsSession {
    pub session_id: String,
    pub core_endpoint: String,
    pub brain_endpoint: String,
}

impl StsSession {
    /// A session with a fresh id.
    pub fn new(core_endpoint: String, brain_endpoint: String) -> (r: StsSession)
        ensures
            r.session_id@.len() == 36,
            r.core_endpoint@ == core_endpoint@,
            r.brain_endpoint@ == brain_endpoint@,
    {
        StsSession { session_id: crate::protocol::fresh_id(), core_endpoint, brain_endpoint }
    }

    pub fn decide_url(&self) -> (r: String)
        ensures
            r@ == strip_trailing_slashes(self.brain_endpoint@) + "/v1/decide"@,
    {
        crate::endpoint::decide_url(self.brain_endpoint.as_str())
    }

    pub fn transcript_url(&self) -> (r: String)
        ensures
            r@ == strip_trailing_slashes(self.core_endpoint@) + "/v1/transcript"@,
    {
        crate::endpoint::transcript_url(self.core_endpoint.as_str())
    }

    /// The turn that carries `transcript` to the core, in this session.
    pub fn turn(&self, transcript: &str) -> (r: SpeechTurn)
        ensures
            r@ == (TurnView {
                session_id: self.session_id@,
                transcript: transcript@,
                locale: "en-US"@,
            }),
    {
        SpeechTurn {
            session_id: self.session_id.clone(),
            transcript: String::from_str(transcript),
            locale: String::from_str("en-US"),
        }
    }
}

} // verus!
