//! The sessions that are open, found again by the offer that they were opened with.
use vstd::prelude::*;
use vstd::hash_map::StringHashMap;
use crate::description::{
    description_json, description_read, description_view, lemma_json_not_empty, write_json,
    Description, SdpType, SessionDescription,
};

verus! {

/// The description that names a peer's session: the offer of the two sides, wherever it is.
pub open spec fn naming_description(
    local: Option<Description>,
    remote: Option<Description>,
) -> Option<Description> {
    match local {
        Some(l) => if l.sdp_type == SdpType::Offer {
            Some(l)
        } else {
            remote
        },
        None => None,
    }
}

/// The key under which the session of a peer with these descriptions is kept: its offer in JSON, or
/// nothing where there is none.
pub open spec fn peer_key(local: Option<Description>, remote: Option<Description>) -> Seq<char> {
    match naming_description(local, remote) {
        Some(d) => d.json(),
        None => Seq::empty(),
    }
}

/// The session that an offer finds. An empty offer finds none.
pub open spec fn found<S>(sessions: Map<Seq<char>, S>, offer: Seq<char>) -> Option<S> {
    if offer.len() > 0 && sessions.contains_key(offer) {
        Some(sessions[offer])
    } else {
        None
    }
}

/// Picks the description that names a peer's session.
pub fn choose_naming<'a>(
    local: &'a Option<SessionDescription>,
    remote: &'a Option<SessionDescription>,
) -> (naming: Option<&'a SessionDescription>)
    ensures
        match naming {
            Some(d) => Some(d@),
            None => None,
        } == naming_description(description_view(*local), description_view(*remote)),
        // the local description where it is an offer, else the remote one
        match *local {
            Some(l) => if l.sdp_type == SdpType::Offer {
                naming == Some(&l)
            } else {
                match *remote {
                    Some(r) => naming == Some(&r),
                    None => naming is None,
                }
            },
            None => naming is None,
        },
{
    match local {
        Some(local_desc) => {
            if local_desc.sdp_type != SdpType::Offer {
                match remote {
                    Some(remote_desc) => Some(remote_desc),
                    None => None,
                }
            } else {
                Some(local_desc)
            }
        },
        None => None,
    }
}

/// The text that was written, or an empty one where writing failed.
pub fn text_or_empty<E>(written: Result<String, E>) -> (text: String)
    ensures
        text@ == (match written {
            Ok(t) => t@,
            Err(_) => Seq::empty(),
        }),
{
    match written {
        Ok(text) => text,
        Err(_) => String::new(),
    }
}

/// The JSON text of a description.
pub fn description_text(description: &SessionDescription) -> (text: String)
    ensures
        text@ == description@.json(),
        text@ == description_json(description.sdp_type, description.sdp@),
        text@.len() > 0,
        // the description is read back from the text
        Description::read(text@) == Some(description@),
        description_read(text@) == Some((description.sdp_type, description.sdp@)),
{
    proof {
        lemma_json_not_empty(description@);
    }
    text_or_empty(write_json(description))
}

/// A session is named by the local description where that is an offer, by the remote one where it
/// is not, and by nothing as long as there is no local description.
pub proof fn law_session_is_named_by_its_offer(
    local: Description,
    remote: Option<Description>,
)
    ensures
        naming_description(None, remote) is None,
        peer_key(None, remote) == Seq::<char>::empty(),
        local.sdp_type == SdpType::Offer ==> {
            &&& naming_description(Some(local), remote) == Some(local)
            &&& peer_key(Some(local), remote) == description_json(SdpType::Offer, local.sdp)
        },
        local.sdp_type != SdpType::Offer ==> {
            &&& naming_description(Some(local), remote) == remote
            &&& peer_key(Some(local), remote) == (match remote {
                Some(r) => description_json(r.sdp_type, r.sdp),
                None => Seq::empty(),
            })
        },
{
}

/// What an offer finds is what is kept under it, unless the offer is empty.
pub proof fn law_found_is_what_is_kept<S>(sessions: Map<Seq<char>, S>, offer: Seq<char>)
    ensures
        found(sessions, offer) is Some <==> offer.len() > 0 && sessions.contains_key(offer),
        found(sessions, offer) matches Some(session) ==> session == sessions[offer],
{
}

/// Open sessions by key. What a session is, is left to the one who keeps it here.
#[verifier::reject_recursive_types(S)]
pub struct SessionCache<S> {
    sessions: StringHashMap<S>,
}

impl<S> View for SessionCache<S> {
    type V = Map<Seq<char>, S>;

    closed spec fn view(&self) -> Map<Seq<char>, S> {
        self.sessions@
    }
}

impl<S> SessionCache<S> {
    /// No sessions.
    pub fn new() -> (cache: Self)
        ensures
            cache@ == Map::<Seq<char>, S>::empty(),
    {
        SessionCache { sessions: StringHashMap::new() }
    }

    /// The session that was opened with the offer.
    pub fn find(&self, offer: &str) -> (session: Option<&S>)
        ensures
            match session {
                Some(s) => Some(*s),
                None => None,
            } == found(self@, offer@),
            session is Some <==> offer@.len() > 0 && self@.contains_key(offer@),
            session matches Some(s) ==> *s == self@[offer@],
    {
        match self.sessions.get(offer) {
            Some(cached) => if offer.is_empty() {
                None
            } else {
                Some(cached)
            },
            None => None,
        }
    }

    /// Keeps a session under the key, in the place of any other.
    pub fn keep(&mut self, key: String, session: S)
        ensures
            final(self)@ == old(self)@.insert(key@, session),
    {
        self.sessions.insert(key, session);
    }

    /// Drops the session of a peer that has these descriptions.
    pub fn forget(
        &mut self,
        local: &Option<SessionDescription>,
        remote: &Option<SessionDescription>,
    )
        ensures
            final(self)@ == old(self)@.remove(
                peer_key(description_view(*local), description_view(*remote)),
            ),
            // the key is the JSON text of the offer of the two sides, wherever it is
            final(self)@ == old(self)@.remove(
                (match *local {
                    Some(l) => if l.sdp_type == SdpType::Offer {
                        description_json(SdpType::Offer, l.sdp@)
                    } else {
                        match *remote {
                            Some(r) => description_json(r.sdp_type, r.sdp@),
                            None => Seq::empty(),
                        }
                    },
                    None => Seq::empty(),
                }),
            ),
    {
        let key = crate::webrtc::WebRTCStream::get_key_for_peer(local, remote);
        self.sessions.remove(key.as_str());
    }
}

} // verus!
