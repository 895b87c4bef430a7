//! The signaller that the media engine drives: it keeps the router's URL and
//! the control channel's state, and turns the engine's outbound events into
//! the frames to send. The owner of the transport sends them.
use vstd::prelude::*;
use crate::connection::{requested_step, step, Link, LinkAction, LinkEvent, LinkStatus};
use crate::protocol::{encode, host_ready_text, ice_text, offer_text, opt_text, Outbound};

verus! {

pub struct Signaller {
    link: Link,
    url: String,
}

impl Signaller {
    pub closed spec fn link_spec(&self) -> Link {
        self.link
    }

    pub closed spec fn url_spec(&self) -> Seq<char> {
        self.url@
    }

    /// A signaller that has no router URL yet and has never connected.
    pub fn new() -> (r: Signaller)
        ensures
            r.link_spec() == (Link { status: LinkStatus::Disconnected, established: false }),
            r.url_spec() == Seq::<char>::empty(),
    {
        Signaller { link: Link::new(), url: String::new() }
    }

    /// Sets the router URL and asks for a connection to it, in any state:
    /// the result is always `Connect`, and the link stays as it is until
    /// `connect_result` reports what the attempt gave.
    pub fn connect(&mut self, url: &str) -> (a: LinkAction)
        ensures
            final(self).url_spec() == url@,
            final(self).link_spec() == old(self).link_spec(),
            a == LinkAction::Connect,
    {
        self.url = String::from_str(url);
        LinkAction::Connect
    }

    /// Reports whether the connection that `connect` asked for was made: on
    /// success the link is up on the new transport (`Announce` where it had
    /// been up before); on failure `Abort`, the error going back to the caller
    /// at once, with no retry.
    pub fn connect_result(&mut self, opened: bool) -> (a: LinkAction)
        ensures
            final(self).link_spec() == requested_step(old(self).link_spec(), opened).0,
            a == requested_step(old(self).link_spec(), opened).1,
            final(self).url_spec() == old(self).url_spec(),
    {
        self.link.requested(opened)
    }

    /// The router URL to connect to.
    pub fn url(&self) -> (r: &str)
        ensures
            r@ == self.url_spec(),
    {
        self.url.as_str()
    }

    pub fn status(&self) -> (r: LinkStatus)
        ensures
            r == self.link_spec().status,
    {
        self.link.status
    }

    /// Reports what became of the transport; says what to do next.
    pub fn on_event(&mut self, e: LinkEvent) -> (a: LinkAction)
        ensures
            final(self).link_spec() == step(old(self).link_spec(), e).0,
            a == step(old(self).link_spec(), e).1,
            final(self).url_spec() == old(self).url_spec(),
    {
        self.link.on_event(e)
    }

    /// The media engine is ready for viewers: the host-ready frame to send.
    pub fn start(&self) -> (r: String)
        ensures
            r@ == host_ready_text(),
    {
        encode(&Outbound::HostReady)
    }

    /// The frame that offers session description `sdp` to viewer `peer_id`.
    pub fn handle_sdp(&self, peer_id: &str, sdp: &str) -> (r: String)
        ensures
            r@ == offer_text(peer_id@, sdp@),
    {
        encode(&Outbound::Offer { peer_id: String::from_str(peer_id), sdp: String::from_str(sdp) })
    }

    /// The frame that hands one of the host's ICE candidates to viewer `peer_id`.
    pub fn handle_ice(
        &self,
        peer_id: &str,
        candidate: &str,
        sdp_mline_index: Option<u32>,
        sdp_mid: Option<String>,
    ) -> (r: String)
        ensures
            r@ == ice_text(peer_id@, candidate@, sdp_mline_index, opt_text(sdp_mid)),
    {
        encode(
            &Outbound::IceCandidate {
                peer_id: String::from_str(peer_id),
                candidate: String::from_str(candidate),
                sdp_mline_index,
                sdp_mid,
            },
        )
    }

    /// The media engine stops the signaller; nothing is held that needs release.
    pub fn stop(&self) {
    }

    /// A viewer's session ended; nothing is kept per viewer.
    pub fn consumer_removed(&self, _peer_id: &str) {
    }
}

} // verus!
