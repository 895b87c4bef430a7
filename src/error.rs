//! Errors surfaced to the process.
use vstd::prelude::*;

verus! {

/// Why establishing the transport to the router failed.
pub enum ConnectError {
    /// A TLS or certificate failure, with the transport's own description.
    Tls(String),
    /// Any other transport failure, with its description.
    Network(String),
}

/// The host's errors, each with a description of its cause.
pub enum RVCCError {
    Fail(String),
    GST(String),
    GSTState(String),
    RouterComms(String),
}

pub enum RVCCErrorView {
    Fail(Seq<char>),
    GST(Seq<char>),
    GSTState(Seq<char>),
    RouterComms(Seq<char>),
}

impl View for RVCCError {
    type V = RVCCErrorView;

    open spec fn view(&self) -> RVCCErrorView {
        match self {
            RVCCError::Fail(s) => RVCCErrorView::Fail(s@),
            RVCCError::GST(s) => RVCCErrorView::GST(s@),
            RVCCError::GSTState(s) => RVCCErrorView::GSTState(s@),
            RVCCError::RouterComms(s) => RVCCErrorView::RouterComms(s@),
        }
    }
}

pub open spec fn tls_hint_text(detail: Seq<char>) -> Seq<char> {
    "Router TLS error >>> if using a Self Signed Certificate on the router, ensure this is installed on the system <<< ("@
        + detail + ")"@
}

pub open spec fn message_text(e: RVCCErrorView) -> Seq<char> {
    match e {
        RVCCErrorView::Fail(s) => "Error: "@ + s,
        RVCCErrorView::GST(s) => "Media and Input Streaming (WebRTC/GStreamer) Error: "@ + s,
        RVCCErrorView::GSTState(s) => "Media and Input Streaming (WebRTC/GStreamer) Error: "@ + s,
        RVCCErrorView::RouterComms(s) => "Router Connection (WebSocket) Error: "@ + s,
    }
}

impl RVCCError {
    /// The error for a failed connection to the router: a TLS failure gets a
    /// hint to install the router's self-signed certificate; any other
    /// failure is a router communication error with the same description.
    pub fn from_connect(e: ConnectError) -> (r: RVCCError)
        ensures
            match e {
                ConnectError::Tls(d) => r@ == RVCCErrorView::Fail(tls_hint_text(d@)),
                ConnectError::Network(d) => r@ == RVCCErrorView::RouterComms(d@),
            },
    {
        match e {
            ConnectError::Tls(d) => {
                let mut m = String::from_str(
                    "Router TLS error >>> if using a Self Signed Certificate on the router, ensure this is installed on the system <<< (",
                );
                m.append(d.as_str());
                m.append(")");
                RVCCError::Fail(m)
            },
            ConnectError::Network(d) => RVCCError::RouterComms(d),
        }
    }

    /// The description shown to the user.
    pub fn message(&self) -> (r: String)
        ensures
            r@ == message_text(self@),
    {
        let (mut m, s) = match self {
            RVCCError::Fail(s) => (String::from_str("Error: "), s),
            RVCCError::GST(s) => (
                String::from_str("Media and Input Streaming (WebRTC/GStreamer) Error: "),
                s,
            ),
            RVCCError::GSTState(s) => (
                String::from_str("Media and Input Streaming (WebRTC/GStreamer) Error: "),
                s,
            ),
            RVCCError::RouterComms(s) => (String::from_str("Router Connection (WebSocket) Error: "), s),
        };
        m.append(s.as_str());
        m
    }
}

} // verus!
