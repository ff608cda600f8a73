//! What the screen-capture permission broker hands back, and the errors of
//! each negotiation step.

use vstd::prelude::*;

verus! {

/// The broker client's error, carried through opaque inside `PortalError`.
#[verifier::external_type_specification]
#[verifier::external_body]
pub struct ExPortalCallError(ashpd::Error);

/// A capturable video source offered by the broker.
#[derive(Debug, Clone, Copy, PartialEq, Eq, Structural)]
pub struct PortalStream {
    /// Node of the video transport to connect to.
    pub node_id: u32,
    /// Reported width, in compositor logical units.
    pub width: Option<i32>,
    /// Reported height, in compositor logical units.
    pub height: Option<i32>,
}

impl PortalStream {
    /// A source from its node id and its reported size, if any.
    pub fn from_parts(node_id: u32, size: Option<(i32, i32)>) -> (r: Self)
        ensures
            r.node_id == node_id,
            r.width == (match size {
                Some((w, _)) => Some(w),
                None => None::<i32>,
            }),
            r.height == (match size {
                Some((_, h)) => Some(h),
                None => None::<i32>,
            }),
    {
        let (width, height) = match size {
            Some((w, h)) => (Some(w), Some(h)),
            None => (None, None),
        };
        PortalStream { node_id, width, height }
    }
}

/// Why negotiating a capture session failed. Each broker step has its own.
#[derive(Debug)]
pub enum PortalError {
    /// The proxy to the broker could not be opened.
    Create(ashpd::Error),
    /// The capture session could not be created.
    Session(ashpd::Error),
    /// Source selection was refused.
    SelectSources(ashpd::Error),
    /// The session could not be started.
    Start(ashpd::Error),
    /// The user cancelled the consent dialog, or the response failed.
    Response(ashpd::Error),
    /// The broker offered no source.
    NoStreams,
    /// The video transport could not be opened.
    PipeWireRemote(ashpd::Error),
}

/// The sources a started session offers, and the token that lets a later
/// negotiation skip the consent dialog.
#[derive(Debug, Clone)]
pub struct OfferedSources {
    pub streams: Vec<PortalStream>,
    pub restore_token: Option<String>,
}

/// Accepts what a started session offers. A session without sources cannot
/// capture and ends the negotiation.
pub fn accept_sources(streams: Vec<PortalStream>, restore_token: Option<String>) -> (r: Result<
    OfferedSources,
    PortalError,
>)
    ensures
        streams@.len() == 0 <==> r is Err,
        r matches Err(e) ==> e is NoStreams,
        r matches Ok(o) ==> o.streams@ == streams@ && o.restore_token == restore_token,
{
    if streams.len() == 0 {
        Err(PortalError::NoStreams)
    } else {
        Ok(OfferedSources { streams, restore_token })
    }
}

} // verus!
