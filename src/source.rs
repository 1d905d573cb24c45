//! Video source descriptors: a parsed URL and the transport its scheme selects.

use vstd::prelude::*;
use vstd::string::StringExecFns;

verus! {

/// The parts of an absolute URL: its serialization, scheme, host, port,
/// user name and password.
pub type UrlParts = (Seq<char>, Seq<char>, Option<Seq<char>>, Option<u16>, Seq<char>, Option<Seq<char>>);

/// What `url::Url::parse` makes of a text, read through its accessors.
pub uninterp spec fn parsed_url(s: Seq<char>) -> Option<UrlParts>;

/// A parsed source URL, held as plain values.
#[derive(Debug)]
pub struct SourceUrl {
    pub text: String,
    pub scheme: String,
    pub host: Option<String>,
    pub port: Option<u16>,
    pub username: String,
    pub password: Option<String>,
}

pub open spec fn opt_view(s: Option<String>) -> Option<Seq<char>> {
    match s {
        Some(v) => Some(v@),
        None => None,
    }
}

impl View for SourceUrl {
    type V = UrlParts;

    open spec fn view(&self) -> UrlParts {
        (self.text@, self.scheme@, opt_view(self.host), self.port, self.username@, opt_view(self.password))
    }
}

/// Relies on `url::Url::parse` and on the accessors `as_str`, `scheme`,
/// `host_str`, `port`, `username` and `password`: the parts of the URL that the
/// text denotes, or `None` where it is no absolute URL. They depend on the text
/// alone.
#[verifier::external_body]
fn parse_url(s: &str) -> (r: Option<SourceUrl>)
    ensures
        r is Some <==> parsed_url(s@) is Some,
        r matches Some(u) ==> parsed_url(s@) == Some(u@),
{
    url::Url::parse(s).ok().map(|u| SourceUrl {
        text: u.as_str().to_string(),
        scheme: u.scheme().to_string(),
        host: u.host_str().map(|h| h.to_string()),
        port: u.port(),
        username: u.username().to_string(),
        password: u.password().map(|p| p.to_string()),
    })
}

fn copy_opt(s: &Option<String>) -> (r: Option<String>)
    ensures
        opt_view(r) == opt_view(*s),
{
    match s {
        Some(v) => Some(v.clone()),
        None => None,
    }
}

impl SourceUrl {
    /// Parses an absolute URL; `None` where the text is none.
    pub fn parse(s: &str) -> (r: Option<SourceUrl>)
        ensures
            r is Some <==> parsed_url(s@) is Some,
            r matches Some(u) ==> parsed_url(s@) == Some(u@),
    {
        parse_url(s)
    }

    pub fn duplicate(&self) -> (r: SourceUrl)
        ensures
            r@ == self@,
    {
        SourceUrl {
            text: self.text.clone(),
            scheme: self.scheme.clone(),
            host: copy_opt(&self.host),
            port: self.port,
            username: self.username.clone(),
            password: copy_opt(&self.password),
        }
    }
}

/// The transport of a video source.
#[derive(Debug)]
pub enum VideoSource {
    RTP(SourceUrl),
    UDP(SourceUrl),
    RTSP(SourceUrl),
}

/// The transport kinds, without their URL.
#[derive(PartialEq, Eq, Structural, Clone, Copy, Debug)]
pub enum Transport {
    RTP,
    UDP,
    RTSP,
}

/// The transport that a URL scheme selects.
pub open spec fn transport_of_scheme(scheme: Seq<char>) -> Option<Transport> {
    if scheme == "rtp"@ {
        Some(Transport::RTP)
    } else if scheme == "udp"@ {
        Some(Transport::UDP)
    } else if scheme == "rtsp"@ {
        Some(Transport::RTSP)
    } else {
        None
    }
}

impl VideoSource {
    pub open spec fn transport(&self) -> Transport {
        match self {
            VideoSource::RTP(_) => Transport::RTP,
            VideoSource::UDP(_) => Transport::UDP,
            VideoSource::RTSP(_) => Transport::RTSP,
        }
    }

    pub open spec fn url(&self) -> UrlParts {
        match self {
            VideoSource::RTP(u) => u@,
            VideoSource::UDP(u) => u@,
            VideoSource::RTSP(u) => u@,
        }
    }

    pub fn url_ref(&self) -> (r: &SourceUrl)
        ensures
            r@ == self.url(),
    {
        match self {
            VideoSource::RTP(u) => u,
            VideoSource::UDP(u) => u,
            VideoSource::RTSP(u) => u,
        }
    }

    /// The source for a URL, by its scheme; `None` for a scheme that selects no
    /// supported transport.
    pub fn from_url(url: &SourceUrl) -> (r: Option<VideoSource>)
        ensures
            transport_of_scheme(url.scheme@) is None ==> r is None,
            transport_of_scheme(url.scheme@) matches Some(t) ==> r matches Some(s) && s.transport() == t
                && s.url() == url@,
    {
        if url.scheme == String::from_str("rtp") {
            Some(VideoSource::RTP(url.duplicate()))
        } else if url.scheme == String::from_str("udp") {
            Some(VideoSource::UDP(url.duplicate()))
        } else if url.scheme == String::from_str("rtsp") {
            Some(VideoSource::RTSP(url.duplicate()))
        } else {
            None
        }
    }
}

} // verus!
