//! Health probes: what each kind of probe looks at, how it is named in
//! diagnostics, and how the answer it gets is judged.
//!
//! A probe reads the outside world and changes nothing. The reading itself
//! is done by the caller; the types here hold the probe's fixed settings and
//! decide from the raw answer whether the probe passed and, if not, why.

pub mod file;
pub mod http;
pub mod tcp;

pub use file::FileCheck;
pub use http::{HttpCheck, HttpReply, HttpStatus};
pub use tcp::{TcpCheck, TcpReply};

use crate::duration::Duration;
use vstd::prelude::*;

verus! {

/// What all probes have in common: a name for diagnostics.
pub trait Check {
    /// The name of the probe: its kind, a colon, and its target.
    spec fn label(&self) -> Seq<char>;

    /// The name of the probe, as [`Check::label`] states it.
    fn description(&self) -> (d: &str)
        ensures
            d@ == self.label(),
    ;
}

/// One configured probe of any kind.
#[derive(Debug)]
pub enum ProbeSpec {
    Tcp(TcpCheck),
    Http(HttpCheck),
    File(FileCheck),
}

/// A [`ProbeSpec`] by the values that define it, spans in nanoseconds.
pub enum ProbeView {
    Tcp { address: Seq<char>, timeout: nat },
    Http { url: Seq<char>, timeout: nat },
    File { path: Seq<char> },
}

impl ProbeView {
    /// The name of the probe: `tcp:`, `http:` or `file:` and the target.
    pub open spec fn label(self) -> Seq<char> {
        match self {
            ProbeView::Tcp { address, .. } => "tcp:"@ + address,
            ProbeView::Http { url, .. } => "http:"@ + url,
            ProbeView::File { path } => "file:"@ + path,
        }
    }

    /// The limit for one attempt, where the kind of probe has one.
    pub open spec fn timeout(self) -> Option<nat> {
        match self {
            ProbeView::Tcp { timeout, .. } => Some(timeout),
            ProbeView::Http { timeout, .. } => Some(timeout),
            ProbeView::File { .. } => None,
        }
    }
}

impl View for ProbeSpec {
    type V = ProbeView;

    open spec fn view(&self) -> ProbeView {
        match self {
            ProbeSpec::Tcp(check) => ProbeView::Tcp {
                address: check.address(),
                timeout: check.limit(),
            },
            ProbeSpec::Http(check) => ProbeView::Http { url: check.url(), timeout: check.limit() },
            ProbeSpec::File(check) => ProbeView::File { path: check.path() },
        }
    }
}

impl Check for ProbeSpec {
    open spec fn label(&self) -> Seq<char> {
        self@.label()
    }

    fn description(&self) -> (d: &str) {
        match self {
            ProbeSpec::Tcp(check) => check.description(),
            ProbeSpec::Http(check) => check.description(),
            ProbeSpec::File(check) => check.description(),
        }
    }
}

impl ProbeSpec {
    /// The limit for one attempt, where the kind of probe has one.
    pub fn timeout(&self) -> (limit: Option<Duration>)
        ensures
            match limit {
                Some(d) => self@.timeout() == Some(d@) && d.wf(),
                None => self@.timeout() is None,
            },
    {
        match self {
            ProbeSpec::Tcp(check) => Some(check.timeout()),
            ProbeSpec::Http(check) => Some(check.timeout()),
            ProbeSpec::File(_) => None,
        }
    }
}

/// The views of a sequence of probes.
pub open spec fn probe_views(probes: Seq<ProbeSpec>) -> Seq<ProbeView> {
    probes.map_values(|probe: ProbeSpec| probe@)
}

/// One TCP probe per address, in order.
pub open spec fn tcp_probes(addresses: Seq<String>, timeout: nat) -> Seq<ProbeView> {
    Seq::new(addresses.len(), |i: int| ProbeView::Tcp { address: addresses[i]@, timeout })
}

/// One HTTP probe per URL, in order.
pub open spec fn http_probes(urls: Seq<String>, timeout: nat) -> Seq<ProbeView> {
    Seq::new(urls.len(), |i: int| ProbeView::Http { url: urls[i]@, timeout })
}

/// One file probe per path, in order.
pub open spec fn file_probes(paths: Seq<String>) -> Seq<ProbeView> {
    Seq::new(paths.len(), |i: int| ProbeView::File { path: paths[i]@ })
}

/// Appends one TCP probe per address to `probes`.
pub fn push_tcp_probes(probes: &mut Vec<ProbeSpec>, addresses: &Vec<String>, timeout: Duration)
    ensures
        probe_views(final(probes)@) == probe_views(old(probes)@) + tcp_probes(
            addresses@,
            timeout@,
        ),
{
    let ghost before = probe_views(probes@);
    let mut i: usize = 0;
    while i < addresses.len()
        invariant
            i <= addresses@.len(),
            probe_views(probes@) == before + tcp_probes(addresses@.take(i as int), timeout@),
        decreases addresses@.len() - i,
    {
        let ghost so_far = probes@;
        let check = TcpCheck::new(addresses[i].clone(), timeout);
        let probe = ProbeSpec::Tcp(check);
        probes.push(probe);
        assert(probe_views(probes@) =~= probe_views(so_far).push(probe@));
        i += 1;
    }
}

/// Appends one HTTP probe per URL to `probes`.
pub fn push_http_probes(probes: &mut Vec<ProbeSpec>, urls: &Vec<String>, timeout: Duration)
    ensures
        probe_views(final(probes)@) == probe_views(old(probes)@) + http_probes(urls@, timeout@),
{
    let ghost before = probe_views(probes@);
    let mut i: usize = 0;
    while i < urls.len()
        invariant
            i <= urls@.len(),
            probe_views(probes@) == before + http_probes(urls@.take(i as int), timeout@),
        decreases urls@.len() - i,
    {
        let ghost so_far = probes@;
        let check = HttpCheck::new(urls[i].clone(), timeout);
        let probe = ProbeSpec::Http(check);
        probes.push(probe);
        assert(probe_views(probes@) =~= probe_views(so_far).push(probe@));
        i += 1;
    }
}

/// Appends one file probe per path to `probes`.
pub fn push_file_probes(probes: &mut Vec<ProbeSpec>, paths: &Vec<String>)
    ensures
        probe_views(final(probes)@) == probe_views(old(probes)@) + file_probes(paths@),
{
    let ghost before = probe_views(probes@);
    let mut i: usize = 0;
    while i < paths.len()
        invariant
            i <= paths@.len(),
            probe_views(probes@) == before + file_probes(paths@.take(i as int)),
        decreases paths@.len() - i,
    {
        let ghost so_far = probes@;
        let check = FileCheck::new(paths[i].as_str());
        let probe = ProbeSpec::File(check);
        probes.push(probe);
        assert(probe_views(probes@) =~= probe_views(so_far).push(probe@));
        i += 1;
    }
}

} // verus!
