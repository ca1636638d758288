//! The clone configuration builder and the request it materializes.
use vstd::prelude::*;
use crate::checkout::{spec_mode_bits, CheckoutBuilder, CheckoutMode, CheckoutOptions, CheckoutState, mode_bits};
use crate::cstr::{c_buffer, c_string, has_nul, opt_bytes, opt_c_buffer, opt_c_string, opt_has_nul, opt_text, text_bytes};
use crate::error::Error;
use crate::ident::{Signature, SignatureView};

verus! {

/// Version stamp of the clone option block.
pub const CLONE_OPTIONS_VERSION: u32 = 1;

/// How the engine may treat a source on the local file system.
#[derive(Clone, Copy, PartialEq, Eq, Structural, Debug)]
pub enum CloneLocal {
    /// Bypass the transport for local paths, using hard links where it can.
    LocalAuto,
    /// Bypass the transport for every path given as local.
    Local,
    /// Never bypass the transport: clone as over a network.
    NoLocal,
    /// Bypass the transport for local paths, copying instead of linking.
    LocalNoLinks,
}

/// The transport mode of a local flag and a hard-link flag.
pub open spec fn spec_clone_local(local: bool, hardlinks: bool) -> CloneLocal {
    if !local {
        CloneLocal::NoLocal
    } else if hardlinks {
        CloneLocal::LocalAuto
    } else {
        CloneLocal::LocalNoLinks
    }
}

/// Maps the local flag and the hard-link flag to the transport mode: not
/// local means never local, whatever the hard-link flag; local with hard links
/// means local with automatic links; local without them means local with
/// copies.
pub fn clone_local(local: bool, hardlinks: bool) -> (r: CloneLocal)
    ensures
        r == spec_clone_local(local, hardlinks),
        (local && !hardlinks) ==> r == CloneLocal::LocalNoLinks,
        !local ==> r == CloneLocal::NoLocal,
        (local && hardlinks) ==> r == CloneLocal::LocalAuto,
{
    match (local, hardlinks) {
        (true, false) => CloneLocal::LocalNoLinks,
        (false, _) => CloneLocal::NoLocal,
        (true, _) => CloneLocal::LocalAuto,
    }
}

/// What a repository builder holds.
pub ghost struct RepoState {
    pub bare: bool,
    pub branch: Option<Seq<char>>,
    pub signature: Option<SignatureView>,
    pub local: bool,
    pub hardlinks: bool,
    pub checkout: Option<CheckoutState>,
    pub callbacks: bool,
}

/// Accumulates the configuration of a clone.
pub struct RepoBuilder {
    bare: bool,
    branch: Option<String>,
    sig: Option<Signature>,
    local: bool,
    hardlinks: bool,
    checkout: Option<CheckoutBuilder>,
    callbacks: bool,
}

impl View for RepoBuilder {
    type V = RepoState;

    closed spec fn view(&self) -> RepoState {
        RepoState {
            bare: self.bare,
            branch: opt_text(self.branch),
            signature: match self.sig {
                Some(s) => Some(s@),
                None => None,
            },
            local: self.local,
            hardlinks: self.hardlinks,
            checkout: match self.checkout {
                Some(c) => Some(c@),
                None => None,
            },
            callbacks: self.callbacks,
        }
    }
}

/// The strategy a clone checks out with unless a checkout builder refines it.
pub open spec fn clone_baseline_strategy() -> u32 {
    spec_mode_bits(CheckoutMode::SafeCreate)
}

impl RepoBuilder {
    /// A builder with the defaults: not bare, the remote's default branch, the
    /// default identity, local transport with hard links, the default
    /// checkout, no remote callbacks.
    pub fn new() -> (r: RepoBuilder)
        ensures
            r@ == (RepoState {
                bare: false,
                branch: None,
                signature: None,
                local: true,
                hardlinks: true,
                checkout: None,
                callbacks: false,
            }),
    {
        RepoBuilder {
            bare: false,
            branch: None,
            sig: None,
            local: true,
            hardlinks: true,
            checkout: None,
            callbacks: false,
        }
    }

    /// Whether the repository is cloned bare.
    pub fn bare(&mut self, bare: bool) -> (r: &mut RepoBuilder)
        ensures
            (*r)@ == (RepoState { bare, ..old(self)@ }),
            *final(self) == *final(r),
    {
        self.bare = bare;
        self
    }

    /// The branch to check out after the clone; without one, the remote's
    /// default branch.
    pub fn branch(&mut self, branch: &str) -> (r: &mut RepoBuilder)
        ensures
            (*r)@ == (RepoState { branch: Some(branch@), ..old(self)@ }),
            *final(self) == *final(r),
    {
        self.branch = Some(branch.to_string());
        self
    }

    /// The identity used when updating the reflog; without one, the default.
    pub fn signature(&mut self, sig: Signature) -> (r: &mut RepoBuilder)
        ensures
            (*r)@ == (RepoState { signature: Some(sig@), ..old(self)@ }),
            *final(self) == *final(r),
    {
        self.sig = Some(sig);
        self
    }

    /// Whether the transport is bypassed for local paths.
    pub fn local(&mut self, local: bool) -> (r: &mut RepoBuilder)
        ensures
            (*r)@ == (RepoState { local, ..old(self)@ }),
            *final(self) == *final(r),
    {
        self.local = local;
        self
    }

    /// Whether hard links are used when the transport is bypassed.
    pub fn hardlinks(&mut self, links: bool) -> (r: &mut RepoBuilder)
        ensures
            (*r)@ == (RepoState { hardlinks: links, ..old(self)@ }),
            *final(self) == *final(r),
    {
        self.hardlinks = links;
        self
    }

    /// The checkout performed after the clone.
    pub fn with_checkout(&mut self, checkout: CheckoutBuilder) -> (r: &mut RepoBuilder)
        ensures
            (*r)@ == (RepoState { checkout: Some(checkout@), ..old(self)@ }),
            *final(self) == *final(r),
    {
        self.checkout = Some(checkout);
        self
    }

    /// Records whether remote callbacks are registered to watch the
    /// download.
    pub fn remote_callbacks(&mut self, registered: bool) -> (r: &mut RepoBuilder)
        ensures
            (*r)@ == (RepoState { callbacks: registered, ..old(self)@ }),
            *final(self) == *final(r),
    {
        self.callbacks = registered;
        self
    }

    /// The checkout builder, if one was given.
    pub fn checkout(&self) -> (r: Option<&CheckoutBuilder>)
        ensures
            r is Some <==> self@.checkout is Some,
            r matches Some(c) ==> self@.checkout == Some(c@),
    {
        match &self.checkout {
            Some(c) => Some(c),
            None => None,
        }
    }

    /// The signature, if one was set.
    pub fn signature_ref(&self) -> (r: Option<&Signature>)
        ensures
            r is Some <==> self@.signature is Some,
            r matches Some(s) ==> self@.signature == Some(s@),
    {
        match &self.sig {
            Some(s) => Some(s),
            None => None,
        }
    }

    /// Materializes a clone of `url` into `into`: the option block, and the
    /// two locations as C strings. Fails, before anything reaches the engine,
    /// if the URL, the destination, the branch or a string of the checkout
    /// holds a NUL byte.
    pub fn clone_request(&self, url: &str, into: &str) -> (r: Result<CloneRequest<'_>, Error>)
        ensures
            r is Ok <==> !has_nul(text_bytes(url@)) && !has_nul(text_bytes(into@))
                && !self@.has_nul(),
            r matches Ok(q) ==> q.url@ == c_buffer(url@) && q.into@ == c_buffer(into@)
                && q.options.describes(self@),
            r matches Err(e) ==> e is InvalidNul,
    {
        let u = c_string(url)?;
        let d = c_string(into)?;
        let checkout_branch = opt_c_string(&self.branch)?;
        let checkout = match &self.checkout {
            Some(c) => Some(c.configure()?),
            None => None,
        };
        let checkout_strategy = match &checkout {
            Some(o) => o.checkout_strategy,
            None => mode_bits(CheckoutMode::SafeCreate),
        };
        let options = CloneOptions {
            version: CLONE_OPTIONS_VERSION,
            bare: self.bare,
            checkout_branch,
            signature: self.signature_ref(),
            local: clone_local(self.local, self.hardlinks),
            checkout_strategy,
            checkout,
            remote_callbacks: self.callbacks,
        };
        Ok(CloneRequest { url: u, into: d, options })
    }
}

/// A materialized clone option block, in plain values: the engine's block,
/// set to the engine's defaults first, is filled from it right before the
/// clone. A field that is `None` leaves the engine's default in place.
pub struct CloneOptions<'a> {
    pub version: u32,
    pub bare: bool,
    /// The branch to check out, or `None` for the remote's default branch.
    pub checkout_branch: Option<Vec<u8>>,
    /// The reflog identity, or `None` for the default identity.
    pub signature: Option<&'a Signature>,
    pub local: CloneLocal,
    /// The checkout strategy: the baseline, or the checkout builder's own.
    pub checkout_strategy: u32,
    /// The rest of the checkout block, when a checkout builder was given.
    pub checkout: Option<CheckoutOptions>,
    /// Whether the remote callbacks are attached.
    pub remote_callbacks: bool,
}

/// Everything one clone hands to the engine.
pub struct CloneRequest<'a> {
    pub url: Vec<u8>,
    pub into: Vec<u8>,
    pub options: CloneOptions<'a>,
}

impl RepoState {
    /// Whether the branch or a string of the checkout holds a NUL byte.
    pub open spec fn has_nul(self) -> bool {
        opt_has_nul(self.branch) || (self.checkout matches Some(c) && c.has_nul())
    }
}

impl<'a> CloneOptions<'a> {
    /// Whether this block is the materialization of a builder's state.
    pub open spec fn describes(self, s: RepoState) -> bool {
        &&& self.version == CLONE_OPTIONS_VERSION
        &&& self.bare == s.bare
        &&& opt_bytes(self.checkout_branch) == opt_c_buffer(s.branch)
        &&& match self.signature {
            Some(sig) => s.signature == Some(sig@),
            None => s.signature is None,
        }
        &&& self.local == spec_clone_local(s.local, s.hardlinks)
        &&& (self.checkout is Some <==> s.checkout is Some)
        &&& (s.checkout matches Some(c) ==> self.checkout matches Some(o) && o.describes(c)
            && self.checkout_strategy == c.strategy())
        &&& (s.checkout is None ==> self.checkout_strategy == clone_baseline_strategy())
        &&& self.remote_callbacks == s.callbacks
    }
}

} // verus!
