//! Startup configuration: an explicit struct built once by the host program
//! and handed by value into the components that need it — no global state.

use vstd::prelude::*;

verus! {

/// Mathematical content of the configuration.
pub struct EnvConfigView {
    pub jwt_secret: Seq<char>,
    pub jwt_domain: Seq<char>,
    pub access_control_allow_origin: Seq<char>,
    pub access_control_allow_methods: Seq<char>,
    pub access_control_allow_headers: Seq<char>,
    pub access_control_allow_credentials: Seq<char>,
}

/// Configuration the subsystem requires at initialization. The host program
/// is responsible for reading its six values from the environment and must
/// abort startup when one is absent; a misconfigured deployment must not
/// silently serve requests.
#[derive(Debug)]
pub struct EnvConfig {
    jwt_secret: String,
    jwt_domain: String,
    access_control_allow_origin: String,
    access_control_allow_methods: String,
    access_control_allow_headers: String,
    access_control_allow_credentials: String,
}

impl View for EnvConfig {
    type V = EnvConfigView;

    closed spec fn view(&self) -> EnvConfigView {
        EnvConfigView {
            jwt_secret: self.jwt_secret@,
            jwt_domain: self.jwt_domain@,
            access_control_allow_origin: self.access_control_allow_origin@,
            access_control_allow_methods: self.access_control_allow_methods@,
            access_control_allow_headers: self.access_control_allow_headers@,
            access_control_allow_credentials: self.access_control_allow_credentials@,
        }
    }
}

impl EnvConfig {
    pub fn new(
        jwt_secret: String,
        jwt_domain: String,
        access_control_allow_origin: String,
        access_control_allow_methods: String,
        access_control_allow_headers: String,
        access_control_allow_credentials: String,
    ) -> (r: Self)
        ensures
            r@ == (EnvConfigView {
                jwt_secret: jwt_secret@,
                jwt_domain: jwt_domain@,
                access_control_allow_origin: access_control_allow_origin@,
                access_control_allow_methods: access_control_allow_methods@,
                access_control_allow_headers: access_control_allow_headers@,
                access_control_allow_credentials: access_control_allow_credentials@,
            }),
    {
        Self {
            jwt_secret,
            jwt_domain,
            access_control_allow_origin,
            access_control_allow_methods,
            access_control_allow_headers,
            access_control_allow_credentials,
        }
    }

    /// Startup hook: constructing the value already proves every field was
    /// supplied, so there is nothing left to check here.
    pub fn check(&self) {
    }

    pub fn clone_jwt_secret(&self) -> (r: String)
        ensures
            r@ == self@.jwt_secret,
    {
        self.jwt_secret.clone()
    }

    pub fn clone_jwt_domain(&self) -> (r: String)
        ensures
            r@ == self@.jwt_domain,
    {
        self.jwt_domain.clone()
    }

    pub fn clone_access_control_allow_origin(&self) -> (r: String)
        ensures
            r@ == self@.access_control_allow_origin,
    {
        self.access_control_allow_origin.clone()
    }

    pub fn clone_access_control_allow_methods(&self) -> (r: String)
        ensures
            r@ == self@.access_control_allow_methods,
    {
        self.access_control_allow_methods.clone()
    }

    pub fn clone_access_control_allow_headers(&self) -> (r: String)
        ensures
            r@ == self@.access_control_allow_headers,
    {
        self.access_control_allow_headers.clone()
    }

    pub fn clone_access_control_allow_credentials(&self) -> (r: String)
        ensures
            r@ == self@.access_control_allow_credentials,
    {
        self.access_control_allow_credentials.clone()
    }
}

} // verus!
