//! The org-facing entry point: holds the client id and loopback port, and
//! starts authorization attempts against an org's provider URL.

use vstd::prelude::*;
use crate::controller::FlowLifecycleController;
use crate::errors::FlowError;
use crate::flow::authorize_endpoint_chars;
use crate::flow::redirect_uri_chars;
use crate::flow::token_endpoint_chars;
use crate::urls::base_url_chars;
use crate::urls::get_base_url;
use crate::urls::parses_as_url;

verus! {

/// One org's authentication service: the configured client id and
/// loopback port, and the lifecycle controller of the single in-flight
/// attempt.
pub struct Service {
    /// Provider-issued public client identifier.
    pub client_id: String,
    /// The fixed loopback port for the redirect callback.
    pub oauth_port: String,
    /// The attempt lifecycle; at most one attempt at a time.
    pub controller: FlowLifecycleController,
}

impl Service {
    /// A service with the given configuration and no attempt in progress.
    pub fn init(client_id: &str, oauth_port: &str) -> (r: Service)
        ensures
            r.client_id@ == client_id@,
            r.oauth_port@ == oauth_port@,
            r.controller.wf(),
            r.controller.phase is Idle,
            r.controller.flow is None,
            r.controller.listener.state is Down,
            r.controller.listener.port@ == oauth_port@,
    {
        Service {
            client_id: client_id.to_owned(),
            oauth_port: oauth_port.to_owned(),
            controller: FlowLifecycleController::new(oauth_port),
        }
    }

    /// Starts an attempt against the org: derives the provider base URL
    /// from the custom domain and sandbox flag, then begins the flow. On
    /// `Ok` the embedding application must bind the listener on
    /// `oauth_port`, report through the controller, and open the
    /// authorization URL once the listener is up.
    pub fn authorize_org(&mut self, custom_domain: Option<&str>, is_sandbox: bool) -> (r: Result<
        (),
        FlowError,
    >)
        requires
            old(self).controller.wf(),
        ensures
            final (self).controller.wf(),
            final (self).client_id == old(self).client_id,
            final (self).oauth_port == old(self).oauth_port,
            !(old(self).controller.phase is Idle) ==> r == Err::<(), FlowError>(
                FlowError::FlowAlreadyInProgress,
            ) && final (self).controller == old(self).controller,
            old(self).controller.phase is Idle ==> {
                let base = base_url_chars(custom_domain, is_sandbox);
                let ok = parses_as_url(authorize_endpoint_chars(base)) && parses_as_url(
                    token_endpoint_chars(base),
                ) && parses_as_url(redirect_uri_chars(old(self).controller.listener.port@));
                &&& !ok ==> r == Err::<(), FlowError>(FlowError::ConfigurationError) && final (
                    self
                ).controller == old(self).controller
                &&& ok ==> {
                    &&& r is Ok
                    &&& final (self).controller.phase is Starting
                    &&& final (self).controller.flow matches Some(f) && f.wf() && f.derived_from(
                        base,
                        old(self).client_id@,
                        old(self).controller.listener.port@,
                    )
                }
            },
    {
        let base_url = get_base_url(custom_domain, is_sandbox);
        let client_id = self.client_id.clone();
        self.controller.begin(base_url.as_str(), client_id.as_str())
    }
}

} // verus!
