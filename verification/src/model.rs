//! The invocation context: per-call metadata and the static function
//! configuration that travel beside every decoded request.
//!
//! These types only carry data. Each has a mathematical view in which text is
//! a `Seq<char>` and a string map is a `Map<Seq<char>, Seq<char>>`.

use std::collections::HashMap;
use vstd::prelude::*;

verus! {

/// Cognito identity information sent with the event.
#[derive(Clone, Debug, PartialEq)]
pub struct CognitoIdentity {
    /// The unique identity id for the Cognito credentials invoking the function.
    pub identity_id: String,
    /// The identity pool id the caller is registered with.
    pub identity_pool_id: String,
}

/// What a `CognitoIdentity` holds.
pub struct CognitoIdentityView {
    pub identity_id: Seq<char>,
    pub identity_pool_id: Seq<char>,
}

impl View for CognitoIdentity {
    type V = CognitoIdentityView;

    open spec fn view(&self) -> CognitoIdentityView {
        CognitoIdentityView {
            identity_id: self.identity_id@,
            identity_pool_id: self.identity_pool_id@,
        }
    }
}

/// AWS Mobile SDK client fields.
#[derive(Clone, Debug, PartialEq)]
pub struct ClientApplication {
    /// The mobile app installation id.
    pub installation_id: String,
    /// The app title for the mobile app as registered with AWS' mobile services.
    pub app_title: String,
    /// The version name of the application as registered with AWS' mobile services.
    pub app_version_name: String,
    /// The app version code.
    pub app_version_code: String,
    /// The package name for the mobile application invoking the function.
    pub app_package_name: String,
}

/// What a `ClientApplication` holds.
pub struct ClientApplicationView {
    pub installation_id: Seq<char>,
    pub app_title: Seq<char>,
    pub app_version_name: Seq<char>,
    pub app_version_code: Seq<char>,
    pub app_package_name: Seq<char>,
}

impl View for ClientApplication {
    type V = ClientApplicationView;

    open spec fn view(&self) -> ClientApplicationView {
        ClientApplicationView {
            installation_id: self.installation_id@,
            app_title: self.app_title@,
            app_version_name: self.app_version_name@,
            app_version_code: self.app_version_code@,
            app_package_name: self.app_package_name@,
        }
    }
}

/// Client context sent by the AWS Mobile SDK.
#[derive(Clone, Debug, PartialEq)]
pub struct ClientContext {
    /// Information about the mobile application invoking the function.
    pub client: ClientApplication,
    /// Custom properties attached to the mobile event context.
    pub custom: HashMap<String, String>,
    /// Environment settings from the mobile client.
    pub environment: HashMap<String, String>,
}

/// What a `ClientContext` holds.
pub struct ClientContextView {
    pub client: ClientApplicationView,
    pub custom: Map<Seq<char>, Seq<char>>,
    pub environment: Map<Seq<char>, Seq<char>>,
}

impl View for ClientContext {
    type V = ClientContextView;

    open spec fn view(&self) -> ClientContextView {
        ClientContextView {
            client: self.client@,
            custom: self.custom.deep_view(),
            environment: self.environment.deep_view(),
        }
    }
}

/// Function configuration, resolved once per process and handed to every
/// invocation.
#[derive(Clone, Debug, PartialEq)]
pub struct Config {
    /// The host and port of the runtime API.
    pub endpoint: String,
    /// The name of the function.
    pub function_name: String,
    /// The amount of memory available to the function in MB.
    pub memory: i32,
    /// The version of the function being executed.
    pub version: String,
    /// The name of the Amazon CloudWatch Logs stream for the function.
    pub log_stream: String,
    /// The name of the Amazon CloudWatch Logs group for the function.
    pub log_group: String,
}

/// What a `Config` holds.
pub struct ConfigView {
    pub endpoint: Seq<char>,
    pub function_name: Seq<char>,
    pub memory: int,
    pub version: Seq<char>,
    pub log_stream: Seq<char>,
    pub log_group: Seq<char>,
}

impl ConfigView {
    /// The configuration with every text empty and no memory.
    pub open spec fn blank() -> ConfigView {
        ConfigView {
            endpoint: Seq::empty(),
            function_name: Seq::empty(),
            memory: 0,
            version: Seq::empty(),
            log_stream: Seq::empty(),
            log_group: Seq::empty(),
        }
    }
}

impl View for Config {
    type V = ConfigView;

    open spec fn view(&self) -> ConfigView {
        ConfigView {
            endpoint: self.endpoint@,
            function_name: self.function_name@,
            memory: self.memory as int,
            version: self.version@,
            log_stream: self.log_stream@,
            log_group: self.log_group@,
        }
    }
}

impl Default for Config {
    /// The blank configuration.
    fn default() -> (config: Config)
        ensures
            config@ == ConfigView::blank(),
    {
        Config {
            endpoint: String::new(),
            function_name: String::new(),
            memory: 0,
            version: String::new(),
            log_stream: String::new(),
            log_group: String::new(),
        }
    }
}

/// Metadata of one invocation. The caller of the decoder fills it in before
/// each call; the decoder hands it on untouched.
#[non_exhaustive]
#[derive(Clone, Debug, PartialEq)]
pub struct Context {
    /// The AWS request ID generated by the Lambda service.
    pub request_id: String,
    /// The execution deadline for the current invocation in milliseconds
    /// since the epoch.
    pub deadline: u64,
    /// The ARN of the Lambda function being invoked.
    pub invoked_function_arn: String,
    /// The X-Ray trace ID for the current invocation.
    pub xray_trace_id: String,
    /// The client context object sent by the AWS mobile SDK, if any.
    pub client_context: Option<ClientContext>,
    /// The Cognito identity that invoked the function, if any.
    pub identity: Option<CognitoIdentity>,
    /// Function configuration from the local environment.
    pub env_config: Config,
    /// Number of times the function was invoked. Counted by the caller of
    /// the decoder, never by the decoder.
    pub invocations: u32,
}

/// What a `Context` holds.
pub struct ContextView {
    pub request_id: Seq<char>,
    pub deadline: nat,
    pub invoked_function_arn: Seq<char>,
    pub xray_trace_id: Seq<char>,
    pub client_context: Option<ClientContextView>,
    pub identity: Option<CognitoIdentityView>,
    pub env_config: ConfigView,
    pub invocations: nat,
}

impl ContextView {
    /// The context of no invocation: every text empty, every number zero,
    /// no client context, no identity, the blank configuration.
    pub open spec fn blank() -> ContextView {
        ContextView {
            request_id: Seq::empty(),
            deadline: 0,
            invoked_function_arn: Seq::empty(),
            xray_trace_id: Seq::empty(),
            client_context: None,
            identity: None,
            env_config: ConfigView::blank(),
            invocations: 0,
        }
    }
}

impl View for Context {
    type V = ContextView;

    open spec fn view(&self) -> ContextView {
        ContextView {
            request_id: self.request_id@,
            deadline: self.deadline as nat,
            invoked_function_arn: self.invoked_function_arn@,
            xray_trace_id: self.xray_trace_id@,
            client_context: match self.client_context {
                Some(client) => Some(client@),
                None => None,
            },
            identity: match self.identity {
                Some(identity) => Some(identity@),
                None => None,
            },
            env_config: self.env_config@,
            invocations: self.invocations as nat,
        }
    }
}

impl Default for Context {
    /// The blank context.
    fn default() -> (ctx: Context)
        ensures
            ctx@ == ContextView::blank(),
    {
        Context {
            request_id: String::new(),
            deadline: 0,
            invoked_function_arn: String::new(),
            xray_trace_id: String::new(),
            client_context: None,
            identity: None,
            env_config: Config::default(),
            invocations: 0,
        }
    }
}

} // verus!
