//! Answering the requests of clients.
use vstd::prelude::*;

use crate::protocol::append::ThreadItemsListResponseView;
use crate::protocol::event::RequestEventsListResponseView;
use crate::protocol::request::{
    RequestCancelResponseView, RequestReadResponseView, RequestRunResponseView,
    RequestTerminalResponseView,
};
use crate::protocol::{
    AppendThreadItemsWithLeaseParams, AppendThreadItemsWithLeaseResponse, RequestCancelParams,
    RequestCancelResponse, RequestEventsListParams, RequestEventsListResponse, RequestReadParams,
    RequestReadResponse, RequestRunParams, RequestRunResponse, RequestTerminalParams,
    RequestTerminalResponse, ThreadItemsListParams, ThreadItemsListResponse,
};
use crate::records::{outcome, CloudStateError, ErrorView};
use crate::request_store::CloudStateStore;
use crate::service_runtime::CloudRequestServiceRuntime;
use crate::service_steps::thread_for;

verus! {

/// The environment variable that holds the address of the database if no other one is named.
pub const DEFAULT_MYSQL_URL_ENV_VAR: &'static str = "CODEX_CLOUD_STATE_MYSQL_URL";

/// An error as clients see it.
#[derive(Debug, Clone, PartialEq, Eq)]
pub enum RpcError {
    /// The request cannot be answered as it was put.
    InvalidParams(String),
    /// The server has failed.
    Internal(String),
}

/// What an [`RpcError`] says.
#[verifier::ext_equal]
pub enum RpcErrorView {
    InvalidParams(Seq<char>),
    Internal(Seq<char>),
}

impl DeepView for RpcError {
    type V = RpcErrorView;

    open spec fn deep_view(&self) -> RpcErrorView {
        match self {
            RpcError::InvalidParams(message) => RpcErrorView::InvalidParams(message@),
            RpcError::Internal(message) => RpcErrorView::Internal(message@),
        }
    }
}

/// What a result says, in the case of success and of failure.
pub open spec fn rpc_outcome<T: DeepView>(r: Result<T, RpcError>) -> Result<T::V, RpcErrorView> {
    match r {
        Ok(value) => Ok(value.deep_view()),
        Err(error) => Err(error.deep_view()),
    }
}

/// An error of the service as clients see it: a failure of the store is the server's, all
/// others are theirs.
pub open spec fn rpc_error(error: ErrorView) -> RpcErrorView {
    match error {
        ErrorView::Storage(_) => RpcErrorView::Internal(error.message()),
        _ => RpcErrorView::InvalidParams(error.message()),
    }
}

/// An answer of the service as clients see it.
pub open spec fn rpc_answer<V>(r: Result<V, ErrorView>) -> Result<V, RpcErrorView> {
    match r {
        Ok(value) => Ok(value),
        Err(error) => Err(rpc_error(error)),
    }
}

/// An error of the service as clients see it.
pub fn cloud_state_error(error: CloudStateError) -> (r: RpcError)
    ensures
        r.deep_view() == rpc_error(error.deep_view()),
{
    match error {
        CloudStateError::IdempotencyConflict
        | CloudStateError::EmptyAppend
        | CloudStateError::InvalidEventPayload
        | CloudStateError::LeaseLost
        | CloudStateError::RequestNotQueued
        | CloudStateError::RequestNotFound
        | CloudStateError::ThreadMismatch
        | CloudStateError::ThreadVersionConflict => RpcError::InvalidParams(error.message()),
        CloudStateError::Storage(_) => RpcError::Internal(error.message()),
    }
}

fn answer<T: DeepView>(r: Result<T, CloudStateError>) -> (answered: Result<T, RpcError>)
    ensures
        rpc_outcome(answered) == rpc_answer(outcome(r)),
{
    match r {
        Ok(value) => Ok(value),
        Err(error) => Err(cloud_state_error(error)),
    }
}

/// The error if the environment variable with the address of the database is not set.
pub fn database_url_missing(database_url_env_var: &String) -> (r: RpcError)
    ensures
        r.deep_view() == RpcErrorView::Internal(
            "cloud runtime MySQL state store requires "@ + database_url_env_var@ + " to be set"@,
        ),
{
    let mut message = "cloud runtime MySQL state store requires ".to_owned();
    message.append(database_url_env_var.as_str());
    message.append(" to be set");
    RpcError::Internal(message)
}

/// Where the state of requests is kept.
#[derive(Debug, Clone, Copy, PartialEq, Eq, Structural)]
pub enum CloudRuntimeStateStore {
    InMemory,
    Mysql,
}

/// The settings of the processor.
#[derive(Debug, Clone, PartialEq, Eq)]
pub struct CloudRuntimeConfig {
    pub state_store: CloudRuntimeStateStore,
    pub mysql_url_env_var: Option<String>,
    pub mysql_max_connections: u32,
}

/// The service, or what it takes to connect it to its database.
#[derive(Debug)]
pub enum CloudWrapperRequestServiceState<M> {
    Ready(CloudRequestServiceRuntime<M>),
    UninitializedMysql { database_url_env_var: String, max_connections: u32 },
}

/// Answers the requests of clients.
#[derive(Debug)]
pub struct CloudWrapperRequestProcessor<M> {
    request_service: CloudWrapperRequestServiceState<M>,
}

impl<M: CloudStateStore> Default for CloudWrapperRequestProcessor<M> {
    fn default() -> (r: Self)
        ensures
            r.valid(),
            r.starts_in_memory(),
    {
        CloudWrapperRequestProcessor {
            request_service: CloudWrapperRequestServiceState::Ready(
                CloudRequestServiceRuntime::default(),
            ),
        }
    }
}

impl<M: CloudStateStore> CloudWrapperRequestProcessor<M> {
    /// The service, or what it takes to connect it to its database.
    pub closed spec fn state(&self) -> CloudWrapperRequestServiceState<M> {
        self.request_service
    }

    /// Whether the service is there.
    pub open spec fn ready(&self) -> bool {
        self.state() is Ready
    }

    /// The service.
    pub open spec fn service(&self) -> CloudRequestServiceRuntime<M> {
        self.state()->Ready_0
    }

    /// The invariant of the processor.
    pub open spec fn valid(&self) -> bool {
        self.ready() ==> self.service().valid()
    }

    /// Whether the processor has a service over an empty store in memory.
    pub open spec fn starts_in_memory(&self) -> bool {
        &&& self.ready()
        &&& self.service() matches CloudRequestServiceRuntime::InMemory(service)
        &&& service.store()@ == crate::model::StoreModel::empty()
        &&& service.threads_made() == 0
    }

    /// A processor with these settings.
    pub fn new(config: &CloudRuntimeConfig) -> (r: Self)
        ensures
            r.valid(),
            match config.state_store {
                CloudRuntimeStateStore::InMemory => r.starts_in_memory(),
                CloudRuntimeStateStore::Mysql => {
                    &&& r.state() matches CloudWrapperRequestServiceState::UninitializedMysql {
                        database_url_env_var,
                        max_connections,
                    }
                    &&& database_url_env_var@ == match config.mysql_url_env_var {
                        Some(name) => name@,
                        None => DEFAULT_MYSQL_URL_ENV_VAR@,
                    }
                    &&& max_connections == config.mysql_max_connections
                },
            },
    {
        match config.state_store {
            CloudRuntimeStateStore::InMemory => CloudWrapperRequestProcessor::default(),
            CloudRuntimeStateStore::Mysql => CloudWrapperRequestProcessor {
                request_service: CloudWrapperRequestServiceState::UninitializedMysql {
                    database_url_env_var: match &config.mysql_url_env_var {
                        Some(name) => name.clone(),
                        None => DEFAULT_MYSQL_URL_ENV_VAR.to_owned(),
                    },
                    max_connections: config.mysql_max_connections,
                },
            },
        }
    }

    /// The environment variable with the address of the database that has to be connected
    /// first, and the number of connections; none if the service is there.
    pub fn missing_database(&self) -> (r: Option<(String, u32)>)
        ensures
            match self.state() {
                CloudWrapperRequestServiceState::Ready(_) => r is None,
                CloudWrapperRequestServiceState::UninitializedMysql {
                    database_url_env_var,
                    max_connections,
                } => r matches Some((name, connections)) && name@ == database_url_env_var@
                    && connections == max_connections,
            },
    {
        match &self.request_service {
            CloudWrapperRequestServiceState::Ready(_) => None,
            CloudWrapperRequestServiceState::UninitializedMysql {
                database_url_env_var,
                max_connections,
            } => Some((database_url_env_var.clone(), *max_connections)),
        }
    }

    /// Whether the service is there and can name another thread.
    pub fn can_name_thread(&self) -> (r: bool)
        ensures
            r == (self.ready() && self.service().threads_made() < u64::MAX),
    {
        match &self.request_service {
            CloudWrapperRequestServiceState::Ready(service) => service.can_name_thread(),
            CloudWrapperRequestServiceState::UninitializedMysql { .. } => false,
        }
    }

    /// Connects a processor that has no service yet to a durable store.
    pub fn connect(&mut self, store: M)
        requires
            store.valid(),
            !old(self).ready(),
        ensures
            final(self).valid(),
            final(self).ready(),
            final(self).service() matches CloudRequestServiceRuntime::Mysql(service)
                && service.store() == store && service.threads_made() == 0,
    {
        self.request_service = CloudWrapperRequestServiceState::Ready(
            CloudRequestServiceRuntime::mysql(store),
        );
    }

    /// Runs a request.
    pub fn request_run(
        &mut self,
        caller_id: &str,
        params: RequestRunParams,
    ) -> (r: Result<RequestRunResponse, RpcError>)
        requires
            old(self).ready(),
            old(self).valid(),
            params.thread_id is None ==> old(self).service().threads_made() < u64::MAX,
        ensures
            final(self).ready(),
            final(self).valid(),
            final(self).service().threads_made() == thread_for(
                old(self).service().threads_made(),
                params.thread_id.deep_view(),
            ).0,
            exists|answered: Result<RequestRunResponseView, ErrorView>| #[trigger]
                CloudRequestServiceRuntime::run_comes_to(
                    old(self).service(),
                    caller_id@,
                    params,
                    final(self).service(),
                    answered,
                ) && rpc_outcome(r) == rpc_answer(answered),
    {
        let ghost before = self.service();
        match &mut self.request_service {
            CloudWrapperRequestServiceState::Ready(service) => {
                let answered = service.run(caller_id, params);
                assert(CloudRequestServiceRuntime::run_comes_to(
                    before,
                    caller_id@,
                    params,
                    *service,
                    outcome(answered),
                ));
                answer(answered)
            },
            CloudWrapperRequestServiceState::UninitializedMysql { .. } => {
                vstd::pervasive::unreached()
            },
        }
    }

    /// A caller's request.
    pub fn request_read(
        &self,
        caller_id: &str,
        params: RequestReadParams,
    ) -> (r: Result<RequestReadResponse, RpcError>)
        requires
            self.ready(),
            self.valid(),
        ensures
            exists|answered: Result<RequestReadResponseView, ErrorView>| #[trigger]
                CloudRequestServiceRuntime::read_shows(
                    self.service(),
                    caller_id@,
                    params,
                    answered,
                ) && rpc_outcome(r) == rpc_answer(answered),
    {
        let ghost before = self.service();
        match &self.request_service {
            CloudWrapperRequestServiceState::Ready(service) => {
                let answered = service.read(caller_id, params);
                assert(CloudRequestServiceRuntime::read_shows(
                    before,
                    caller_id@,
                    params,
                    outcome(answered),
                ));
                answer(answered)
            },
            CloudWrapperRequestServiceState::UninitializedMysql { .. } => {
                vstd::pervasive::unreached()
            },
        }
    }

    /// Appends items to a thread for a caller.
    pub fn thread_append_with_lease(
        &mut self,
        caller_id: &str,
        params: AppendThreadItemsWithLeaseParams,
    ) -> (r: Result<AppendThreadItemsWithLeaseResponse, RpcError>)
        requires
            old(self).ready(),
            old(self).valid(),
        ensures
            final(self).ready(),
            final(self).valid(),
            final(self).service().threads_made() == old(self).service().threads_made(),
            exists|answered: Result<AppendThreadItemsWithLeaseResponse, ErrorView>| #[trigger]
                CloudRequestServiceRuntime::append_thread_items_with_lease_comes_to(
                    old(self).service(),
                    caller_id@,
                    params,
                    final(self).service(),
                    answered,
                ) && rpc_outcome(r) == rpc_answer(answered),
    {
        let ghost before = self.service();
        match &mut self.request_service {
            CloudWrapperRequestServiceState::Ready(service) => {
                let answered = service.append_thread_items_with_lease(caller_id, params);
                assert(CloudRequestServiceRuntime::append_thread_items_with_lease_comes_to(
                    before,
                    caller_id@,
                    params,
                    *service,
                    outcome(answered),
                ));
                answer(answered)
            },
            CloudWrapperRequestServiceState::UninitializedMysql { .. } => {
                vstd::pervasive::unreached()
            },
        }
    }

    /// Items of a thread to which the caller has access.
    pub fn thread_items_list(
        &self,
        caller_id: &str,
        params: ThreadItemsListParams,
    ) -> (r: Result<ThreadItemsListResponse, RpcError>)
        requires
            self.ready(),
            self.valid(),
        ensures
            exists|answered: Result<ThreadItemsListResponseView, ErrorView>| #[trigger]
                CloudRequestServiceRuntime::thread_items_list_shows(
                    self.service(),
                    caller_id@,
                    params,
                    answered,
                ) && rpc_outcome(r) == rpc_answer(answered),
    {
        let ghost before = self.service();
        match &self.request_service {
            CloudWrapperRequestServiceState::Ready(service) => {
                let answered = service.thread_items_list(caller_id, params);
                assert(CloudRequestServiceRuntime::thread_items_list_shows(
                    before,
                    caller_id@,
                    params,
                    outcome(answered),
                ));
                answer(answered)
            },
            CloudWrapperRequestServiceState::UninitializedMysql { .. } => {
                vstd::pervasive::unreached()
            },
        }
    }

    /// Cancels a caller's request.
    pub fn request_cancel(
        &mut self,
        caller_id: &str,
        params: RequestCancelParams,
    ) -> (r: Result<RequestCancelResponse, RpcError>)
        requires
            old(self).ready(),
            old(self).valid(),
        ensures
            final(self).ready(),
            final(self).valid(),
            final(self).service().threads_made() == old(self).service().threads_made(),
            exists|answered: Result<RequestCancelResponseView, ErrorView>| #[trigger]
                CloudRequestServiceRuntime::cancel_comes_to(
                    old(self).service(),
                    caller_id@,
                    params,
                    final(self).service(),
                    answered,
                ) && rpc_outcome(r) == rpc_answer(answered),
    {
        let ghost before = self.service();
        match &mut self.request_service {
            CloudWrapperRequestServiceState::Ready(service) => {
                let answered = service.cancel(caller_id, params);
                assert(CloudRequestServiceRuntime::cancel_comes_to(
                    before,
                    caller_id@,
                    params,
                    *service,
                    outcome(answered),
                ));
                answer(answered)
            },
            CloudWrapperRequestServiceState::UninitializedMysql { .. } => {
                vstd::pervasive::unreached()
            },
        }
    }

    /// Ends a caller's request.
    pub fn request_terminal(
        &mut self,
        caller_id: &str,
        params: RequestTerminalParams,
    ) -> (r: Result<RequestTerminalResponse, RpcError>)
        requires
            old(self).ready(),
            old(self).valid(),
        ensures
            final(self).ready(),
            final(self).valid(),
            final(self).service().threads_made() == old(self).service().threads_made(),
            exists|answered: Result<RequestTerminalResponseView, ErrorView>| #[trigger]
                CloudRequestServiceRuntime::terminal_signal_comes_to(
                    old(self).service(),
                    caller_id@,
                    params.request_id@,
                    params.signal,
                    params.payload_inline.deep_view(),
                    final(self).service(),
                    answered,
                ) && rpc_outcome(r) == rpc_answer(answered),
    {
        let ghost before = self.service();
        match &mut self.request_service {
            CloudWrapperRequestServiceState::Ready(service) => {
                let answered = service.terminal(caller_id, params);
                assert(CloudRequestServiceRuntime::terminal_signal_comes_to(
                    before,
                    caller_id@,
                    params.request_id@,
                    params.signal,
                    params.payload_inline.deep_view(),
                    *service,
                    outcome(answered),
                ));
                answer(answered)
            },
            CloudWrapperRequestServiceState::UninitializedMysql { .. } => {
                vstd::pervasive::unreached()
            },
        }
    }

    /// Events of a caller's request.
    pub fn request_events_list(
        &self,
        caller_id: &str,
        params: RequestEventsListParams,
    ) -> (r: Result<RequestEventsListResponse, RpcError>)
        requires
            self.ready(),
            self.valid(),
        ensures
            exists|answered: Result<RequestEventsListResponseView, ErrorView>| #[trigger]
                CloudRequestServiceRuntime::events_list_shows(
                    self.service(),
                    caller_id@,
                    params,
                    answered,
                ) && rpc_outcome(r) == rpc_answer(answered),
    {
        let ghost before = self.service();
        match &self.request_service {
            CloudWrapperRequestServiceState::Ready(service) => {
                let answered = service.events_list(caller_id, params);
                assert(CloudRequestServiceRuntime::events_list_shows(
                    before,
                    caller_id@,
                    params,
                    outcome(answered),
                ));
                answer(answered)
            },
            CloudWrapperRequestServiceState::UninitializedMysql { .. } => {
                vstd::pervasive::unreached()
            },
        }
    }
}

} // verus!
