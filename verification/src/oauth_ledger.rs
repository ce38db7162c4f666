//! The provider-settings bridge's book of fixture accounts and OAuth flows.
//! Accounts are kept per project scope (the bridge serves one fixture
//! provider and account, so the scope alone tells them apart) and flows per
//! flow id. The shell runs the OAuth handler and the credential service; the
//! book decides what each step may do and what it leaves behind.
use crate::provider_settings::{
    authorization_url, authorization_link, flow_error_code, flow_state_from_callback_error,
    map_callback_error, callback_code, oauth_flow_state, CallbackError, OAuthAccountStatus,
    OAuthErrorCode, OAuthFlowState, OAuthFlowStatus, OAuthStartResult, ProviderAccountState,
    ProviderAccountStatus, ProviderSettingsBridgeError, ProviderSettingsErrorCode,
    MOCK_ACCOUNT_ID, MOCK_PROVIDER_ID,
};
use crate::text::same_text;
use vstd::prelude::*;
use vstd::string::StrSliceExecFns;

verus! {

/// How long an OAuth flow stays open, in milliseconds.
pub const OAUTH_TTL_MS: u64 = 300_000;

/// The name the fixture account is shown under.
pub const FIXTURE_DISPLAY_NAME: &'static str = "Mock Provider";

/// The deadline of a flow started at `now_ms`.
pub fn flow_deadline(now_ms: u64) -> (r: u64)
    ensures
        r == (if now_ms + OAUTH_TTL_MS > u64::MAX { u64::MAX as int } else { now_ms + OAUTH_TTL_MS }),
{
    now_ms.saturating_add(OAUTH_TTL_MS)
}

/// An account as the book sees it.
pub struct AccountModel {
    pub status: ProviderAccountState,
    pub credential_ref: Option<Seq<char>>,
    pub updated_at: Seq<char>,
}

/// A flow as the book sees it.
pub struct FlowModel {
    pub scope: Seq<char>,
    pub verifier: Seq<char>,
    pub expires_at_ms: u64,
    pub status: OAuthFlowState,
    pub error_code: Option<OAuthErrorCode>,
}

pub open spec fn text_option(o: Option<String>) -> Option<Seq<char>> {
    match o {
        Some(s) => Some(s@),
        None => None,
    }
}

struct AccountRecord {
    scope: String,
    status: ProviderAccountState,
    credential_ref: Option<String>,
    updated_at: String,
}

impl AccountRecord {
    spec fn model(&self) -> AccountModel {
        AccountModel {
            status: self.status,
            credential_ref: text_option(self.credential_ref),
            updated_at: self.updated_at@,
        }
    }
}

struct FlowRecord {
    flow_id: String,
    scope: String,
    verifier: String,
    expires_at_ms: u64,
    status: OAuthFlowState,
    error_code: Option<OAuthErrorCode>,
}

impl FlowRecord {
    spec fn model(&self) -> FlowModel {
        FlowModel {
            scope: self.scope@,
            verifier: self.verifier@,
            expires_at_ms: self.expires_at_ms,
            status: self.status,
            error_code: self.error_code,
        }
    }
}

fn copy_text(o: &Option<String>) -> (r: Option<String>)
    ensures
        text_option(r) == text_option(*o),
{
    match o {
        Some(s) => Some(s.clone()),
        None => None,
    }
}

/// The status shown for an account of the book.
pub open spec fn shows_account(r: ProviderAccountStatus, m: AccountModel) -> bool {
    &&& r.provider_id@ == MOCK_PROVIDER_ID@
    &&& r.account_id@ == MOCK_ACCOUNT_ID@
    &&& r.display_name@ == FIXTURE_DISPLAY_NAME@
    &&& r.state == m.status
    &&& r.has_credential_ref == (m.credential_ref is Some)
    &&& r.updated_at@ == m.updated_at
}

/// Whether a new flow may start for a scope: not while its account is
/// connected or already pending.
pub open spec fn start_allowed(accounts: Map<Seq<char>, AccountModel>, scope: Seq<char>) -> bool {
    !(accounts.contains_key(scope) && (accounts[scope].status == ProviderAccountState::Connected
        || accounts[scope].status == ProviderAccountState::Pending))
}

/// The accounts once a flow started for a scope: its account (made if
/// missing, with no credential) is pending since `now`.
pub open spec fn started_accounts(
    accounts: Map<Seq<char>, AccountModel>,
    scope: Seq<char>,
    now: Seq<char>,
) -> Map<Seq<char>, AccountModel> {
    accounts.insert(
        scope,
        AccountModel {
            status: ProviderAccountState::Pending,
            credential_ref: if accounts.contains_key(scope) {
                accounts[scope].credential_ref
            } else {
                None
            },
            updated_at: now,
        },
    )
}

/// Why a flow of a scope may not be completed, if it may not: an unknown
/// flow is stale, another project's is refused, a connected one is a replay.
pub open spec fn completion_refusal(
    flows: Map<Seq<char>, FlowModel>,
    scope: Seq<char>,
    flow_id: Seq<char>,
) -> Option<ProviderSettingsErrorCode> {
    if !flows.contains_key(flow_id) {
        Some(ProviderSettingsErrorCode::Stale)
    } else if flows[flow_id].scope != scope {
        Some(ProviderSettingsErrorCode::Unauthorized)
    } else if flows[flow_id].status == OAuthFlowState::Connected {
        Some(ProviderSettingsErrorCode::Replay)
    } else {
        None
    }
}

/// The accounts once a scope's account was connected with a credential.
pub open spec fn connected_accounts(
    accounts: Map<Seq<char>, AccountModel>,
    scope: Seq<char>,
    credential_ref: Seq<char>,
    now: Seq<char>,
) -> Map<Seq<char>, AccountModel> {
    accounts.insert(
        scope,
        AccountModel {
            status: ProviderAccountState::Connected,
            credential_ref: Some(credential_ref),
            updated_at: now,
        },
    )
}

/// The flows once a flow connected: connected with no error, if it is known.
pub open spec fn connected_flows(flows: Map<Seq<char>, FlowModel>, flow_id: Seq<char>) -> Map<
    Seq<char>,
    FlowModel,
> {
    if flows.contains_key(flow_id) {
        flows.insert(
            flow_id,
            FlowModel {
                status: OAuthFlowState::Connected,
                error_code: None,
                ..flows[flow_id]
            },
        )
    } else {
        flows
    }
}

/// The accounts once a scope's account was disconnected: revoked since
/// `now`, with no credential.
pub open spec fn revoked_accounts(
    accounts: Map<Seq<char>, AccountModel>,
    scope: Seq<char>,
    now: Seq<char>,
) -> Map<Seq<char>, AccountModel> {
    accounts.insert(
        scope,
        AccountModel { status: ProviderAccountState::Revoked, credential_ref: None, updated_at: now },
    )
}

/// The accounts and flows of the bridge.
pub struct OAuthLedger {
    accounts: Vec<AccountRecord>,
    flows: Vec<FlowRecord>,
    account_map: Ghost<Map<Seq<char>, AccountModel>>,
    flow_map: Ghost<Map<Seq<char>, FlowModel>>,
}

impl OAuthLedger {
    /// The accounts, by project scope.
    pub closed spec fn accounts_view(&self) -> Map<Seq<char>, AccountModel> {
        self.account_map@
    }

    /// The flows, by flow id.
    pub closed spec fn flows_view(&self) -> Map<Seq<char>, FlowModel> {
        self.flow_map@
    }

    /// Each scope and each flow id is kept once, and the views hold exactly
    /// what is kept; every book keeps this.
    #[verifier::type_invariant]
    pub closed spec fn wf(&self) -> bool {
        &&& forall|i: int, j: int|
            0 <= i < j < self.accounts@.len() ==> #[trigger] self.accounts@[i].scope@
                != #[trigger] self.accounts@[j].scope@
        &&& forall|i: int|
            0 <= i < self.accounts@.len() ==> self.account_map@.contains_key(
                #[trigger] self.accounts@[i].scope@,
            ) && self.account_map@[self.accounts@[i].scope@] == self.accounts@[i].model()
        &&& forall|k: Seq<char>|
            #[trigger] self.account_map@.contains_key(k) ==> exists|i: int|
                0 <= i < self.accounts@.len() && #[trigger] self.accounts@[i].scope@ == k
        &&& forall|i: int, j: int|
            0 <= i < j < self.flows@.len() ==> #[trigger] self.flows@[i].flow_id@
                != #[trigger] self.flows@[j].flow_id@
        &&& forall|i: int|
            0 <= i < self.flows@.len() ==> self.flow_map@.contains_key(
                #[trigger] self.flows@[i].flow_id@,
            ) && self.flow_map@[self.flows@[i].flow_id@] == self.flows@[i].model()
        &&& forall|k: Seq<char>|
            #[trigger] self.flow_map@.contains_key(k) ==> exists|i: int|
                0 <= i < self.flows@.len() && #[trigger] self.flows@[i].flow_id@ == k
    }

    /// An empty book.
    pub fn new() -> (r: Self)
        ensures
            r.accounts_view() == Map::<Seq<char>, AccountModel>::empty(),
            r.flows_view() == Map::<Seq<char>, FlowModel>::empty(),
    {
        OAuthLedger {
            accounts: Vec::new(),
            flows: Vec::new(),
            account_map: Ghost(Map::empty()),
            flow_map: Ghost(Map::empty()),
        }
    }

    fn find_account(&self, scope: &str) -> (r: Option<usize>)
        ensures
            match r {
                Some(i) => i < self.accounts@.len() && self.accounts@[i as int].scope@ == scope@
                    && self.accounts_view().contains_key(scope@) && self.accounts_view()[scope@]
                    == self.accounts@[i as int].model(),
                None => !self.accounts_view().contains_key(scope@),
            },
    {
        proof {
            use_type_invariant(self);
        }
        let mut i: usize = 0;
        while i < self.accounts.len()
            invariant
                self.wf(),
                i <= self.accounts@.len(),
                forall|j: int| 0 <= j < i ==> self.accounts@[j].scope@ != scope@,
            decreases self.accounts@.len() - i,
        {
            if same_text(self.accounts[i].scope.as_str(), scope) {
                return Some(i);
            }
            i = i + 1;
        }
        None
    }

    fn find_flow(&self, flow_id: &str) -> (r: Option<usize>)
        ensures
            match r {
                Some(i) => i < self.flows@.len() && self.flows@[i as int].flow_id@ == flow_id@
                    && self.flows_view().contains_key(flow_id@) && self.flows_view()[flow_id@]
                    == self.flows@[i as int].model(),
                None => !self.flows_view().contains_key(flow_id@),
            },
    {
        proof {
            use_type_invariant(self);
        }
        let mut i: usize = 0;
        while i < self.flows.len()
            invariant
                self.wf(),
                i <= self.flows@.len(),
                forall|j: int| 0 <= j < i ==> self.flows@[j].flow_id@ != flow_id@,
            decreases self.flows@.len() - i,
        {
            if same_text(self.flows[i].flow_id.as_str(), flow_id) {
                return Some(i);
            }
            i = i + 1;
        }
        None
    }

    /// Keeps an account record: replaces the one of its scope, or adds it.
    fn put_account(&mut self, record: AccountRecord)
        ensures
            final(self).accounts_view() == old(self).accounts_view().insert(record.scope@, record.model()),
            final(self).flows_view() == old(self).flows_view(),
    {
        proof {
            use_type_invariant(&*self);
        }
        let found = self.find_account(record.scope.as_str());
        let ghost key = record.scope@;
        let ghost model = record.model();
        let mut ledger = OAuthLedger::new();
        std::mem::swap(&mut ledger, self);
        let ghost before = ledger.accounts@;
        let mut accounts = ledger.accounts;
        let ghost map = ledger.account_map@.insert(key, model);
        match found {
            Some(i) => {
                accounts.set(i, record);
            },
            None => {
                accounts.push(record);
            },
        }
        assert forall|k: Seq<char>| #[trigger] map.contains_key(k) implies exists|i: int|
            0 <= i < accounts@.len() && #[trigger] accounts@[i].scope@ == k by {
            if k == key {
                match found {
                    Some(i) => assert(accounts@[i as int].scope@ == k),
                    None => assert(accounts@[accounts@.len() - 1].scope@ == k),
                }
            } else {
                assert(ledger.account_map@.contains_key(k));
                let j = choose|j: int| 0 <= j < before.len() && #[trigger] before[j].scope@ == k;
                assert(accounts@[j].scope@ == k);
            }
        }
        *self = OAuthLedger { accounts, flows: ledger.flows, account_map: Ghost(map), flow_map: ledger.flow_map };
    }

    /// Keeps a flow record: replaces the one of its id, or adds it.
    fn put_flow(&mut self, record: FlowRecord)
        ensures
            final(self).flows_view() == old(self).flows_view().insert(record.flow_id@, record.model()),
            final(self).accounts_view() == old(self).accounts_view(),
    {
        proof {
            use_type_invariant(&*self);
        }
        let found = self.find_flow(record.flow_id.as_str());
        let ghost key = record.flow_id@;
        let ghost model = record.model();
        let mut ledger = OAuthLedger::new();
        std::mem::swap(&mut ledger, self);
        let ghost before = ledger.flows@;
        let mut flows = ledger.flows;
        let ghost map = ledger.flow_map@.insert(key, model);
        match found {
            Some(i) => {
                flows.set(i, record);
            },
            None => {
                flows.push(record);
            },
        }
        assert forall|k: Seq<char>| #[trigger] map.contains_key(k) implies exists|i: int|
            0 <= i < flows@.len() && #[trigger] flows@[i].flow_id@ == k by {
            if k == key {
                match found {
                    Some(i) => assert(flows@[i as int].flow_id@ == k),
                    None => assert(flows@[flows@.len() - 1].flow_id@ == k),
                }
            } else {
                assert(ledger.flow_map@.contains_key(k));
                let j = choose|j: int| 0 <= j < before.len() && #[trigger] before[j].flow_id@ == k;
                assert(flows@[j].flow_id@ == k);
            }
        }
        *self = OAuthLedger { flows, accounts: ledger.accounts, flow_map: Ghost(map), account_map: ledger.account_map };
    }

    fn show(record: &AccountRecord) -> (r: ProviderAccountStatus)
        ensures
            shows_account(r, record.model()),
    {
        ProviderAccountStatus {
            provider_id: MOCK_PROVIDER_ID.to_string(),
            account_id: MOCK_ACCOUNT_ID.to_string(),
            display_name: FIXTURE_DISPLAY_NAME.to_string(),
            state: record.status,
            has_credential_ref: record.credential_ref.is_some(),
            updated_at: record.updated_at.clone(),
        }
    }

    /// The scope's account as a listing shows it; a scope seen for the
    /// first time gets a revoked account since `now`.
    pub fn list_account(&mut self, scope: &str, now: &str) -> (r: ProviderAccountStatus)
        ensures
            final(self).accounts_view() == (if old(self).accounts_view().contains_key(scope@) {
                old(self).accounts_view()
            } else {
                old(self).accounts_view().insert(
                    scope@,
                    AccountModel {
                        status: ProviderAccountState::Revoked,
                        credential_ref: None,
                        updated_at: now@,
                    },
                )
            }),
            final(self).flows_view() == old(self).flows_view(),
            shows_account(r, final(self).accounts_view()[scope@]),
    {
        proof {
            use_type_invariant(&*self);
        }
        match self.find_account(scope) {
            Some(i) => Self::show(&self.accounts[i]),
            None => {
                let record = AccountRecord {
                    scope: scope.to_string(),
                    status: ProviderAccountState::Revoked,
                    credential_ref: None,
                    updated_at: now.to_string(),
                };
                let r = Self::show(&record);
                self.put_account(record);
                r
            },
        }
    }

    /// Whether a flow may start for the scope.
    pub fn check_start(&self, scope: &str) -> (r: Result<(), ProviderSettingsBridgeError>)
        ensures
            r is Ok <==> start_allowed(self.accounts_view(), scope@),
            r matches Err(e) ==> e.code == ProviderSettingsErrorCode::Conflict && e.message@
                == "provider account already has a pending or active connection"@,
    {
        proof {
            use_type_invariant(self);
        }
        match self.find_account(scope) {
            Some(i) => {
                let status = self.accounts[i].status;
                if status == ProviderAccountState::Connected || status == ProviderAccountState::Pending {
                    Err(
                        ProviderSettingsBridgeError::new(
                            ProviderSettingsErrorCode::Conflict,
                            "provider account already has a pending or active connection",
                        ),
                    )
                } else {
                    Ok(())
                }
            },
            None => Ok(()),
        }
    }

    /// Keeps a flow the OAuth handler began for the scope, and marks the
    /// scope's account pending since `now`. Answers with the flow's public
    /// link, built from its state and code challenge.
    pub fn record_start(
        &mut self,
        scope: &str,
        flow_id: &str,
        verifier: String,
        expires_at_ms: u64,
        now: &str,
        oauth_state: &str,
        code_challenge: &str,
    ) -> (r: OAuthStartResult)
        ensures
            final(self).accounts_view() == started_accounts(old(self).accounts_view(), scope@, now@),
            final(self).flows_view() == old(self).flows_view().insert(
                flow_id@,
                FlowModel {
                    scope: scope@,
                    verifier: verifier@,
                    expires_at_ms,
                    status: OAuthFlowState::Pending,
                    error_code: None,
                },
            ),
            r.flow_id@ == flow_id@,
            r.state == OAuthFlowState::Pending,
            r.authorization_url@ == authorization_link(flow_id@, oauth_state@, code_challenge@),
    {
        self.put_flow(
            FlowRecord {
                flow_id: flow_id.to_string(),
                scope: scope.to_string(),
                verifier,
                expires_at_ms,
                status: OAuthFlowState::Pending,
                error_code: None,
            },
        );
        let credential_ref = match self.find_account(scope) {
            Some(i) => copy_text(&self.accounts[i].credential_ref),
            None => None,
        };
        self.put_account(
            AccountRecord {
                scope: scope.to_string(),
                status: ProviderAccountState::Pending,
                credential_ref,
                updated_at: now.to_string(),
            },
        );
        proof {
            assert(self.accounts_view() =~= started_accounts(old(self).accounts_view(), scope@, now@));
        }
        OAuthStartResult {
            flow_id: flow_id.to_string(),
            state: OAuthFlowState::Pending,
            authorization_url: authorization_url(flow_id, oauth_state, code_challenge),
        }
    }

    /// The status of a flow of the scope at `now_ms`. An unknown flow is
    /// stale and another project's is refused; a pending flow past its
    /// deadline expires (and stays so); a connected flow shows its account.
    pub fn flow_status(
        &mut self,
        scope: &str,
        project_id: &str,
        flow_id: &str,
        now_ms: u64,
    ) -> (r: Result<OAuthFlowStatus, ProviderSettingsBridgeError>)
        ensures
            final(self).accounts_view() == old(self).accounts_view(),
            !old(self).flows_view().contains_key(flow_id@) ==> (r matches Err(e) && e.code
                == ProviderSettingsErrorCode::Stale && e.message@ == "OAuth flow is stale"@
                && final(self).flows_view() == old(self).flows_view()),
            old(self).flows_view().contains_key(flow_id@) && old(self).flows_view()[flow_id@].scope
                != scope@ ==> (r matches Err(e) && e.code == ProviderSettingsErrorCode::Unauthorized
                && e.message@ == "OAuth flow belongs to another project"@ && final(self).flows_view()
                == old(self).flows_view()),
            old(self).flows_view().contains_key(flow_id@) && old(self).flows_view()[flow_id@].scope
                == scope@ ==> ({
                let f = old(self).flows_view()[flow_id@];
                let expired = f.status == OAuthFlowState::Pending && now_ms >= f.expires_at_ms;
                let g = if expired {
                    FlowModel {
                        status: OAuthFlowState::Expired,
                        error_code: Some(OAuthErrorCode::Expired),
                        ..f
                    }
                } else {
                    f
                };
                &&& final(self).flows_view() == old(self).flows_view().insert(flow_id@, g)
                &&& r matches Ok(s)
                &&& s.flow_id@ == flow_id@
                &&& s.state == g.status
                &&& s.error_code == g.error_code
                &&& (g.status == OAuthFlowState::Connected && old(self).accounts_view().contains_key(
                    g.scope,
                )) == (s.account is Some)
                &&& s.account matches Some(a) ==> a.project_id@ == project_id@ && shows_account(
                    a.status,
                    old(self).accounts_view()[g.scope],
                )
            }),
    {
        let i = match self.find_flow(flow_id) {
            Some(i) => i,
            None => {
                return Err(
                    ProviderSettingsBridgeError::new(
                        ProviderSettingsErrorCode::Stale,
                        "OAuth flow is stale",
                    ),
                );
            },
        };
        if !same_text(self.flows[i].scope.as_str(), scope) {
            return Err(
                ProviderSettingsBridgeError::new(
                    ProviderSettingsErrorCode::Unauthorized,
                    "OAuth flow belongs to another project",
                ),
            );
        }
        let pending = self.flows[i].status == OAuthFlowState::Pending;
        if pending && now_ms >= self.flows[i].expires_at_ms {
            let record = FlowRecord {
                flow_id: self.flows[i].flow_id.clone(),
                scope: self.flows[i].scope.clone(),
                verifier: self.flows[i].verifier.clone(),
                expires_at_ms: self.flows[i].expires_at_ms,
                status: OAuthFlowState::Expired,
                error_code: Some(OAuthErrorCode::Expired),
            };
            self.put_flow(record);
        } else {
            proof {
                assert(self.flows_view() =~= old(self).flows_view().insert(
                    flow_id@,
                    old(self).flows_view()[flow_id@],
                ));
            }
        }
        let j = match self.find_flow(flow_id) {
            Some(j) => j,
            None => {
                return Err(
                    ProviderSettingsBridgeError::new(
                        ProviderSettingsErrorCode::Stale,
                        "OAuth flow is stale",
                    ),
                );
            },
        };
        let status = self.flows[j].status;
        let error_code = self.flows[j].error_code;
        let account = if status == OAuthFlowState::Connected {
            match self.find_account(self.flows[j].scope.as_str()) {
                Some(k) => Some(
                    OAuthAccountStatus {
                        status: Self::show(&self.accounts[k]),
                        project_id: project_id.to_string(),
                    },
                ),
                None => None,
            }
        } else {
            None
        };
        Ok(OAuthFlowStatus { flow_id: flow_id.to_string(), state: status, error_code, account })
    }

    /// What completing a flow of the scope needs: its verifier and
    /// deadline, unless the flow is unknown, another project's, or already
    /// connected.
    pub fn begin_complete(&self, scope: &str, flow_id: &str) -> (r: Result<
        (String, u64),
        ProviderSettingsBridgeError,
    >)
        ensures
            match completion_refusal(self.flows_view(), scope@, flow_id@) {
                None => r matches Ok((v, d)) && v@ == self.flows_view()[flow_id@].verifier && d
                    == self.flows_view()[flow_id@].expires_at_ms,
                Some(c) => r matches Err(e) && e.code == c,
            },
            r matches Err(e) ==> e.message@ == (if e.code == ProviderSettingsErrorCode::Stale {
                "OAuth flow is stale"@
            } else if e.code == ProviderSettingsErrorCode::Unauthorized {
                "OAuth flow belongs to another project"@
            } else {
                "OAuth flow was already completed"@
            }),
    {
        proof {
            use_type_invariant(self);
        }
        let i = match self.find_flow(flow_id) {
            Some(i) => i,
            None => {
                return Err(
                    ProviderSettingsBridgeError::new(
                        ProviderSettingsErrorCode::Stale,
                        "OAuth flow is stale",
                    ),
                );
            },
        };
        if !same_text(self.flows[i].scope.as_str(), scope) {
            return Err(
                ProviderSettingsBridgeError::new(
                    ProviderSettingsErrorCode::Unauthorized,
                    "OAuth flow belongs to another project",
                ),
            );
        }
        if self.flows[i].status == OAuthFlowState::Connected {
            return Err(
                ProviderSettingsBridgeError::new(
                    ProviderSettingsErrorCode::Replay,
                    "OAuth flow was already completed",
                ),
            );
        }
        Ok((self.flows[i].verifier.clone(), self.flows[i].expires_at_ms))
    }

    /// Records that the OAuth handler refused a flow's callback: the flow,
    /// if known, takes the state and code of the refusal. Answers with the
    /// refusal's redacted bridge error.
    pub fn record_callback_failure(&mut self, flow_id: &str, error: CallbackError) -> (r:
        ProviderSettingsBridgeError)
        ensures
            final(self).accounts_view() == old(self).accounts_view(),
            final(self).flows_view() == (if old(self).flows_view().contains_key(flow_id@) {
                old(self).flows_view().insert(
                    flow_id@,
                    FlowModel {
                        status: match error {
                            CallbackError::Cancelled => OAuthFlowState::Cancelled,
                            CallbackError::OAuth(o) => oauth_flow_state(o),
                            _ => OAuthFlowState::Invalid,
                        },
                        error_code: match error {
                            CallbackError::ProviderMismatch => Some(OAuthErrorCode::ProviderMismatch),
                            CallbackError::AccountMismatch => Some(OAuthErrorCode::AccountMismatch),
                            CallbackError::OAuth(o) => crate::provider_settings::oauth_code(o),
                            _ => None,
                        },
                        ..old(self).flows_view()[flow_id@]
                    },
                )
            } else {
                old(self).flows_view()
            }),
            r.code == callback_code(error),
            r.message@ == "OAuth provider operation failed"@,
    {
        proof {
            use_type_invariant(&*self);
        }
        match self.find_flow(flow_id) {
            Some(i) => {
                let record = FlowRecord {
                    flow_id: self.flows[i].flow_id.clone(),
                    scope: self.flows[i].scope.clone(),
                    verifier: self.flows[i].verifier.clone(),
                    expires_at_ms: self.flows[i].expires_at_ms,
                    status: flow_state_from_callback_error(&error),
                    error_code: flow_error_code(&error),
                };
                self.put_flow(record);
            },
            None => {},
        }
        map_callback_error(error)
    }

    /// Records a flow whose credential the service connected: the scope's
    /// account is connected with that credential since `now`, and the flow,
    /// if known, is connected with no error. Without an account for the
    /// scope nothing changes and the answer is an internal error.
    pub fn record_connected(
        &mut self,
        scope: &str,
        project_id: &str,
        flow_id: &str,
        credential_ref: String,
        now: &str,
    ) -> (r: Result<OAuthFlowStatus, ProviderSettingsBridgeError>)
        ensures
            !old(self).accounts_view().contains_key(scope@) ==> (r matches Err(e) && e.code
                == ProviderSettingsErrorCode::Internal && e.message@
                == "provider account state unavailable"@ && final(self).accounts_view()
                == old(self).accounts_view() && final(self).flows_view() == old(self).flows_view()),
            old(self).accounts_view().contains_key(scope@) ==> ({
                &&& final(self).accounts_view() == connected_accounts(
                    old(self).accounts_view(),
                    scope@,
                    credential_ref@,
                    now@,
                )
                &&& final(self).flows_view() == connected_flows(old(self).flows_view(), flow_id@)
                &&& r matches Ok(s)
                &&& s.flow_id@ == flow_id@
                &&& s.state == OAuthFlowState::Connected
                &&& s.error_code is None
                &&& s.account matches Some(a)
                &&& a.project_id@ == project_id@
                &&& shows_account(a.status, final(self).accounts_view()[scope@])
            }),
    {
        if self.find_account(scope).is_none() {
            return Err(
                ProviderSettingsBridgeError::new(
                    ProviderSettingsErrorCode::Internal,
                    "provider account state unavailable",
                ),
            );
        }
        let record = AccountRecord {
            scope: scope.to_string(),
            status: ProviderAccountState::Connected,
            credential_ref: Some(credential_ref),
            updated_at: now.to_string(),
        };
        let shown = Self::show(&record);
        self.put_account(record);
        match self.find_flow(flow_id) {
            Some(i) => {
                let flow = FlowRecord {
                    flow_id: self.flows[i].flow_id.clone(),
                    scope: self.flows[i].scope.clone(),
                    verifier: self.flows[i].verifier.clone(),
                    expires_at_ms: self.flows[i].expires_at_ms,
                    status: OAuthFlowState::Connected,
                    error_code: None,
                };
                self.put_flow(flow);
            },
            None => {},
        }
        Ok(
            OAuthFlowStatus {
                flow_id: flow_id.to_string(),
                state: OAuthFlowState::Connected,
                error_code: None,
                account: Some(OAuthAccountStatus { status: shown, project_id: project_id.to_string() }),
            },
        )
    }

    /// Whether disconnecting the scope's account must first revoke its
    /// credential: an unknown account is not found; a connected one must.
    pub fn check_disconnect(&self, scope: &str) -> (r: Result<bool, ProviderSettingsBridgeError>)
        ensures
            !self.accounts_view().contains_key(scope@) ==> (r matches Err(e) && e.code
                == ProviderSettingsErrorCode::NotFound && e.message@ == "provider account not found"@),
            self.accounts_view().contains_key(scope@) ==> r == Ok::<bool, ProviderSettingsBridgeError>(
                self.accounts_view()[scope@].status == ProviderAccountState::Connected,
            ),
    {
        proof {
            use_type_invariant(self);
        }
        match self.find_account(scope) {
            Some(i) => Ok(self.accounts[i].status == ProviderAccountState::Connected),
            None => Err(
                ProviderSettingsBridgeError::new(
                    ProviderSettingsErrorCode::NotFound,
                    "provider account not found",
                ),
            ),
        }
    }

    /// Disconnects the scope's account: revoked since `now`, with no
    /// credential. An unknown account is not found and nothing changes.
    pub fn record_disconnected(&mut self, scope: &str, now: &str) -> (r: Result<
        ProviderAccountStatus,
        ProviderSettingsBridgeError,
    >)
        ensures
            final(self).flows_view() == old(self).flows_view(),
            !old(self).accounts_view().contains_key(scope@) ==> (r matches Err(e) && e.code
                == ProviderSettingsErrorCode::NotFound && e.message@ == "provider account not found"@
                && final(self).accounts_view() == old(self).accounts_view()),
            old(self).accounts_view().contains_key(scope@) ==> ({
                &&& final(self).accounts_view() == revoked_accounts(old(self).accounts_view(), scope@, now@)
                &&& r matches Ok(s)
                &&& shows_account(s, final(self).accounts_view()[scope@])
            }),
    {
        proof {
            use_type_invariant(&*self);
        }
        if self.find_account(scope).is_none() {
            return Err(
                ProviderSettingsBridgeError::new(
                    ProviderSettingsErrorCode::NotFound,
                    "provider account not found",
                ),
            );
        }
        let record = AccountRecord {
            scope: scope.to_string(),
            status: ProviderAccountState::Revoked,
            credential_ref: None,
            updated_at: now.to_string(),
        };
        let shown = Self::show(&record);
        self.put_account(record);
        Ok(shown)
    }
}

/// Once a flow started for a scope, no other flow may start for it.
pub proof fn law_started_scope_refuses_another_start(
    accounts: Map<Seq<char>, AccountModel>,
    scope: Seq<char>,
    now: Seq<char>,
)
    ensures
        !start_allowed(started_accounts(accounts, scope, now), scope),
{
}

/// A flow that connected cannot be completed again: a second completion of
/// it is a replay.
pub proof fn law_connected_flow_completes_once(
    flows: Map<Seq<char>, FlowModel>,
    scope: Seq<char>,
    flow_id: Seq<char>,
)
    requires
        flows.contains_key(flow_id),
        flows[flow_id].scope == scope,
    ensures
        completion_refusal(connected_flows(flows, flow_id), scope, flow_id) == Some(
            ProviderSettingsErrorCode::Replay,
        ),
{
}

/// A disconnected account may start a new flow, and holds no credential.
pub proof fn law_disconnected_scope_may_start_again(
    accounts: Map<Seq<char>, AccountModel>,
    scope: Seq<char>,
    now: Seq<char>,
)
    ensures
        start_allowed(revoked_accounts(accounts, scope, now), scope),
        revoked_accounts(accounts, scope, now)[scope].credential_ref is None,
{
}

/// Connecting, starting or disconnecting one scope leaves every other
/// scope's account as it was.
pub proof fn law_scopes_are_independent(
    accounts: Map<Seq<char>, AccountModel>,
    scope: Seq<char>,
    other: Seq<char>,
    credential_ref: Seq<char>,
    now: Seq<char>,
)
    requires
        scope != other,
    ensures
        started_accounts(accounts, scope, now).contains_key(other) == accounts.contains_key(other),
        connected_accounts(accounts, scope, credential_ref, now).contains_key(other)
            == accounts.contains_key(other),
        revoked_accounts(accounts, scope, now).contains_key(other) == accounts.contains_key(other),
        accounts.contains_key(other) ==> started_accounts(accounts, scope, now)[other]
            == accounts[other] && connected_accounts(accounts, scope, credential_ref, now)[other]
            == accounts[other] && revoked_accounts(accounts, scope, now)[other] == accounts[other],
{
}

} // verus!
