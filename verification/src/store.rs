//! What the secret store holds of the application's setup, and the writes
//! that change it.

use vstd::prelude::*;

verus! {

/// The stage of the application's authorization setup. `Setup` is where every
/// application starts; the other two are final.
#[derive(Debug, Clone, Copy, PartialEq, Eq, Hash, Structural)]
pub enum AppStatus {
    Setup,
    Ready,
    ResourceAdmin,
}

/// The client registration that the identity provider handed out.
#[derive(Debug, Clone, PartialEq, Eq)]
pub struct AppRegInfo {
    pub public_key: String,
    pub alg: String,
    pub kid: String,
    pub issuer: String,
    pub client_id: String,
    pub client_secret: String,
}

/// One write to the secret store.
#[derive(Debug, Clone, PartialEq, Eq)]
pub enum StoreWrite {
    AppRegInfo(AppRegInfo),
    Authz(bool),
    AppStatus(AppStatus),
}

/// The three values that the secret store keeps for the setup.
#[derive(Debug, Clone, PartialEq, Eq)]
pub struct SecretStore {
    pub authz: bool,
    pub status: AppStatus,
    pub app_reg_info: Option<AppRegInfo>,
}

/// The store after one write.
pub open spec fn apply_write(store: SecretStore, write: StoreWrite) -> SecretStore {
    match write {
        StoreWrite::AppRegInfo(info) => SecretStore { app_reg_info: Some(info), ..store },
        StoreWrite::Authz(authz) => SecretStore { authz, ..store },
        StoreWrite::AppStatus(status) => SecretStore { status, ..store },
    }
}

/// The store after a sequence of writes, the first one first.
pub open spec fn apply_writes(store: SecretStore, writes: Seq<StoreWrite>) -> SecretStore
    decreases writes.len(),
{
    if writes.len() == 0 {
        store
    } else {
        apply_writes(apply_write(store, writes[0]), writes.skip(1))
    }
}

impl SecretStore {
    /// A store is consistent when authorization is on exactly in status
    /// `ResourceAdmin`, and a registration is held exactly then.
    pub open spec fn wf(self) -> bool {
        &&& self.authz == (self.status == AppStatus::ResourceAdmin)
        &&& self.app_reg_info.is_some() == (self.status == AppStatus::ResourceAdmin)
    }

    /// The store of an application that was never set up.
    pub fn new() -> (store: SecretStore)
        ensures
            store == (SecretStore { authz: false, status: AppStatus::Setup, app_reg_info: None }),
            store.wf(),
    {
        SecretStore { authz: false, status: AppStatus::Setup, app_reg_info: None }
    }

    /// Whether authorization is on.
    pub fn authz(&self) -> (authz: bool)
        ensures
            authz == self.authz,
    {
        self.authz
    }

    /// The stage that the setup has reached.
    pub fn app_status(&self) -> (status: AppStatus)
        ensures
            status == self.status,
    {
        self.status
    }

    /// The client registration, if one was stored.
    pub fn app_reg_info(&self) -> (info: &Option<AppRegInfo>)
        ensures
            *info == self.app_reg_info,
    {
        &self.app_reg_info
    }

    /// Performs one write. Between the writes of a setup the store need not
    /// be consistent: `apply_all` performs them as one step.
    pub fn apply(&mut self, write: StoreWrite)
        ensures
            *final(self) == apply_write(*old(self), write),
    {
        match write {
            StoreWrite::AppRegInfo(info) => {
                self.app_reg_info = Some(info);
            },
            StoreWrite::Authz(authz) => {
                self.authz = authz;
            },
            StoreWrite::AppStatus(status) => {
                self.status = status;
            },
        }
    }

    /// Performs a sequence of writes in their order, as one step.
    pub fn apply_all(&mut self, writes: Vec<StoreWrite>)
        ensures
            *final(self) == apply_writes(*old(self), writes@),
    {
        let mut rest = writes;
        while rest.len() > 0
            invariant
                apply_writes(*self, rest@) == apply_writes(*old(self), writes@),
            decreases rest.len(),
        {
            let ghost before = rest@;
            let write = rest.remove(0);
            assert(rest@ =~= before.skip(1));
            self.apply(write);
        }
    }
}

} // verus!
