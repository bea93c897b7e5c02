use vstd::prelude::*;
use crate::instance::{AppType, Instance, NativeAppInstance, OwnedInstance, SharedHandle};
use crate::lru::{contains_key, keyed, key_position, keys_unique};
use crate::pool::{OwnedEachAppCache, ADMISSION_LIMIT};
use crate::proto::AppStarted;
use crate::ctx_map::{contexts_of, ctx_map_insert, ctx_map_new, ctx_map_remove};
use dashmap::DashMap;

verus! {

/// Name of the checkpoint-restore configuration file under the app directory.
pub const CRAC_CONFIG_FILE: &'static str = "crac_config";

/// Content of the checkpoint-restore configuration file: ignore file
/// descriptors, close sockets.
pub const CRAC_CONFIG_CONTENT: &'static str = "type: FILE\naction: ignore\n---\ntype: SOCKET\naction: close";

/// Name of the local socket that external processes connect to.
pub const AGENT_SOCK_FILE: &'static str = "agent.sock";

/// Errors surfaced to the callers of the instance manager and of outbound calls.
#[derive(Clone, Debug)]
pub enum WsFuncError {
    /// A synchronous load of an app kind that needs the asynchronous path.
    UnsupportedAppType,
    /// An outbound call got no answer within its deadline.
    Timeout,
    /// The checkpoint-restore configuration could not be written.
    CreateCracConfigFailed { path: String },
}

/// The handle of the one external process of an app, with the one-shot slot
/// that its verification record is written into.
pub struct SharedInstance {
    app: String,
    verified: Option<AppStarted>,
}

impl SharedInstance {
    pub closed spec fn app(&self) -> Seq<char> {
        self.app@
    }

    pub closed spec fn verified(&self) -> Option<AppStarted> {
        self.verified
    }

    pub fn new(app: &str) -> (r: Self)
        ensures
            r.app() == app@,
            r.verified() is None,
    {
        SharedInstance { app: app.to_owned(), verified: None }
    }

    pub fn is_verified(&self) -> (r: bool)
        ensures
            r == self.verified() is Some,
    {
        self.verified.is_some()
    }

    /// Writes the verification record, once: a second write fails and leaves
    /// the slot as it was.
    pub fn set_verifyed(&mut self, record: AppStarted) -> (r: bool)
        ensures
            r == old(self).verified() is None,
            r ==> final(self).verified() == Some(record),
            !r ==> final(self).verified() == old(self).verified(),
            final(self).app() == old(self).app(),
    {
        if self.verified.is_some() {
            false
        } else {
            self.verified = Some(record);
            true
        }
    }

    pub fn handle(&self) -> (r: SharedHandle)
        ensures
            r.app@ == self.app(),
    {
        SharedHandle { app: self.app.clone() }
    }
}

/// What the manager keeps for one app.
pub enum EachAppCache {
    Owned(OwnedEachAppCache),
    Shared(SharedInstance),
}

impl EachAppCache {
    pub open spec fn wf(&self) -> bool {
        match self {
            EachAppCache::Owned(p) => p.wf(),
            EachAppCache::Shared(_) => true,
        }
    }

    pub open spec fn is_verified_shared(&self) -> bool {
        match self {
            EachAppCache::Shared(s) => s.verified() is Some,
            EachAppCache::Owned(_) => false,
        }
    }

    /// Whether tearing this cache down has an external process to terminate.
    pub fn kill(&self) -> (r: bool)
        ensures
            r == self is Shared,
    {
        match self {
            EachAppCache::Owned(_) => false,
            EachAppCache::Shared(_) => true,
        }
    }
}

/// A non-owning entry for the execution context of a running invocation: a
/// handle into the invoker's arena of contexts. The invoker removes the entry
/// before it destroys the context.
#[derive(PartialEq, Eq, Structural, Clone, Copy, Debug)]
pub enum UnsafeFunctionCtx {
    Sync(u64),
    Async(u64),
}

/// An app's cache is well formed, and a shared process belongs to that app.
pub open spec fn entry_wf(e: (Seq<char>, EachAppCache)) -> bool {
    &&& e.1.wf()
    &&& e.1 is Shared ==> e.1->Shared_0.app() == e.0
}

/// The owned instance in a load result, if that is what it holds.
pub open spec fn owned_of(r: Option<Instance>) -> Option<OwnedInstance> {
    match r {
        Some(Instance::Owned(o)) => Some(o),
        _ => None,
    }
}

/// The per-app registry of instances.
pub struct InstanceManager {
    app_instances: Vec<(String, EachAppCache)>,
    file_dir: String,
    instance_running_function: DashMap<String, UnsafeFunctionCtx>,
}

impl InstanceManager {
    /// The per-app caches, keyed by app name.
    pub closed spec fn apps(&self) -> Seq<(Seq<char>, EachAppCache)> {
        keyed(self.app_instances@)
    }

    /// The execution contexts of running invocations, keyed by instance.
    pub closed spec fn running(&self) -> Map<Seq<char>, UnsafeFunctionCtx> {
        contexts_of(self.instance_running_function)
    }

    pub closed spec fn file_dir(&self) -> Seq<char> {
        self.file_dir@
    }

    pub open spec fn wf(&self) -> bool {
        &&& keys_unique(self.apps())
        &&& forall|i: int| 0 <= i < self.apps().len() ==> entry_wf(#[trigger] self.apps()[i])
    }

    pub fn inner_new(file_dir: &str) -> (r: Self)
        ensures
            r.wf(),
            r.apps().len() == 0,
            r.running() == Map::<Seq<char>, UnsafeFunctionCtx>::empty(),
            r.file_dir() == file_dir@,
    {
        let r = InstanceManager {
            app_instances: Vec::new(),
            file_dir: file_dir.to_owned(),
            instance_running_function: ctx_map_new(),
        };
        assert(r.apps().len() == 0);
        r
    }

    /// Index of the cache of `app`, if there is one.
    pub fn app_position(&self, app: &str) -> (r: Option<usize>)
        ensures
            match r {
                Some(i) => i < self.apps().len() && self.apps()[i as int].0 == app@,
                None => !contains_key(self.apps(), app@),
            },
    {
        let k = app.to_owned();
        key_position(&self.app_instances, &k)
    }

    /// Whether the cache of `app` is a shared process whose verification
    /// record has been written.
    pub fn is_verified(&self, app: &str) -> (r: bool)
        requires
            self.wf(),
        ensures
            r == exists|i: int|
                0 <= i < self.apps().len() && #[trigger] self.apps()[i].0 == app@
                    && self.apps()[i].1.is_verified_shared(),
    {
        match self.app_position(app) {
            Some(i) => match &self.app_instances[i].1 {
                EachAppCache::Shared(s) => {
                    assert(self.apps()[i as int].1 == self.app_instances@[i as int].1);
                    s.is_verified()
                },
                EachAppCache::Owned(_) => {
                    assert(self.apps()[i as int].1 == self.app_instances@[i as int].1);
                    false
                },
            },
            None => false,
        }
    }
}

/// A pool as `OwnedEachAppCache::new` builds it.
pub open spec fn fresh_pool(p: OwnedEachAppCache) -> bool {
    &&& p.wf()
    &&& p.using() == 0
    &&& p.stored().len() == 0
    &&& p.next_id() == 0
    &&& p.limit() == ADMISSION_LIMIT
}

/// `new` is `old` with one more entry at the end, for the app `name`.
pub open spec fn appended(
    old: Seq<(Seq<char>, EachAppCache)>,
    new: Seq<(Seq<char>, EachAppCache)>,
    name: Seq<char>,
) -> bool {
    &&& new.len() == old.len() + 1
    &&& new.drop_last() == old
    &&& new.last().0 == name
}

impl InstanceManager {
    /// What `load_instance` does. Native: a fresh instance, nothing kept.
    /// Wasm: the app's pool (made on first use) hands out an instance, or
    /// `None` when its gate is saturated. Jar: the handle of the app's shared
    /// process (its cache made on first use). An app whose cache is of the
    /// other kind gets `None`.
    pub open spec fn load_post(
        old: Self,
        new: Self,
        app_type: AppType,
        name: Seq<char>,
        now: u64,
        r: Option<Instance>,
    ) -> bool {
        let s = old.apps();
        let t = new.apps();
        match app_type {
            AppType::Native => r == Some(Instance::Native(NativeAppInstance {  })) && t == s,
            AppType::Jar => if contains_key(s, name) {
                exists|i: int|
                    0 <= i < s.len() && #[trigger] s[i].0 == name && t == s && if s[i].1 is Shared {
                        r is Some && r->0 is Shared && r->0->Shared_0.app@ == name
                    } else {
                        r is None
                    }
            } else {
                &&& appended(s, t, name)
                &&& t.last().1 is Shared
                &&& t.last().1->Shared_0.app() == name
                &&& t.last().1->Shared_0.verified() is None
                &&& r is Some && r->0 is Shared && r->0->Shared_0.app@ == name
            },
            AppType::Wasm => {
                &&& r is Some ==> r->0 is Owned
                &&& if contains_key(s, name) {
                    exists|i: int|
                        0 <= i < s.len() && #[trigger] s[i].0 == name && if s[i].1 is Owned {
                            &&& t == s.update(i, (name, t[i].1))
                            &&& t[i].1 is Owned
                            &&& OwnedEachAppCache::get_post(
                                s[i].1->Owned_0,
                                t[i].1->Owned_0,
                                old.file_dir(),
                                name,
                                now,
                                owned_of(r),
                            )
                        } else {
                            r is None && t == s
                        }
                } else {
                    &&& appended(s, t, name)
                    &&& t.last().1 is Owned
                    &&& exists|p: OwnedEachAppCache|
                        fresh_pool(p) && #[trigger] OwnedEachAppCache::get_post(
                            p,
                            t.last().1->Owned_0,
                            old.file_dir(),
                            name,
                            now,
                            owned_of(r),
                        )
                }
            },
        }
    }

    /// Runs `get` on the pool at index `i`.
    fn get_at(&mut self, i: usize, instance_name: &str, now: u64) -> (r: Option<OwnedInstance>)
        requires
            old(self).wf(),
            i < old(self).apps().len(),
            old(self).apps()[i as int].1 is Owned,
        ensures
            final(self).wf(),
            final(self).file_dir() == old(self).file_dir(),
            final(self).running() == old(self).running(),
            final(self).apps() == old(self).apps().update(
                i as int,
                (old(self).apps()[i as int].0, final(self).apps()[i as int].1),
            ),
            final(self).apps()[i as int].1 is Owned,
            OwnedEachAppCache::get_post(
                old(self).apps()[i as int].1->Owned_0,
                final(self).apps()[i as int].1->Owned_0,
                old(self).file_dir(),
                instance_name@,
                now,
                r,
            ),
    {
        let ghost s = self.apps();
        let (key, cache) = self.app_instances.remove(i);
        match cache {
            EachAppCache::Owned(mut p) => {
                let got = p.get(self.file_dir.as_str(), instance_name, now);
                self.app_instances.insert(i, (key, EachAppCache::Owned(p)));
                proof {
                    assert(self.apps() =~= s.update(i as int, (s[i as int].0, self.apps()[i as int].1)));
                    assert forall|j: int| 0 <= j < self.apps().len() implies entry_wf(#[trigger] self.apps()[j]) by {
                        if j != i {
                            assert(self.apps()[j] == s[j]);
                        }
                    }
                    assert(keys_unique(self.apps()));
                }
                got
            },
            EachAppCache::Shared(_) => {
                proof {
                    assert(false);
                }
                None
            },
        }
    }

    /// Runs `put` on the pool at index `i`.
    fn put_at(&mut self, i: usize, value: OwnedInstance, now: u64)
        requires
            old(self).wf(),
            i < old(self).apps().len(),
            old(self).apps()[i as int].1 is Owned,
        ensures
            final(self).wf(),
            final(self).file_dir() == old(self).file_dir(),
            final(self).running() == old(self).running(),
            final(self).apps() == old(self).apps().update(
                i as int,
                (old(self).apps()[i as int].0, final(self).apps()[i as int].1),
            ),
            final(self).apps()[i as int].1 is Owned,
            OwnedEachAppCache::put_post(
                old(self).apps()[i as int].1->Owned_0,
                final(self).apps()[i as int].1->Owned_0,
                value,
                now,
            ),
    {
        let ghost s = self.apps();
        let (key, cache) = self.app_instances.remove(i);
        match cache {
            EachAppCache::Owned(mut p) => {
                p.put(value, now);
                self.app_instances.insert(i, (key, EachAppCache::Owned(p)));
                proof {
                    assert(self.apps() =~= s.update(i as int, (s[i as int].0, self.apps()[i as int].1)));
                    assert forall|j: int| 0 <= j < self.apps().len() implies entry_wf(#[trigger] self.apps()[j]) by {
                        if j != i {
                            assert(self.apps()[j] == s[j]);
                        }
                    }
                    assert(keys_unique(self.apps()));
                }
            },
            EachAppCache::Shared(_) => {
                proof {
                    assert(false);
                }
            },
        }
    }

    /// Adds the cache `c` for the app `name`, which has none yet.
    fn push_app(&mut self, name: &str, c: EachAppCache)
        requires
            old(self).wf(),
            !contains_key(old(self).apps(), name@),
            entry_wf((name@, c)),
        ensures
            final(self).wf(),
            final(self).file_dir() == old(self).file_dir(),
            final(self).running() == old(self).running(),
            final(self).apps() == old(self).apps().push((name@, c)),
    {
        let ghost s = self.apps();
        self.app_instances.push((name.to_owned(), c));
        proof {
            assert(self.apps() =~= s.push((name@, c)));
            assert forall|j: int| 0 <= j < self.apps().len() implies entry_wf(#[trigger] self.apps()[j]) by {
                if j < s.len() {
                    assert(self.apps()[j] == s[j]);
                }
            }
            assert(keys_unique(self.apps()));
        }
    }

    /// The `Owned` arm of `load_instance`.
    fn load_owned(&mut self, instance_name: &str, now: u64) -> (r: Option<Instance>)
        requires
            old(self).wf(),
        ensures
            final(self).wf(),
            final(self).file_dir() == old(self).file_dir(),
            final(self).running() == old(self).running(),
            Self::load_post(*old(self), *final(self), AppType::Wasm, instance_name@, now, r),
    {
        let ghost s = self.apps();
        match self.app_position(instance_name) {
            Some(i) => {
                let is_owned = match &self.app_instances[i].1 {
                    EachAppCache::Owned(_) => true,
                    EachAppCache::Shared(_) => false,
                };
                assert(self.apps()[i as int].1 == self.app_instances@[i as int].1);
                if !is_owned {
                    assert(s[i as int].0 == instance_name@);
                    return None;
                }
                let got = self.get_at(i, instance_name, now);
                let r = match got {
                    Some(o) => Some(Instance::Owned(o)),
                    None => None,
                };
                assert(owned_of(r) == got);
                assert(s[i as int].0 == instance_name@);
                r
            },
            None => {
                let p = OwnedEachAppCache::new();
                let ghost p0 = p;
                self.push_app(instance_name, EachAppCache::Owned(p));
                let i = self.app_instances.len() - 1;
                let got = self.get_at(i, instance_name, now);
                let r = match got {
                    Some(o) => Some(Instance::Owned(o)),
                    None => None,
                };
                assert(owned_of(r) == got);
                assert(fresh_pool(p0));
                assert(self.apps().drop_last() =~= s);
                r
            },
        }
    }

    /// The `Shared` arm of `load_instance`: the handle of the app's process.
    fn get_process_instance(&mut self, instance_name: &str) -> (r: Option<Instance>)
        requires
            old(self).wf(),
        ensures
            final(self).wf(),
            final(self).file_dir() == old(self).file_dir(),
            final(self).running() == old(self).running(),
            forall|now: u64| Self::load_post(*old(self), *final(self), AppType::Jar, instance_name@, now, r),
    {
        let ghost s = self.apps();
        match self.app_position(instance_name) {
            Some(i) => {
                assert(self.apps()[i as int].1 == self.app_instances@[i as int].1);
                assert(s[i as int].0 == instance_name@);
                match &self.app_instances[i].1 {
                    EachAppCache::Shared(sh) => Some(Instance::Shared(sh.handle())),
                    EachAppCache::Owned(_) => None,
                }
            },
            None => {
                let sh = SharedInstance::new(instance_name);
                let h = sh.handle();
                self.push_app(instance_name, EachAppCache::Shared(sh));
                assert(self.apps().drop_last() =~= s);
                Some(Instance::Shared(h))
            },
        }
    }

    /// Hands out an instance of the app `instance_name` of kind `app_type`,
    /// at time `now` in seconds.
    /// `None` means none can be had now: for Wasm, the pool's gate is
    /// saturated and the caller waits for a release before it tries again.
    pub fn load_instance(&mut self, app_type: &AppType, instance_name: &str, now: u64) -> (r: Option<Instance>)
        requires
            old(self).wf(),
        ensures
            final(self).wf(),
            final(self).file_dir() == old(self).file_dir(),
            final(self).running() == old(self).running(),
            Self::load_post(*old(self), *final(self), *app_type, instance_name@, now, r),
    {
        match app_type {
            AppType::Jar => self.get_process_instance(instance_name),
            AppType::Wasm => self.load_owned(instance_name, now),
            AppType::Native => Some(Instance::Native(NativeAppInstance::new())),
        }
    }

    /// Loads without waiting: only Native instances can be had this way.
    pub fn load_instance_sync(&self, app_type: &AppType, _instance_name: &str) -> (r: Result<
        Instance,
        WsFuncError,
    >)
        ensures
            *app_type == AppType::Native ==> r == Ok::<Instance, WsFuncError>(
                Instance::Native(NativeAppInstance {  }),
            ),
            *app_type != AppType::Native ==> r == Err::<Instance, WsFuncError>(
                WsFuncError::UnsupportedAppType,
            ),
    {
        match app_type {
            AppType::Native => Ok(Instance::Native(NativeAppInstance::new())),
            AppType::Jar | AppType::Wasm => Err(WsFuncError::UnsupportedAppType),
        }
    }
}

impl InstanceManager {
    /// What `finish_using` does. An owned instance goes back into its app's
    /// pool (made on first use); if the app's cache is a shared process the
    /// instance is dropped. Shared and native instances change nothing.
    pub open spec fn finish_post(old: Self, new: Self, name: Seq<char>, instance: Instance, now: u64) -> bool {
        let s = old.apps();
        let t = new.apps();
        match instance {
            Instance::Owned(v) => if contains_key(s, name) {
                exists|i: int|
                    0 <= i < s.len() && #[trigger] s[i].0 == name && if s[i].1 is Owned {
                        &&& t == s.update(i, (name, t[i].1))
                        &&& t[i].1 is Owned
                        &&& OwnedEachAppCache::put_post(s[i].1->Owned_0, t[i].1->Owned_0, v, now)
                    } else {
                        t == s
                    }
            } else {
                &&& appended(s, t, name)
                &&& t.last().1 is Owned
                &&& exists|p: OwnedEachAppCache|
                    fresh_pool(p) && #[trigger] OwnedEachAppCache::put_post(p, t.last().1->Owned_0, v, now)
            },
            _ => t == s,
        }
    }

    /// Gives back an instance that an invocation is done with, at time `now`
    /// in seconds.
    pub fn finish_using(&mut self, instance_name: &str, instance: Instance, now: u64)
        requires
            old(self).wf(),
        ensures
            final(self).wf(),
            final(self).file_dir() == old(self).file_dir(),
            final(self).running() == old(self).running(),
            Self::finish_post(*old(self), *final(self), instance_name@, instance, now),
    {
        let ghost s = self.apps();
        match instance {
            Instance::Owned(v) => match self.app_position(instance_name) {
                Some(i) => {
                    let is_owned = match &self.app_instances[i].1 {
                        EachAppCache::Owned(_) => true,
                        EachAppCache::Shared(_) => false,
                    };
                    assert(self.apps()[i as int].1 == self.app_instances@[i as int].1);
                    assert(s[i as int].0 == instance_name@);
                    if is_owned {
                        self.put_at(i, v, now);
                    }
                },
                None => {
                    let p = OwnedEachAppCache::new();
                    let ghost p0 = p;
                    self.push_app(instance_name, EachAppCache::Owned(p));
                    let i = self.app_instances.len() - 1;
                    self.put_at(i, v, now);
                    assert(fresh_pool(p0));
                    assert(self.apps().drop_last() =~= s);
                },
            },
            Instance::Shared(_) => {},
            Instance::Native(_) => {},
        }
    }

    /// Removes the cache of `app` and hands it back, so that the caller can
    /// terminate its process when it is a shared one (see `EachAppCache::kill`).
    pub fn drap_app_instances(&mut self, app: &str) -> (r: Option<EachAppCache>)
        requires
            old(self).wf(),
        ensures
            final(self).wf(),
            final(self).file_dir() == old(self).file_dir(),
            final(self).running() == old(self).running(),
            !contains_key(final(self).apps(), app@),
            match r {
                Some(c) => exists|i: int|
                    0 <= i < old(self).apps().len() && #[trigger] old(self).apps()[i].0 == app@
                        && c == old(self).apps()[i].1 && final(self).apps() == old(self).apps().remove(i),
                None => !contains_key(old(self).apps(), app@) && final(self).apps() == old(self).apps(),
            },
    {
        let ghost s = self.apps();
        match self.app_position(app) {
            Some(i) => {
                let (_, c) = self.app_instances.remove(i);
                proof {
                    assert(self.apps() =~= s.remove(i as int));
                    assert forall|j: int| 0 <= j < self.apps().len() implies entry_wf(#[trigger] self.apps()[j]) by {
                        if j < i {
                            assert(self.apps()[j] == s[j]);
                        } else {
                            assert(self.apps()[j] == s[j + 1]);
                        }
                    }
                    assert(keys_unique(self.apps()));
                    assert forall|j: int| 0 <= j < self.apps().len() implies #[trigger] self.apps()[j].0 != app@ by {
                        if j < i {
                            assert(self.apps()[j] == s[j]);
                        } else {
                            assert(self.apps()[j] == s[j + 1]);
                        }
                    }
                }
                Some(c)
            },
            None => None,
        }
    }

    /// Records the execution context of an invocation that starts on the
    /// instance `instance_key`, replacing any earlier entry for it.
    pub fn start_running(&mut self, instance_key: &str, ctx: UnsafeFunctionCtx)
        requires
            old(self).wf(),
        ensures
            final(self).wf(),
            final(self).apps() == old(self).apps(),
            final(self).file_dir() == old(self).file_dir(),
            final(self).running() == old(self).running().insert(instance_key@, ctx),
    {
        let _ = ctx_map_insert(&mut self.instance_running_function, instance_key.to_owned(), ctx);
    }

    /// Removes the execution-context entry of `instance_key` when its
    /// invocation completes, and hands it back.
    pub fn finish_running(&mut self, instance_key: &str) -> (r: Option<UnsafeFunctionCtx>)
        requires
            old(self).wf(),
        ensures
            final(self).wf(),
            final(self).apps() == old(self).apps(),
            final(self).file_dir() == old(self).file_dir(),
            final(self).running() == old(self).running().remove(instance_key@),
            r == (if old(self).running().contains_key(instance_key@) {
                Some(old(self).running()[instance_key@])
            } else {
                None
            }),
    {
        match ctx_map_remove(&mut self.instance_running_function, instance_key) {
            Some(e) => Some(e.1),
            None => None,
        }
    }
}

/// Why a process's verification was refused.
#[derive(PartialEq, Eq, Structural, Clone, Copy, Debug)]
pub enum VerifyError {
    /// The first message did not decode as a verification record; the
    /// process may try again.
    Decode,
    /// No instance entry was made for the app before its process verified.
    NoInstance,
    /// The app's instances are owned ones, which never use this protocol.
    NotShared,
    /// The app's process has verified already.
    AlreadyVerified,
}

impl InstanceManager {
    /// What `verify_app` does: the record goes into the one-shot slot of the
    /// app's shared process, and nothing else changes; a refusal changes
    /// nothing.
    pub open spec fn verify_post(
        old: Self,
        new: Self,
        record: AppStarted,
        r: Result<(), VerifyError>,
    ) -> bool {
        let s = old.apps();
        let t = new.apps();
        let name = record.appid@;
        &&& new.file_dir() == old.file_dir()
        &&& new.running() == old.running()
        &&& if !contains_key(s, name) {
            r == Err::<(), VerifyError>(VerifyError::NoInstance) && t == s
        } else {
            exists|i: int|
                0 <= i < s.len() && #[trigger] s[i].0 == name && if s[i].1 is Owned {
                    r == Err::<(), VerifyError>(VerifyError::NotShared) && t == s
                } else if s[i].1->Shared_0.verified() is Some {
                    r == Err::<(), VerifyError>(VerifyError::AlreadyVerified) && t == s
                } else {
                    &&& r == Ok::<(), VerifyError>(())
                    &&& t == s.update(i, (name, t[i].1))
                    &&& t[i].1 is Shared
                    &&& t[i].1->Shared_0.app() == name
                    &&& t[i].1->Shared_0.verified() == Some(record)
                }
        }
    }

    /// Installs the verification record of an app's process.
    pub fn verify_app(&mut self, record: AppStarted) -> (r: Result<(), VerifyError>)
        requires
            old(self).wf(),
        ensures
            final(self).wf(),
            Self::verify_post(*old(self), *final(self), record, r),
    {
        let ghost s = self.apps();
        match self.app_position(record.appid.as_str()) {
            None => Err(VerifyError::NoInstance),
            Some(i) => {
                assert(self.apps()[i as int].1 == self.app_instances@[i as int].1);
                assert(s[i as int].0 == record.appid@);
                let state: u8 = match &self.app_instances[i].1 {
                    EachAppCache::Owned(_) => 0,
                    EachAppCache::Shared(sh) => if sh.is_verified() { 1 } else { 2 },
                };
                if state == 0 {
                    return Err(VerifyError::NotShared);
                }
                if state == 1 {
                    return Err(VerifyError::AlreadyVerified);
                }
                let (key, cache) = self.app_instances.remove(i);
                match cache {
                    EachAppCache::Shared(mut sh) => {
                        let _ = sh.set_verifyed(record);
                        self.app_instances.insert(i, (key, EachAppCache::Shared(sh)));
                        proof {
                            assert(self.apps() =~= s.update(i as int, (s[i as int].0, self.apps()[i as int].1)));
                            assert forall|j: int| 0 <= j < self.apps().len() implies entry_wf(#[trigger] self.apps()[j]) by {
                                if j != i {
                                    assert(self.apps()[j] == s[j]);
                                }
                            }
                            assert(keys_unique(self.apps()));
                        }
                        Ok(())
                    },
                    EachAppCache::Owned(_) => {
                        proof {
                            assert(false);
                        }
                        Err(VerifyError::NotShared)
                    },
                }
            },
        }
    }
}

/// Verification succeeds at most once per app: once a record is installed,
/// a second attempt for the same app id fails and leaves every cache, the
/// slot included, as it was.
pub proof fn lemma_verify_at_most_once(
    m0: InstanceManager,
    m1: InstanceManager,
    m2: InstanceManager,
    first: AppStarted,
    second: AppStarted,
    r1: Result<(), VerifyError>,
    r2: Result<(), VerifyError>,
)
    requires
        m0.wf(),
        m1.wf(),
        InstanceManager::verify_post(m0, m1, first, r1),
        InstanceManager::verify_post(m1, m2, second, r2),
        r1 is Ok,
        second.appid@ == first.appid@,
    ensures
        r2 == Err::<(), VerifyError>(VerifyError::AlreadyVerified),
        m2.apps() == m1.apps(),
{
    let name = first.appid@;
    let s = m0.apps();
    let t = m1.apps();
    let i = choose|i: int|
        0 <= i < s.len() && #[trigger] s[i].0 == name && if s[i].1 is Owned {
            r1 == Err::<(), VerifyError>(VerifyError::NotShared) && t == s
        } else if s[i].1->Shared_0.verified() is Some {
            r1 == Err::<(), VerifyError>(VerifyError::AlreadyVerified) && t == s
        } else {
            &&& r1 == Ok::<(), VerifyError>(())
            &&& t == s.update(i, (name, t[i].1))
            &&& t[i].1 is Shared
            &&& t[i].1->Shared_0.app() == name
            &&& t[i].1->Shared_0.verified() == Some(first)
        };
    assert(t[i].0 == name);
    assert(contains_key(t, name));
    assert forall|j: int| 0 <= j < t.len() && #[trigger] t[j].0 == name implies j == i by {}
}

} // verus!
