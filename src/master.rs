use vstd::prelude::*;
use crate::instance::AppType;

verus! {

/// Kinds of key-value events a function can be triggered by.
#[derive(PartialEq, Eq, Structural, Clone, Copy, Debug)]
pub enum KvEventType {
    /// A value was written under a key.
    KvSet,
}

/// A function to trigger on a key-value event.
#[derive(Clone, Debug)]
pub struct KvEventDef {
    pub ty: KvEventType,
    pub app: String,
    pub func: String,
}

/// What the master knows of a deployed app: its kind and its functions.
#[derive(Clone, Debug)]
pub struct AppMeta {
    pub app_type: AppType,
    pub fns: Vec<String>,
}

/// A registered trigger: app name, its kind and one of its functions.
pub type FnTrigger = (String, AppType, String);

/// The master side of app management: the function triggers of the
/// deployed apps.
pub struct MasterAppMgmt {
    triggers: Vec<FnTrigger>,
}

/// The triggers that registering `fns` of the app `app` of kind `ty` adds, in order.
pub open spec fn triggers_of(app: Seq<char>, ty: AppType, fns: Seq<String>) -> Seq<(Seq<char>, AppType, Seq<char>)> {
    fns.map_values(|f: String| (app, ty, f@))
}

impl MasterAppMgmt {
    pub closed spec fn triggers(&self) -> Seq<(Seq<char>, AppType, Seq<char>)> {
        self.triggers@.map_values(|t: FnTrigger| (t.0@, t.1, t.2@))
    }

    pub fn inner_new() -> (r: Self)
        ensures
            r.triggers().len() == 0,
    {
        let r = MasterAppMgmt { triggers: Vec::new() };
        assert(r.triggers().len() == 0);
        r
    }

    pub fn trigger_count(&self) -> (r: usize)
        ensures
            r == self.triggers().len(),
    {
        self.triggers.len()
    }

    /// Registers a trigger for each function of the app, in the order the
    /// app lists them.
    pub fn update_app(&mut self, app_name: &str, app_meta: &AppMeta)
        ensures
            final(self).triggers() == old(self).triggers() + triggers_of(
                app_name@,
                app_meta.app_type,
                app_meta.fns@,
            ),
    {
        let ghost start = self.triggers();
        let mut i: usize = 0;
        while i < app_meta.fns.len()
            invariant
                i <= app_meta.fns@.len(),
                self.triggers() == start + triggers_of(
                    app_name@,
                    app_meta.app_type,
                    app_meta.fns@.subrange(0, i as int),
                ),
            decreases app_meta.fns@.len() - i,
        {
            let ghost before = self.triggers();
            self.triggers.push((app_name.to_owned(), app_meta.app_type, app_meta.fns[i].clone()));
            proof {
                assert(self.triggers() =~= before.push((app_name@, app_meta.app_type, app_meta.fns@[i as int]@)));
                assert(app_meta.fns@.subrange(0, i + 1) =~= app_meta.fns@.subrange(0, i as int).push(app_meta.fns@[i as int]));
                assert(triggers_of(app_name@, app_meta.app_type, app_meta.fns@.subrange(0, i + 1))
                    =~= triggers_of(app_name@, app_meta.app_type, app_meta.fns@.subrange(0, i as int)).push(
                    (app_name@, app_meta.app_type, app_meta.fns@[i as int]@)));
                assert(self.triggers() =~= start + triggers_of(app_name@, app_meta.app_type, app_meta.fns@.subrange(0, i + 1)));
            }
            i = i + 1;
        }
        assert(app_meta.fns@.subrange(0, i as int) =~= app_meta.fns@);
    }
}

} // verus!
