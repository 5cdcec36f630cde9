//! The lifecycle guard of an active browser watcher.
use vstd::prelude::*;
use dioxus::dioxus_core::Task;
use crate::rust_type::{push_chars, push_str};
use crate::text::{decimal, radix_chars, string_of};

verus! {

#[verifier::external_type_specification]
#[verifier::external_body]
pub struct ExTask(Task);

/// What `<str as Debug>::fmt` writes for a string: the string in double quotes, with
/// quotes, backslashes and non-printable characters escaped.
pub uninterp spec fn str_debug(s: Seq<char>) -> Seq<char>;

/// Formats `s` with `{:?}` (std's `Debug` for `str`); the result is a function of the
/// characters of `s` alone.
#[verifier::external_body]
fn debug_quoted(s: &str) -> (res: String)
    ensures
        res@ == str_debug(s@),
{
    format!("{:?}", s)
}

/// The browser-side teardown script for subscription `sub_id`: looks up the cleanup
/// function registered under `sub_id` in `window.__DIOXUS_WATCHERS`, removes it and runs it.
pub open spec fn cleanup_script_spec(sub_id: u64) -> Seq<char> {
    let id = decimal(sub_id as nat);
    "(function() { const w = window.__DIOXUS_WATCHERS; if (w && w.has("@ + id
        + ")) { const cleanup = w.get("@ + id + "); w.delete("@ + id
        + "); if (typeof cleanup === \"function\") { cleanup(); } } })();"@
}

/// The teardown script for subscription `sub_id`.
pub fn cleanup_script(sub_id: u64) -> (res: String)
    ensures
        res@ == cleanup_script_spec(sub_id),
{
    let id = radix_chars(sub_id, 10);
    let mut out: Vec<char> = Vec::new();
    push_str(&mut out, "(function() { const w = window.__DIOXUS_WATCHERS; if (w && w.has(");
    push_chars(&mut out, &id);
    push_str(&mut out, ")) { const cleanup = w.get(");
    push_chars(&mut out, &id);
    push_str(&mut out, "); w.delete(");
    push_chars(&mut out, &id);
    push_str(
        &mut out,
        "); if (typeof cleanup === \"function\") { cleanup(); } } })();",
    );
    string_of(&out)
}

/// The teardown that `g` (as it stood before) hands out: none for a guard already torn
/// down; otherwise its receiver task and the teardown script of its subscription.
pub open spec fn teardown_outcome(g: WatcherGuard, res: Option<TeardownPlan>) -> bool {
    if g.is_cleaned() {
        res is None
    } else {
        &&& res matches Some(p)
        &&& p.sub_id == g.spec_sub_id()
        &&& p.task == g.spec_task()
        &&& p.script@ == cleanup_script_spec(g.spec_sub_id())
    }
}

/// Unified lifecycle guard for an active JavaScript/browser watcher.
///
/// Its teardown is handed out at most once, by `take_teardown` or `stop`: the watcher's
/// event receiver task, to be cancelled, and the browser-side teardown script of its
/// subscription, to be dispatched. Carrying them out is the Dioxus runtime's work, which
/// can panic; the caller runs it and contains such a panic.
pub struct WatcherGuard {
    name: &'static str,
    sub_id: u64,
    task: Option<Task>,
    cleaned: bool,
    /// The teardown script for `sub_id`, prepared when the guard is made and handed out
    /// with the teardown.
    teardown: String,
}

/// The teardown of a watcher: cancel `task` (if any), then dispatch `script`.
pub struct TeardownPlan {
    /// The subscription being torn down.
    pub sub_id: u64,
    /// The event receiver task to cancel.
    pub task: Option<Task>,
    /// The browser-side script that unregisters the subscription's observer.
    pub script: String,
}

impl WatcherGuard {
    /// The diagnostic name.
    pub closed spec fn spec_name(&self) -> &'static str {
        self.name
    }

    /// The subscription ID.
    pub closed spec fn spec_sub_id(&self) -> u64 {
        self.sub_id
    }

    /// The guard still holds a receiver task.
    pub closed spec fn has_task(&self) -> bool {
        self.task is Some
    }

    /// The receiver task the guard holds.
    pub closed spec fn spec_task(&self) -> Option<Task> {
        self.task
    }

    /// The teardown has been handed out.
    pub closed spec fn is_cleaned(&self) -> bool {
        self.cleaned
    }

    /// A live guard holds the teardown script of its subscription; a torn-down guard holds
    /// no task.
    #[verifier::type_invariant]
    spec fn inv(&self) -> bool {
        &&& !self.cleaned ==> self.teardown@ == cleanup_script_spec(self.sub_id)
        &&& self.cleaned ==> self.task is None
    }

    /// Creates a live guard with the given diagnostic name, subscription ID and optional
    /// receiver task.
    pub fn new(name: &'static str, sub_id: u64, task: Option<Task>) -> (res: Self)
        ensures
            res.spec_name() == name,
            res.spec_sub_id() == sub_id,
            res.spec_task() == task,
            res.has_task() == (task is Some),
            !res.is_cleaned(),
    {
        WatcherGuard { name, sub_id, task, cleaned: false, teardown: cleanup_script(sub_id) }
    }

    /// The diagnostic name of the watcher (e.g. `"watch_resize"`).
    pub fn name(&self) -> (res: &'static str)
        ensures
            res == self.spec_name(),
    {
        self.name
    }

    /// The subscription ID of the watcher.
    pub fn subscription_id(&self) -> (res: u64)
        ensures
            res == self.spec_sub_id(),
    {
        self.sub_id
    }

    /// Consumes the guard and hands out its teardown, unless it was already handed out.
    pub fn stop(self) -> (res: Option<TeardownPlan>)
        ensures
            teardown_outcome(self, res),
    {
        let mut g = self;
        g.take_teardown()
    }

    /// Hands out the teardown unless it already was: marks the guard torn down and gives up
    /// its receiver task and teardown script. A second call hands out nothing.
    pub fn take_teardown(&mut self) -> (res: Option<TeardownPlan>)
        ensures
            final(self).is_cleaned(),
            !final(self).has_task(),
            final(self).spec_name() == old(self).spec_name(),
            final(self).spec_sub_id() == old(self).spec_sub_id(),
            old(self).is_cleaned() ==> *final(self) == *old(self),
            teardown_outcome(*old(self), res),
    {
        proof {
            use_type_invariant(&*self);
        }
        if self.cleaned {
            return None;
        }
        let mut task: Option<Task> = None;
        std::mem::swap(&mut task, &mut self.task);
        self.cleaned = true;
        let mut script = String::new();
        std::mem::swap(&mut script, &mut self.teardown);
        Some(TeardownPlan { sub_id: self.sub_id, task, script })
    }

    /// The debugging description, as `{:?}` formats the guard: its name (quoted and escaped
    /// as `Debug` does for strings) and its subscription ID.
    pub fn debug_string(&self) -> (res: String)
        ensures
            res@ == "WatcherGuard { name: "@ + str_debug(self.spec_name()@) + ", sub_id: "@
                + decimal(self.spec_sub_id() as nat) + " }"@,
    {
        let mut out: Vec<char> = Vec::new();
        push_str(&mut out, "WatcherGuard { name: ");
        let quoted = debug_quoted(self.name);
        push_str(&mut out, quoted.as_str());
        push_str(&mut out, ", sub_id: ");
        let id = radix_chars(self.sub_id, 10);
        push_chars(&mut out, &id);
        push_str(&mut out, " }");
        string_of(&out)
    }
}

} // verus!
