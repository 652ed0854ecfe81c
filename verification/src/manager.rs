//! The window registry: a mapping from handles to window instances.
//!
//! The registry owns every registered instance, keeps handles unique, and
//! dispatches per-frame queries (content, title, theme) to the instance
//! registered under a handle. Spawning and closing produce request values
//! for the host to execute; entries are removed only when the host reports a
//! closure back, so the registry's contents track what the host believes is
//! open.

use vstd::pervasive::unreached;
use vstd::prelude::*;

use crate::capability::Window;
use crate::handle::WindowHandle;
use crate::handle::main_handle;
use crate::requests::CloseBatch;
use crate::requests::CloseRequest;
use crate::requests::OpenRequest;

verus! {

/// Whether some entry of `s` is registered under handle `h`.
pub open spec fn holds_handle<W>(s: Seq<(WindowHandle, W)>, h: WindowHandle) -> bool {
    exists|i: int| 0 <= i < s.len() && (#[trigger] s[i]).0 == h
}

/// Whether the entries of `s` are registered under pairwise distinct
/// handles.
pub open spec fn distinct_handles<W>(s: Seq<(WindowHandle, W)>) -> bool {
    forall|i: int, j: int|
        0 <= i < j < s.len() ==> (#[trigger] s[i]).0 != (#[trigger] s[j]).0
}

/// The entries of `s` that are not registered under handle `h`, in order.
pub open spec fn without<W>(s: Seq<(WindowHandle, W)>, h: WindowHandle) -> Seq<
    (WindowHandle, W),
> {
    s.filter(|e: (WindowHandle, W)| e.0 != h)
}

/// The entries of `s` whose instance is of the kind identified by `k`, in
/// order.
pub open spec fn instances<W: Window>(s: Seq<(WindowHandle, W)>, k: Seq<char>) -> Seq<
    (WindowHandle, W),
> {
    s.filter(|e: (WindowHandle, W)| e.1.kind_spec() == k)
}

/// Whether some entry of `s` holds an instance of the kind identified by
/// `k`.
pub open spec fn has_kind<W: Window>(s: Seq<(WindowHandle, W)>, k: Seq<char>) -> bool {
    exists|i: int| 0 <= i < s.len() && (#[trigger] s[i]).1.kind_spec() == k
}

/// Dropping the entries under a handle that no entry holds changes
/// nothing.
pub proof fn lemma_without_absent<W>(s: Seq<(WindowHandle, W)>, h: WindowHandle)
    requires
        !holds_handle(s, h),
    ensures
        without(s, h) == s,
    decreases s.len(),
{
    reveal(Seq::filter);
    if s.len() == 0 {
        assert(without(s, h) =~= s);
    } else {
        assert(!holds_handle(s.drop_last(), h)) by {
            assert(forall|i: int|
                0 <= i < s.drop_last().len() ==> #[trigger] s.drop_last()[i] == s[i]);
        }
        lemma_without_absent(s.drop_last(), h);
        assert(s[s.len() - 1].0 != h);
        assert(s.drop_last().push(s.last()) =~= s);
    }
}

/// Dropping the entries under `h` from a sequence extended by one entry
/// keeps the shorter sequence's result and appends the new entry exactly
/// when it is not under `h`.
pub proof fn lemma_without_push<W>(
    s: Seq<(WindowHandle, W)>,
    x: (WindowHandle, W),
    h: WindowHandle,
)
    ensures
        x.0 != h ==> without(s.push(x), h) == without(s, h).push(x),
        x.0 == h ==> without(s.push(x), h) == without(s, h),
{
    reveal(Seq::filter);
    assert(s.push(x).drop_last() =~= s);
    assert(s.push(x).last() == x);
}

/// When the one entry under `h` sits at index `i`, dropping the entries
/// under `h` removes exactly that index.
pub proof fn lemma_without_removes_at<W>(s: Seq<(WindowHandle, W)>, h: WindowHandle, i: int)
    requires
        0 <= i < s.len(),
        s[i].0 == h,
        forall|j: int| 0 <= j < s.len() && j != i ==> (#[trigger] s[j]).0 != h,
    ensures
        without(s, h) == s.remove(i),
    decreases s.len(),
{
    reveal(Seq::filter);
    if i == s.len() - 1 {
        assert(!holds_handle(s.drop_last(), h)) by {
            assert(forall|k: int|
                0 <= k < s.drop_last().len() ==> #[trigger] s.drop_last()[k] == s[k]);
        }
        lemma_without_absent(s.drop_last(), h);
        assert(s.remove(i) =~= s.drop_last());
    } else {
        assert(forall|j: int|
            0 <= j < s.drop_last().len() && j != i ==> (#[trigger] s.drop_last()[j]).0 != h);
        lemma_without_removes_at(s.drop_last(), h, i);
        assert(s.last().0 != h);
        assert(s.remove(i) =~= s.drop_last().remove(i).push(s.last()));
    }
}

/// Keeping the instances of one kind from a sequence extended by one entry
/// keeps the shorter sequence's result and appends the new entry exactly
/// when its kind matches.
pub proof fn lemma_instances_push<W: Window>(
    s: Seq<(WindowHandle, W)>,
    x: (WindowHandle, W),
    k: Seq<char>,
)
    ensures
        x.1.kind_spec() == k ==> instances(s.push(x), k) == instances(s, k).push(x),
        x.1.kind_spec() != k ==> instances(s.push(x), k) == instances(s, k),
{
    reveal(Seq::filter);
    assert(s.push(x).drop_last() =~= s);
    assert(s.push(x).last() == x);
}

/// No entry under the dropped handle remains after dropping it.
pub proof fn lemma_without_drops_handle<W>(s: Seq<(WindowHandle, W)>, h: WindowHandle)
    ensures
        !holds_handle(without(s, h), h),
    decreases s.len(),
{
    reveal(Seq::filter);
    if s.len() == 0 {
        assert(without(s, h) =~= s);
    } else {
        let t = s.drop_last();
        let x = s.last();
        lemma_without_drops_handle(t, h);
        lemma_without_push(t, x, h);
        assert(t.push(x) =~= s);
        if x.0 != h {
            assert forall|i: int|
                0 <= i < without(s, h).len() implies (#[trigger] without(s, h)[i]).0 != h by {
                if i < without(t, h).len() {
                    assert(without(s, h)[i] == without(t, h)[i]);
                } else {
                    assert(without(s, h)[i] == x);
                }
            }
        }
    }
}
/// The registry of live windows: each registered handle maps to the one
/// window instance the host opened under it.
pub struct WindowManager<W> {
    entries: Vec<(WindowHandle, W)>,
}

impl<W: Window> WindowManager<W> {
    /// The registered entries: handle and instance pairs, in registration
    /// order (the order carries no meaning; handles are what identify
    /// entries).
    pub closed spec fn windows(&self) -> Seq<(WindowHandle, W)> {
        self.entries@
    }

    /// Well-formedness: no handle is registered twice, so the handle to
    /// instance mapping is one-to-one. Every constructor establishes this
    /// and every operation preserves it.
    pub open spec fn wf(&self) -> bool {
        distinct_handles(self.windows())
    }

    /// Whether a window is currently registered under `h`.
    pub open spec fn registered(&self, h: WindowHandle) -> bool {
        holds_handle(self.windows(), h)
    }

    /// The index of the entry registered under `h`.
    pub open spec fn index_of(&self, h: WindowHandle) -> int {
        choose|i: int| 0 <= i < self.windows().len() && (#[trigger] self.windows()[i]).0 == h
    }

    /// The instance registered under `h`.
    pub open spec fn window_at(&self, h: WindowHandle) -> W {
        self.windows()[self.index_of(h)].1
    }

    /// In a well-formed registry the entry under `h` sits at exactly one
    /// index, so any index holding `h` is the one `index_of` picks.
    proof fn lemma_index_of_agrees(&self, h: WindowHandle, i: int)
        requires
            self.wf(),
            0 <= i < self.windows().len(),
            self.windows()[i].0 == h,
        ensures
            self.index_of(h) == i,
    {
        assert(self.registered(h));
        let j = self.index_of(h);
        if i < j {
            assert(self.windows()[i].0 != self.windows()[j].0);
        } else if j < i {
            assert(self.windows()[j].0 != self.windows()[i].0);
        }
    }

    /// An empty registry: no window is registered.
    pub fn new() -> (r: Self)
        ensures
            r.windows() == Seq::<(WindowHandle, W)>::empty(),
            r.wf(),
    {
        let r = WindowManager { entries: Vec::new() };
        proof {
            assert(r.windows() =~= Seq::<(WindowHandle, W)>::empty());
        }
        r
    }

    /// A registry pre-seeded with the application's initial window: the
    /// caller-supplied instance is registered under the reserved main
    /// handle.
    pub fn with_main(window: W) -> (r: Self)
        ensures
            r.windows() == seq![(main_handle(), window)],
            r.wf(),
    {
        let mut entries: Vec<(WindowHandle, W)> = Vec::new();
        entries.push((WindowHandle::main(), window));
        let r = WindowManager { entries };
        proof {
            assert(r.windows() =~= seq![(main_handle(), window)]);
        }
        r
    }

    /// True iff no window is currently registered; applications use this to
    /// decide whether to terminate once the last window closes.
    pub fn empty(&self) -> (r: bool)
        ensures
            r == (self.windows().len() == 0),
    {
        self.entries.len() == 0
    }

    /// Registers `window` under `handle` and returns the open request the
    /// caller must forward to the host. `handle` must be the handle the
    /// host issued for this spawn: the host issues each handle at most
    /// once, so it is not yet registered here.
    pub fn open(&mut self, window: W, handle: WindowHandle) -> (r: OpenRequest)
        requires
            old(self).wf(),
            !old(self).registered(handle),
        ensures
            final(self).windows() == old(self).windows().push((handle, window)),
            final(self).wf(),
            r == (OpenRequest { handle, settings: window.settings_spec() }),
    {
        let settings = window.settings();
        self.entries.push((handle, window));
        OpenRequest { handle, settings }
    }

    /// Records that the host reported the window under `handle` closed: its
    /// entry, if any, is dropped. A handle that is not registered — a
    /// duplicate or late closure notification — is a silent no-op.
    pub fn was_closed(&mut self, handle: WindowHandle)
        requires
            old(self).wf(),
        ensures
            final(self).windows() == without(old(self).windows(), handle),
            final(self).wf(),
    {
        let n = self.entries.len();
        let mut i: usize = 0;
        while i < n
            invariant
                self == old(self),
                distinct_handles(self.entries@),
                n == self.entries.len(),
                i <= n,
                forall|k: int| 0 <= k < i ==> (#[trigger] self.entries@[k]).0 != handle,
            decreases n - i,
        {
            if self.entries[i].0 == handle {
                proof {
                    let s = old(self).windows();
                    assert(forall|j: int|
                        0 <= j < s.len() && j != i ==> (#[trigger] s[j]).0 != handle) by {
                        assert(forall|j: int|
                            i < j < s.len() ==> s[i as int].0 != (#[trigger] s[j]).0);
                    }
                    lemma_without_removes_at(s, handle, i as int);
                }
                self.entries.remove(i);
                proof {
                    let s = old(self).windows();
                    assert(self.windows() =~= without(s, handle));
                    assert forall|p: int, q: int|
                        0 <= p < q < self.windows().len() implies (#[trigger] self.windows()[p]).0
                        != (#[trigger] self.windows()[q]).0 by {
                        let p0: int = if p < i as int {
                            p
                        } else {
                            p + 1
                        };
                        let q0: int = if q < i as int {
                            q
                        } else {
                            q + 1
                        };
                        assert(self.windows()[p] == s[p0]);
                        assert(self.windows()[q] == s[q0]);
                    }
                }
                return ;
            }
            i += 1;
        }
        proof {
            lemma_without_absent(self.entries@, handle);
        }
    }

    /// Produces one close request per currently registered window, batched
    /// into a single value for the caller to forward to the host. No entry
    /// is removed: entries leave the registry only when the host confirms
    /// each closure through `was_closed`.
    pub fn close_all(&mut self) -> (r: CloseBatch)
        ensures
            *final(self) == *old(self),
            r.requests@.len() == old(self).windows().len(),
            forall|i: int|
                0 <= i < r.requests@.len() ==> (#[trigger] r.requests@[i]) == (CloseRequest {
                    handle: old(self).windows()[i].0,
                }),
    {
        let mut requests: Vec<CloseRequest> = Vec::new();
        let n = self.entries.len();
        let mut i: usize = 0;
        while i < n
            invariant
                self == old(self),
                n == self.entries.len(),
                i <= n,
                requests@.len() == i,
                forall|k: int|
                    0 <= k < i ==> (#[trigger] requests@[k]) == (CloseRequest {
                        handle: self.entries@[k].0,
                    }),
            decreases n - i,
        {
            let handle = self.entries[i].0;
            requests.push(CloseRequest { handle });
            i += 1;
        }
        CloseBatch { requests }
    }

    /// Checks whether some registered instance is of the same kind as the
    /// given window. Kind, not content: a window configured differently
    /// still counts when its kind identity matches.
    pub fn any_of(&self, window: &W) -> (r: bool)
        ensures
            r == has_kind(self.windows(), window.kind_spec()),
    {
        let n = self.entries.len();
        let mut i: usize = 0;
        while i < n
            invariant
                n == self.entries.len(),
                i <= n,
                forall|k: int|
                    0 <= k < i ==> (#[trigger] self.entries@[k]).1.kind_spec()
                        != window.kind_spec(),
            decreases n - i,
        {
            if self.entries[i].1.matches_kind(window) {
                return true;
            }
            i += 1;
        }
        false
    }

    /// Returns every registered instance of the given window's kind, each
    /// paired with the handle it is registered under, as owned copies, in
    /// registration order.
    pub fn instances_of(&self, window: &W) -> (r: Vec<(WindowHandle, W)>)
        ensures
            r@ == instances(self.windows(), window.kind_spec()),
    {
        let mut out: Vec<(WindowHandle, W)> = Vec::new();
        let n = self.entries.len();
        let mut i: usize = 0;
        while i < n
            invariant
                n == self.entries.len(),
                i <= n,
                out@ == instances(self.entries@.take(i as int), window.kind_spec()),
            decreases n - i,
        {
            proof {
                assert(self.entries@.take(i as int).push(self.entries@[i as int]) =~= self
                    .entries@.take(i as int + 1));
                lemma_instances_push(
                    self.entries@.take(i as int),
                    self.entries@[i as int],
                    window.kind_spec(),
                );
            }
            if self.entries[i].1.matches_kind(window) {
                let handle = self.entries[i].0;
                let copy = self.entries[i].1.duplicate();
                out.push((handle, copy));
            }
            i += 1;
        }
        proof {
            assert(self.entries@.take(n as int) =~= self.entries@);
        }
        out
    }

    /// The index at which the window under `handle` is registered. A call
    /// with an unregistered handle violates the contract; compiled code
    /// then panics rather than serve a phantom window.
    fn index_of_handle(&self, handle: WindowHandle) -> (i: usize)
        requires
            self.wf(),
            self.registered(handle),
        ensures
            i < self.windows().len(),
            self.windows()[i as int].0 == handle,
            self.index_of(handle) == i,
    {
        let n = self.entries.len();
        let mut i: usize = 0;
        while i < n
            invariant
                self.wf(),
                self.registered(handle),
                n == self.entries.len(),
                i <= n,
                forall|k: int| 0 <= k < i ==> (#[trigger] self.entries@[k]).0 != handle,
            decreases n - i,
        {
            if self.entries[i].0 == handle {
                proof {
                    self.lemma_index_of_agrees(handle, i as int);
                }
                return i;
            }
            i += 1;
        }
        proof {
            assert(false);
        }
        unreached()
    }

    /// The content the window registered under `handle` shows for the given
    /// application state. Querying a handle that was never registered, or
    /// was already closed, is a programmer error: it violates this
    /// contract, and compiled code panics rather than render content for a
    /// phantom window.
    pub fn view(&self, app: &W::App, handle: WindowHandle) -> (r: W::Content)
        requires
            self.wf(),
            self.registered(handle),
        ensures
            r == self.window_at(handle).content_spec(app, handle),
    {
        let i = self.index_of_handle(handle);
        self.entries[i].1.content(app, handle)
    }

    /// The title of the window registered under `handle`. Unregistered
    /// handles are a contract violation, as for `view`.
    pub fn title(&self, app: &W::App, handle: WindowHandle) -> (r: String)
        requires
            self.wf(),
            self.registered(handle),
        ensures
            r@ == self.window_at(handle).title_spec(app, handle),
    {
        let i = self.index_of_handle(handle);
        self.entries[i].1.title(app, handle)
    }

    /// The theme of the window registered under `handle`. Unregistered
    /// handles are a contract violation, as for `view`.
    pub fn theme(&self, app: &W::App, handle: WindowHandle) -> (r: W::Theme)
        requires
            self.wf(),
            self.registered(handle),
        ensures
            r == self.window_at(handle).theme_spec(app, handle),
    {
        let i = self.index_of_handle(handle);
        self.entries[i].1.theme(app, handle)
    }

    /// Whether a window is currently registered under `handle`; lets an
    /// unverified caller test `view`'s, `title`'s and `theme`'s contract
    /// before querying.
    pub fn is_registered(&self, handle: WindowHandle) -> (r: bool)
        ensures
            r == self.registered(handle),
    {
        let n = self.entries.len();
        let mut i: usize = 0;
        while i < n
            invariant
                n == self.entries.len(),
                i <= n,
                forall|k: int| 0 <= k < i ==> (#[trigger] self.entries@[k]).0 != handle,
            decreases n - i,
        {
            if self.entries[i].0 == handle {
                return true;
            }
            i += 1;
        }
        false
    }
}

/// How many entries of `s` hold an instance of the kind identified by `k`.
pub open spec fn kind_count<W: Window>(s: Seq<(WindowHandle, W)>, k: Seq<char>) -> nat
    decreases s.len(),
{
    if s.len() == 0 {
        0
    } else {
        kind_count(s.drop_last(), k) + if s.last().1.kind_spec() == k {
            1nat
        } else {
            0nat
        }
    }
}

/// Law: opening a window under a fresh handle and then closing that same
/// handle restores the registry's entries exactly — in particular, `empty`
/// answers afterwards what it answered before the pair.
pub proof fn lemma_open_then_closed_restores<W: Window>(
    s: Seq<(WindowHandle, W)>,
    handle: WindowHandle,
    window: W,
)
    requires
        !holds_handle(s, handle),
    ensures
        without(s.push((handle, window)), handle) == s,
{
    lemma_without_push(s, (handle, window), handle);
    lemma_without_absent(s, handle);
}

/// Law: after a window is opened under a fresh handle, a window of its kind
/// exists; once that handle is closed it no longer does, provided no other
/// registered instance was of that kind.
pub proof fn lemma_kind_exists_until_closed<W: Window>(
    s: Seq<(WindowHandle, W)>,
    handle: WindowHandle,
    window: W,
)
    requires
        !holds_handle(s, handle),
        !has_kind(s, window.kind_spec()),
    ensures
        has_kind(s.push((handle, window)), window.kind_spec()),
        !has_kind(without(s.push((handle, window)), handle), window.kind_spec()),
{
    let t = s.push((handle, window));
    assert(t[s.len() as int].1.kind_spec() == window.kind_spec());
    lemma_open_then_closed_restores(s, handle, window);
}

/// Law: an entry survives the closing of any other handle, so a registered
/// window keeps its kind visible in `has_kind` until its own handle is
/// closed.
pub proof fn lemma_close_other_keeps_entry<W: Window>(
    s: Seq<(WindowHandle, W)>,
    i: int,
    other: WindowHandle,
)
    requires
        0 <= i < s.len(),
        s[i].0 != other,
    ensures
        without(s, other).contains(s[i]),
        has_kind(without(s, other), s[i].1.kind_spec()),
    decreases s.len(),
{
    reveal(Seq::filter);
    let t = s.drop_last();
    let x = s.last();
    assert(t.push(x) =~= s);
    lemma_without_push(t, x, other);
    if i == s.len() - 1 {
        assert(without(s, other) == without(t, other).push(x));
        assert(without(s, other).last() == s[i]);
    } else {
        lemma_close_other_keeps_entry(t, i, other);
        let j = choose|j: int| 0 <= j < without(t, other).len() && without(t, other)[j] == t[i];
        if x.0 != other {
            assert(without(s, other)[j] == s[i]);
        }
    }
    let w = choose|j: int|
        0 <= j < without(s, other).len() && #[trigger] without(s, other)[j] == s[i];
    assert(without(s, other)[w].1.kind_spec() == s[i].1.kind_spec());
}

/// Law: opening further windows never hides a kind that exists: whatever
/// entry is appended, every kind that had an instance still has one.
pub proof fn lemma_open_keeps_kinds<W: Window>(
    s: Seq<(WindowHandle, W)>,
    x: (WindowHandle, W),
    k: Seq<char>,
)
    requires
        has_kind(s, k),
    ensures
        has_kind(s.push(x), k),
{
    let i = choose|i: int| 0 <= i < s.len() && (#[trigger] s[i]).1.kind_spec() == k;
    assert(s.push(x)[i].1.kind_spec() == k);
}

/// Law: closure notifications are idempotent: closing a handle that was
/// already closed changes nothing.
pub proof fn lemma_closed_idempotent<W: Window>(s: Seq<(WindowHandle, W)>, handle: WindowHandle)
    ensures
        without(without(s, handle), handle) == without(s, handle),
{
    lemma_without_drops_handle(s, handle);
    lemma_without_absent(without(s, handle), handle);
}

/// Law: `instances_of` answers one entry per registered instance of the
/// kind: the sequence it returns is exactly as long as the number of
/// registered entries whose kind matches.
pub proof fn lemma_instances_len_counts<W: Window>(s: Seq<(WindowHandle, W)>, k: Seq<char>)
    ensures
        instances(s, k).len() == kind_count(s, k),
    decreases s.len(),
{
    reveal(Seq::filter);
    if s.len() == 0 {
    } else {
        lemma_instances_len_counts(s.drop_last(), k);
    }
}

/// Law: the instances of a kind track spawning and closing exactly: opening
/// a window of the kind under a fresh handle appends exactly its entry to
/// the instances, and closing that handle restores the instances that were
/// there before.
pub proof fn lemma_instances_track_open_and_close<W: Window>(
    s: Seq<(WindowHandle, W)>,
    handle: WindowHandle,
    window: W,
)
    requires
        !holds_handle(s, handle),
    ensures
        instances(s.push((handle, window)), window.kind_spec()) == instances(
            s,
            window.kind_spec(),
        ).push((handle, window)),
        instances(without(s.push((handle, window)), handle), window.kind_spec()) == instances(
            s,
            window.kind_spec(),
        ),
{
    lemma_instances_push(s, (handle, window), window.kind_spec());
    lemma_open_then_closed_restores(s, handle, window);
}

impl<W: Window> Default for WindowManager<W> {
    /// An empty registry.
    fn default() -> (r: Self)
        ensures
            r.windows() == Seq::<(WindowHandle, W)>::empty(),
            r.wf(),
    {
        WindowManager::new()
    }
}

} // verus!
